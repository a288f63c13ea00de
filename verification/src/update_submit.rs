//! Enter in command mode: accepting the highlighted completion (a command,
//! a subcommand or a path) or, with no completion open, running the line.

use vstd::prelude::*;
use vstd::utf8::encode_utf8;
use crate::text::{chars_of, string_of, string_from_chars, push_str, words, split_words, seqs_of, join, join_from, trim, trim_chars, is_prefix, starts_with};
use crate::completion::{CompletionState, completion_ok};
use crate::app_state::{App, Mode};
use crate::update_command::{completion_applied, refresh_completion, command_done, handle_command};

verus! {

broadcast use vstd::string::group_string_axioms;

/// ":" when the command line starts with one, else nothing.
pub open spec fn colon_prefix(input: Seq<char>) -> Seq<char> {
    if is_prefix(":"@, input) { ":"@ } else { ""@ }
}

/// The command part kept when a path is accepted: every word but the last
/// when there are more than two, else the trimmed line.
pub open spec fn command_part(input: Seq<char>) -> Seq<char> {
    let parts = words(input);
    if parts.len() > 2 {
        join(parts.take(parts.len() - 1), " "@)
    } else {
        trim(input)
    }
}

/// Enter in command mode.
pub open spec fn command_submit_done(old: App, new: App) -> bool {
    match old.completion_state {
        CompletionState::Commands { suggestions, selected } => {
            let input = colon_prefix(old.command_input@) + suggestions@[selected as int].command@ + " "@;
            new.command_input@ == input && completion_applied(
                App { command_input: new.command_input, command_cursor: encode_utf8(input).len() as usize, completion_state: CompletionState::Inactive, ..old },
                new,
                input,
            )
        },
        CompletionState::Subcommands { command, options, selected } => {
            let input = colon_prefix(old.command_input@) + command@ + " "@ + options@[selected as int].name@ + " "@;
            new.command_input@ == input && completion_applied(
                App { command_input: new.command_input, command_cursor: encode_utf8(input).len() as usize, completion_state: CompletionState::Inactive, ..old },
                new,
                input,
            )
        },
        CompletionState::FilePaths { entries, selected, .. } => {
            let e = entries@[selected as int];
            let input = command_part(old.command_input@) + " "@ + e.full_path@ + if e.is_dir { "/"@ } else { " "@ };
            let mid = App { command_input: new.command_input, command_cursor: encode_utf8(input).len() as usize, completion_state: CompletionState::Inactive, ..old };
            &&& new.command_input@ == input
            &&& if e.is_dir { completion_applied(mid, new, input) } else { new == mid }
        },
        CompletionState::Inactive => {
            exists|mid: App| #[trigger] command_done(old, mid, old.command_input@)
                && new == (App { command_input: new.command_input, command_cursor: 0, mode: Mode::Normal, ..mid })
                && new.command_input@.len() == 0
        },
    }
}

/// Sets the command line and puts the cursor after its last byte.
fn set_line(app: &mut App, line: String)
    ensures
        *final(app) == (App { command_input: final(app).command_input, command_cursor: encode_utf8(line@).len() as usize, ..*old(app) }),
        final(app).command_input@ == line@,
{
    let n = line.as_str().len();
    app.command_input = line;
    app.command_cursor = n;
}

/// Enter in command mode.
#[verifier::spinoff_prover]
#[verifier::rlimit(40)]
pub fn on_command_submit(app: &mut App)
    requires
        completion_ok(old(app).completion_state),
    ensures
        command_submit_done(*old(app), *final(app)),
        completion_ok(final(app).completion_state),
{
    let mut state = CompletionState::Inactive;
    std::mem::swap(&mut state, &mut app.completion_state);
    let colon = starts_with(chars_of(app.command_input.as_str()).as_slice(), chars_of(":").as_slice());
    match state {
        CompletionState::Commands { suggestions, selected } => {
            let mut line = string_of(if colon { ":" } else { "" });
            push_str(&mut line, suggestions[selected].command.as_str());
            push_str(&mut line, " ");
            set_line(app, line);
            refresh_completion(app);
        },
        CompletionState::Subcommands { command, options, selected } => {
            let mut line = string_of(if colon { ":" } else { "" });
            push_str(&mut line, command.as_str());
            push_str(&mut line, " ");
            push_str(&mut line, options[selected].name.as_str());
            push_str(&mut line, " ");
            set_line(app, line);
            refresh_completion(app);
        },
        CompletionState::FilePaths { context: _, base_path: _, entries, selected } => {
            let mut parts = split_words(chars_of(app.command_input.as_str()).as_slice());
            let ghost ws = words(app.command_input@);
            let cmd_part = if parts.len() > 2 {
                let _ = parts.pop();
                assert(seqs_of(parts@) =~= ws.take(ws.len() - 1));
                assert(seqs_of(parts@).skip(0) =~= seqs_of(parts@));
                string_from_chars(join_from(&parts, 0, chars_of(" ").as_slice()).as_slice())
            } else {
                string_from_chars(trim_chars(chars_of(app.command_input.as_str()).as_slice()).as_slice())
            };
            let mut line = cmd_part;
            push_str(&mut line, " ");
            push_str(&mut line, entries[selected].full_path.as_str());
            if entries[selected].is_dir {
                push_str(&mut line, "/");
                set_line(app, line);
                refresh_completion(app);
            } else {
                push_str(&mut line, " ");
                set_line(app, line);
            }
        },
        CompletionState::Inactive => {
            let cmd = app.command_input.clone();
            let _ = handle_command(app, cmd.as_str());
            let ghost mid = *app;
            app.command_input = String::new();
            app.command_cursor = 0;
            app.mode = Mode::Normal;
            assert(command_done(*old(app), mid, old(app).command_input@));
        },
    }
}

} // verus!
