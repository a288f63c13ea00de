//! Update-loop transitions for command mode: typing a command, completing
//! it, and running it.

use vstd::prelude::*;
use crate::text::{is_white_space, is_plain_word, single_spaced, lemma_words_are_words, lemma_words_concat, lemma_words_of_word, lemma_words_join, lemma_join_words, chars_of, string_of, string_from_chars, push_str, push_char, words, split_words, seqs_of, join, join_from, trim, trim_chars, trim_start_char, trim_start_char_chars, is_prefix, starts_with, chars_eq};
use crate::input::{insert_char_at, remove_char_at, delete_word, inserted, removed};
use crate::models::{AttachmentInfo, ChatMessage};
use crate::completion::{CompletionState, CompletionStep, determine_completion_state, completion_step_ok, paths_request, ready_state_ok, completion_ok, filepath_completion, filepath_state, PathEntry};
use crate::app_state::{App, Screen, Focus, Mode, RunningState, AsyncAction, Message, status_is, set_status, within_limits};
use crate::update_input::word_deleted;

verus! {

broadcast use vstd::string::group_string_axioms;

/// `new` shows the completion for the command line `input`, starting from
/// `old`: a ready state, or no completion while a directory listing is
/// requested.
pub open spec fn completion_applied(old: App, new: App, input: Seq<char>) -> bool {
    match paths_request(input) {
        Some(p) => {
            &&& new == (App { completion_state: new.completion_state, actions: new.actions, ..old })
            &&& new.completion_state is Inactive
            &&& new.actions@.len() == old.actions@.len() + 1 && new.actions@.drop_last() =~= old.actions@
            &&& new.actions@.last() matches AsyncAction::ListPaths { path, base } && path@ == p && base@ == "."@
        },
        None => {
            &&& new == (App { completion_state: new.completion_state, ..old })
            &&& ready_state_ok(input, new.completion_state)
        },
    }
}

/// Recomputes the completion for the current command line.
pub fn refresh_completion(app: &mut App)
    ensures
        completion_applied(*old(app), *final(app), old(app).command_input@),
        completion_ok(final(app).completion_state),
{
    let step = determine_completion_state(app.command_input.as_str());
    match step {
        CompletionStep::Ready(st) => {
            app.completion_state = st;
        },
        CompletionStep::ListPaths { path, base } => {
            app.completion_state = CompletionState::Inactive;
            app.send_action(AsyncAction::ListPaths { path, base });
        },
    }
}

/// A character typed into the command line; the completion follows it.
pub open spec fn command_char_done(old: App, new: App, c: char) -> bool {
    let typed = if old.command_cursor <= old.command_input@.len() {
        inserted(old.command_input@, old.command_cursor as int, c)
    } else {
        old.command_input@.push(c)
    };
    let mid = App { command_input: new.command_input, command_cursor: (old.command_cursor + 1) as usize, ..old };
    new.command_input@ == typed && completion_applied(mid, new, typed)
}

/// Types a command character.
pub fn on_command_char(app: &mut App, c: char)
    requires
        within_limits(*old(app)),
    ensures
        command_char_done(*old(app), *final(app), c),
        completion_ok(final(app).completion_state),
{
    insert_char_at(&mut app.command_input, app.command_cursor, c);
    app.command_cursor = app.command_cursor + 1;
    refresh_completion(app);
}

/// Backspace in the command line; the completion follows it.
pub open spec fn command_backspace_done(old: App, new: App) -> bool {
    if old.command_cursor > 0 {
        let p = old.command_cursor - 1;
        let left = if p < old.command_input@.len() { removed(old.command_input@, p) } else { old.command_input@ };
        let mid = App { command_input: new.command_input, command_cursor: p as usize, ..old };
        new.command_input@ == left && completion_applied(mid, new, left)
    } else {
        new == old
    }
}

/// Deletes the command character before the cursor.
pub fn on_command_backspace(app: &mut App)
    requires
        completion_ok(old(app).completion_state),
    ensures
        command_backspace_done(*old(app), *final(app)),
        completion_ok(final(app).completion_state),
{
    if app.command_cursor > 0 {
        app.command_cursor = app.command_cursor - 1;
        remove_char_at(&mut app.command_input, app.command_cursor);
        refresh_completion(app);
    }
}

/// Ctrl+W in the command line (the completion is left as it was).
pub open spec fn command_delete_word_done(old: App, new: App) -> bool {
    &&& new == (App { command_input: new.command_input, command_cursor: new.command_cursor, ..old })
    &&& word_deleted(old.command_input@, old.command_cursor as int, new.command_input@, new.command_cursor as int)
}

/// Deletes the previous word of the command line.
pub fn on_command_delete_word(app: &mut App)
    ensures
        command_delete_word_done(*old(app), *final(app)),
{
    delete_word(&mut app.command_input, &mut app.command_cursor);
}

/// Command mode: focus the input, clear the command line and offer every
/// command.
pub open spec fn command_mode_done(old: App, new: App) -> bool {
    &&& new == (App { mode: Mode::Command, focus: Focus::Input, command_input: new.command_input, command_cursor: 0, completion_state: new.completion_state, status: new.status, ..old })
    &&& new.command_input@.len() == 0
    &&& ready_state_ok(seq![], new.completion_state)
    &&& status_is(new, "Command mode"@)
}

/// `:` in normal mode.
pub fn on_enter_command_mode(app: &mut App)
    ensures
        command_mode_done(*old(app), *final(app)),
        completion_ok(final(app).completion_state),
{
    app.mode = Mode::Command;
    app.focus = Focus::Input;
    app.command_input = String::new();
    app.command_cursor = 0;
    proof {
        reveal_strlit("");
        assert(""@ =~= Seq::<char>::empty());
        assert(trim_start_char(Seq::<char>::empty(), ':') == Seq::<char>::empty());
        assert(words(Seq::<char>::empty()).len() == 0);
    }
    refresh_completion(app);
    set_status(app, "Command mode");
}

/// Moves the completion highlight up or down within its list.
pub open spec fn completion_move_done(old: App, new: App, up: bool) -> bool {
    let step = |sel: usize, len: int| -> usize {
        if up { if sel > 0 { (sel - 1) as usize } else { sel } } else { if sel + 1 < len { (sel + 1) as usize } else { sel } }
    };
    match old.completion_state {
        CompletionState::Inactive => new == old,
        CompletionState::Commands { suggestions, selected } => new == (App {
            completion_state: CompletionState::Commands { suggestions, selected: step(selected, suggestions@.len() as int) },
            ..old
        }),
        CompletionState::Subcommands { command, options, selected } => new == (App {
            completion_state: CompletionState::Subcommands { command, options, selected: step(selected, options@.len() as int) },
            ..old
        }),
        CompletionState::FilePaths { context, base_path, entries, selected } => new == (App {
            completion_state: CompletionState::FilePaths { context, base_path, entries, selected: step(selected, entries@.len() as int) },
            ..old
        }),
    }
}

/// Up/Down in the completion popup.
pub fn on_completion_move(app: &mut App, up: bool)
    requires
        completion_ok(old(app).completion_state),
    ensures
        completion_move_done(*old(app), *final(app), up),
        completion_ok(final(app).completion_state),
{
    let mut st = CompletionState::Inactive;
    std::mem::swap(&mut st, &mut app.completion_state);
    let moved = match st {
        CompletionState::Inactive => CompletionState::Inactive,
        CompletionState::Commands { suggestions, selected } => {
            let len = suggestions.len();
            let sel = if up { if selected > 0 { selected - 1 } else { selected } } else { if selected + 1 < len { selected + 1 } else { selected } };
            CompletionState::Commands { suggestions, selected: sel }
        },
        CompletionState::Subcommands { command, options, selected } => {
            let len = options.len();
            let sel = if up { if selected > 0 { selected - 1 } else { selected } } else { if selected + 1 < len { selected + 1 } else { selected } };
            CompletionState::Subcommands { command, options, selected: sel }
        },
        CompletionState::FilePaths { context, base_path, entries, selected } => {
            let len = entries.len();
            let sel = if up { if selected > 0 { selected - 1 } else { selected } } else { if selected + 1 < len { selected + 1 } else { selected } };
            CompletionState::FilePaths { context, base_path, entries, selected: sel }
        },
    };
    app.completion_state = moved;
}

/// A directory listing arrived: show its path completion.
pub open spec fn paths_listed_done(old: App, new: App, base_path: Seq<char>, prefix: Seq<char>, entries: Seq<PathEntry>) -> bool {
    &&& new == (App { completion_state: new.completion_state, ..old })
    &&& filepath_state(base_path, prefix, entries, new.completion_state)
}

/// Shows the path completion for a listing.
pub fn on_paths_listed(app: &mut App, base_path: String, prefix: String, entries: Vec<PathEntry>)
    ensures
        paths_listed_done(*old(app), *final(app), base_path@, prefix@, entries@),
        completion_ok(final(app).completion_state),
{
    app.completion_state = filepath_completion(base_path, prefix.as_str(), entries);
}

/// The attachments of a message that can be downloaded (those with a URL).
pub open spec fn downloadable(atts: Seq<AttachmentInfo>) -> Seq<AttachmentInfo>
    decreases atts.len(),
{
    if atts.len() == 0 {
        seq![]
    } else {
        let prev = downloadable(atts.drop_last());
        if atts.last().url is Some { prev.push(atts.last()) } else { prev }
    }
}

/// Downloading the highlighted message's attachments.
pub open spec fn download_done(old: App, new: App) -> bool {
    if old.messages_scroll < old.messages@.len() {
        let d = downloadable(old.messages@[old.messages_scroll as int].attachments@);
        if d.len() == 0 {
            new == (App { status: new.status, ..old }) && status_is(new, "No downloadable attachments"@)
        } else {
            &&& new == (App { status: new.status, actions: new.actions, ..old })
            &&& status_is(new, "Downloading attachments..."@)
            &&& new.actions@.len() == old.actions@.len() + 1 && new.actions@.drop_last() =~= old.actions@
            &&& new.actions@.last() matches AsyncAction::DownloadAttachments(v) && v@ == d
        }
    } else {
        new == old
    }
}

/// Asks for the highlighted message's attachments to be downloaded.
pub fn download_current(app: &mut App)
    ensures
        download_done(*old(app), *final(app)),
{
    if app.messages_scroll >= app.messages.len() {
        return;
    }
    let atts = &app.messages[app.messages_scroll].attachments;
    let ghost all = atts@;
    let n = atts.len();
    let mut out: Vec<AttachmentInfo> = Vec::new();
    let mut i: usize = 0;
    while i < n
        invariant
            n == all.len(),
            all == atts@,
            i <= n,
            out@ == downloadable(all.take(i as int)),
        decreases n - i,
    {
        assert(all.take(i + 1).drop_last() == all.take(i as int));
        assert(all.take(i + 1).last() == all[i as int]);
        if atts[i].url.is_some() {
            out.push(atts[i].clone());
        }
        i = i + 1;
    }
    assert(all.take(n as int) == all);
    if out.len() == 0 {
        set_status(app, "No downloadable attachments");
    } else {
        app.send_action(AsyncAction::DownloadAttachments(out));
        set_status(app, "Downloading attachments...");
    }
}

/// `w` is one of the listed command words.
pub open spec fn is_word(w: Seq<char>, a: Seq<char>, b: Seq<char>) -> bool {
    w == a || w == b
}

/// A message or attachment command for the current chat: queue `action`
/// when a chat is open, else say that none is.
pub open spec fn for_chat_done(old: App, new: App, action_ok: spec_fn(AsyncAction) -> bool) -> bool {
    match old.current_peer_id {
        Some(_) => {
            &&& new == (App { actions: new.actions, ..old })
            &&& new.actions@.len() == old.actions@.len() + 1 && new.actions@.drop_last() =~= old.actions@
            &&& action_ok(new.actions@.last())
        },
        None => new == (App { status: new.status, ..old }) && status_is(new, "No chat selected"@),
    }
}

/// Only the status line changes, to `text`.
pub open spec fn status_only(old: App, new: App, text: Seq<char>) -> bool {
    new == (App { status: new.status, ..old }) && status_is(new, text)
}

/// The effect of running a `:` command line.
pub open spec fn command_done(old: App, new: App, cmd: Seq<char>) -> bool {
    let parts = words(trim_start_char(cmd, ':'));
    if parts.len() == 0 {
        new == old
    } else {
        let w = parts[0];
        let rest1 = join(parts.skip(1), " "@);
        let rest2 = join(parts.skip(2), " "@);
        if w == "q"@ || w == "quit"@ || w == "qa"@ || w == "quitall"@ {
            new == (App { running_state: RunningState::Done, ..old })
        } else if is_word(w, "b"@, "back"@) {
            new == (App { focus: Focus::ChatList, current_peer_id: None, ..old })
        } else if is_word(w, "s"@, "search"@) {
            if parts.len() > 1 {
                status_only(old, new, "Search: "@ + rest1 + " (not yet implemented)"@)
            } else {
                status_only(old, new, "Usage: :search <query>"@)
            }
        } else if is_word(w, "m"@, "msg"@) {
            if parts.len() > 1 {
                for_chat_done(old, new, |a: AsyncAction| a matches AsyncAction::SendMessage(p, t) && Some(p) == old.current_peer_id && t@ == rest1)
            } else {
                status_only(old, new, "Usage: :msg <text>"@)
            }
        } else if is_word(w, "ap"@, "ad"@) {
            if parts.len() > 1 {
                if w == "ap"@ {
                    for_chat_done(old, new, |a: AsyncAction| a matches AsyncAction::SendPhoto(p, t) && Some(p) == old.current_peer_id && t@ == rest1)
                } else {
                    for_chat_done(old, new, |a: AsyncAction| a matches AsyncAction::SendDoc(p, t) && Some(p) == old.current_peer_id && t@ == rest1)
                }
            } else {
                status_only(old, new, "Usage: :attach photo|doc <path>"@)
            }
        } else if w == "attach"@ {
            if parts.len() > 2 && parts[1] == "photo"@ {
                for_chat_done(old, new, |a: AsyncAction| a matches AsyncAction::SendPhoto(p, t) && Some(p) == old.current_peer_id && t@ == rest2)
            } else if parts.len() > 2 && parts[1] == "doc"@ {
                for_chat_done(old, new, |a: AsyncAction| a matches AsyncAction::SendDoc(p, t) && Some(p) == old.current_peer_id && t@ == rest2)
            } else {
                status_only(old, new, "Usage: :attach photo|doc <path>"@)
            }
        } else if is_word(w, "dl"@, "download"@) {
            download_done(old, new)
        } else if is_word(w, "h"@, "help"@) {
            new == (App { show_help: true, ..old })
        } else if w == "close"@ {
            new == (App { show_help: false, forward_view: None, forward: None, global_search: None, ..old })
        } else if is_word(w, "r"@, "reply"@) {
            status_only(old, new, "Reply not yet implemented"@)
        } else if w == "f"@ || w == "forward"@ || w == "fwd"@ {
            status_only(old, new, "Forward not yet implemented"@)
        } else if is_word(w, "p"@, "pin"@) {
            status_only(old, new, "Pin/unpin not yet implemented"@)
        } else {
            status_only(old, new, "Unknown command: "@ + w)
        }
    }
}

/// `:m`/`:msg` with text in an open chat queues exactly one message, whose
/// words are all the words after the command, in order.
pub proof fn lemma_msg_words(old: App, new: App, cmd: Seq<char>)
    requires
        command_done(old, new, cmd),
        old.current_peer_id is Some,
        words(trim_start_char(cmd, ':')).len() > 1,
        words(trim_start_char(cmd, ':'))[0] == "m"@ || words(trim_start_char(cmd, ':'))[0] == "msg"@,
    ensures
        new == (App { actions: new.actions, ..old }),
        new.actions@.len() == old.actions@.len() + 1,
        new.actions@.drop_last() == old.actions@,
        new.actions@.last() matches AsyncAction::SendMessage(p, t)
            && Some(p) == old.current_peer_id
            && t@ == join(words(trim_start_char(cmd, ':')).skip(1), " "@)
            && words(t@) == words(trim_start_char(cmd, ':')).skip(1),
{
    reveal_strlit("q");
    reveal_strlit("quit");
    reveal_strlit("qa");
    reveal_strlit("quitall");
    reveal_strlit("b");
    reveal_strlit("back");
    reveal_strlit("s");
    reveal_strlit("search");
    reveal_strlit("m");
    reveal_strlit("msg");
    let parts = words(trim_start_char(cmd, ':'));
    let w = parts[0];
    assert(w[0] == 'm');
    assert(w != "q"@ && w != "quit"@ && w != "qa"@ && w != "quitall"@) by {
        assert("q"@[0] == 'q' && "quit"@[0] == 'q' && "qa"@[0] == 'q' && "quitall"@[0] == 'q');
    }
    assert(w != "b"@ && w != "back"@ && w != "s"@ && w != "search"@) by {
        assert("b"@[0] == 'b' && "back"@[0] == 'b' && "s"@[0] == 's' && "search"@[0] == 's');
    }
    let rest = parts.skip(1);
    lemma_words_are_words(trim_start_char(cmd, ':'));
    assert forall|k: int| 0 <= k < rest.len() implies is_plain_word(#[trigger] rest[k]) by {
        assert(rest[k] == parts[k + 1]);
    }
    lemma_words_join(rest);
}

/// For a line `:m ` or `:msg ` followed by words separated by single
/// spaces, in an open chat, the queued message is exactly that text.
pub proof fn lemma_msg_line(old: App, new: App, w: Seq<char>, text: Seq<char>)
    requires
        w == "m"@ || w == "msg"@,
        single_spaced(text),
        old.current_peer_id is Some,
        command_done(old, new, seq![':'] + w + seq![' '] + text),
    ensures
        new == (App { actions: new.actions, ..old }),
        new.actions@.len() == old.actions@.len() + 1,
        new.actions@.drop_last() == old.actions@,
        new.actions@.last() matches AsyncAction::SendMessage(p, t)
            && Some(p) == old.current_peer_id && t@ == text,
{
    reveal_strlit("m");
    reveal_strlit("msg");
    let cmd = seq![':'] + w + seq![' '] + text;
    let body = w + seq![' '] + text;
    assert(cmd.drop_first() =~= body);
    assert(body[0] == 'm');
    assert(trim_start_char(body, ':') == body);
    assert(trim_start_char(cmd, ':') == body);
    assert(is_plain_word(w));
    lemma_words_of_word(w);
    assert(is_white_space(' '));
    lemma_words_concat(w, ' ', text);
    lemma_join_words(text);
    let wt = words(text);
    assert(wt.len() > 0) by {
        if wt.len() == 0 {
            assert(join(wt, " "@) == Seq::<char>::empty());
        }
    }
    let parts = words(trim_start_char(cmd, ':'));
    assert(parts == seq![w] + wt);
    assert(parts.skip(1) =~= wt);
    assert(parts[0] == w);
    lemma_msg_words(old, new, cmd);
}

fn word_eq(w: &Vec<char>, lit: &str) -> (r: bool)
    ensures
        r == (w@ == lit@),
{
    chars_eq(w.as_slice(), chars_of(lit).as_slice())
}

/// Runs a command line typed after `:` (the leading `:` is optional).
pub fn handle_command(app: &mut App, cmd: &str) -> (r: Option<Message>)
    ensures
        r is None,
        command_done(*old(app), *final(app), cmd@),
{
    let trimmed = trim_start_char_chars(chars_of(cmd).as_slice(), ':');
    let parts = split_words(trimmed.as_slice());
    let n = parts.len();
    if n == 0 {
        return None;
    }
    let ghost ps = words(trim_start_char(cmd@, ':'));
    assert(parts@[0]@ == ps[0]);
    let w = &parts[0];
    let sep = chars_of(" ");
    if word_eq(w, "q") || word_eq(w, "quit") || word_eq(w, "qa") || word_eq(w, "quitall") {
        app.running_state = RunningState::Done;
    } else if word_eq(w, "b") || word_eq(w, "back") {
        app.focus = Focus::ChatList;
        app.current_peer_id = None;
    } else if word_eq(w, "s") || word_eq(w, "search") {
        if n > 1 {
            let mut text = string_of("Search: ");
            let q = join_from(&parts, 1, sep.as_slice());
            push_str(&mut text, string_from_chars(q.as_slice()).as_str());
            push_str(&mut text, " (not yet implemented)");
            app.status = Some(text);
        } else {
            set_status(app, "Usage: :search <query>");
        }
    } else if word_eq(w, "m") || word_eq(w, "msg") {
        if n > 1 {
            let text = string_from_chars(join_from(&parts, 1, sep.as_slice()).as_slice());
            match app.current_peer_id {
                Some(peer_id) => app.send_action(AsyncAction::SendMessage(peer_id, text)),
                None => set_status(app, "No chat selected"),
            }
        } else {
            set_status(app, "Usage: :msg <text>");
        }
    } else if word_eq(w, "ap") || word_eq(w, "ad") {
        if n > 1 {
            let path = string_from_chars(join_from(&parts, 1, sep.as_slice()).as_slice());
            match app.current_peer_id {
                Some(peer_id) => {
                    if word_eq(w, "ap") {
                        app.send_action(AsyncAction::SendPhoto(peer_id, path));
                    } else {
                        app.send_action(AsyncAction::SendDoc(peer_id, path));
                    }
                },
                None => set_status(app, "No chat selected"),
            }
        } else {
            set_status(app, "Usage: :attach photo|doc <path>");
        }
    } else if word_eq(w, "attach") {
        let photo = n > 2 && word_eq(&parts[1], "photo");
        let doc = n > 2 && word_eq(&parts[1], "doc");
        if photo || doc {
            assert(parts@[1]@ == ps[1]);
            let path = string_from_chars(join_from(&parts, 2, sep.as_slice()).as_slice());
            match app.current_peer_id {
                Some(peer_id) => {
                    if photo {
                        app.send_action(AsyncAction::SendPhoto(peer_id, path));
                    } else {
                        app.send_action(AsyncAction::SendDoc(peer_id, path));
                    }
                },
                None => set_status(app, "No chat selected"),
            }
        } else {
            proof {
                if n > 2 {
                    assert(parts@[1]@ == ps[1]);
                }
            }
            set_status(app, "Usage: :attach photo|doc <path>");
        }
    } else if word_eq(w, "dl") || word_eq(w, "download") {
        download_current(app);
    } else if word_eq(w, "h") || word_eq(w, "help") {
        app.show_help = true;
    } else if word_eq(w, "close") {
        app.show_help = false;
        app.forward_view = None;
        app.forward = None;
        app.global_search = None;
    } else if word_eq(w, "r") || word_eq(w, "reply") {
        set_status(app, "Reply not yet implemented");
    } else if word_eq(w, "f") || word_eq(w, "forward") || word_eq(w, "fwd") {
        set_status(app, "Forward not yet implemented");
    } else if word_eq(w, "p") || word_eq(w, "pin") {
        set_status(app, "Pin/unpin not yet implemented");
    } else {
        let mut text = string_of("Unknown command: ");
        push_str(&mut text, string_from_chars(w.as_slice()).as_str());
        app.status = Some(text);
    }
    None
}

} // verus!
