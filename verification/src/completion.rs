//! Command-mode completion: which commands, subcommands and paths to offer
//! for what has been typed after `:`.

use vstd::prelude::*;
use crate::text::{
    chars_of, string_of, to_lowercase, lowercase, trim, trim_chars, is_prefix, starts_with, words,
    split_words, seqs_of, trim_start_char, trim_start_char_chars, is_suffix, ends_with, join, join_from,
    string_from_chars, chars_eq,
};

verus! {

broadcast use vstd::string::group_string_axioms;

/// Command completion suggestion.
#[derive(Debug)]
pub struct CommandSuggestion {
    pub command: String,
    pub description: String,
    pub usage: Option<String>,
}

/// Subcommand option (e.g., "photo" or "doc" for :attach).
#[derive(Debug)]
pub struct SubcommandOption {
    pub name: String,
    pub description: String,
}

/// File system entry for path completion.
#[derive(Debug)]
pub struct PathEntry {
    pub name: String,
    pub full_path: String,
    pub is_dir: bool,
}

/// Completion state machine.
#[derive(Debug)]
pub enum CompletionState {
    /// No completion active.
    Inactive,
    /// Completing command names.
    Commands { suggestions: Vec<CommandSuggestion>, selected: usize },
    /// Completing subcommands.
    Subcommands { command: String, options: Vec<SubcommandOption>, selected: usize },
    /// Completing file paths.
    FilePaths { context: String, base_path: String, entries: Vec<PathEntry>, selected: usize },
}

/// The command table: name, description and usage of each command.
pub open spec fn command_table() -> Seq<(Seq<char>, Seq<char>, Seq<char>)> {
    seq![
        ("quit"@, "Quit application"@, ":q, :quit, :qa, :quitall"@),
        ("back"@, "Return to chat list"@, ":b, :back"@),
        ("search"@, "Search conversations"@, ":search <query>, :s <query>"@),
        ("msg"@, "Quick send message"@, ":msg <text>, :m <text>"@),
        ("attach photo"@, "Attach photo from file"@, ":attach photo <path>, :ap <path>"@),
        ("attach doc"@, "Attach document"@, ":attach doc <path>, :ad <path>"@),
        ("download"@, "Download attachments from selected message"@, ":download, :dl"@),
        ("help"@, "Show help popup"@, ":help, :h"@),
        ("reply"@, "Reply to selected message"@, ":reply, :r"@),
        ("forward"@, "Forward selected message"@, ":forward, :f, :fwd"@),
        ("pin"@, "Pin/unpin selected message"@, ":pin, :p"@),
    ]
}

/// A command matches typed text when its lowercased name, or any word of
/// it, starts with the lowercased text.
pub open spec fn command_matches(command: Seq<char>, input: Seq<char>) -> bool {
    let c = lowercase(command);
    let i = lowercase(input);
    is_prefix(i, c) || exists|k: int| 0 <= k < words(c).len() && is_prefix(i, #[trigger] words(c)[k])
}

/// The table rows that match, in table order.
pub open spec fn matching_commands(rows: Seq<(Seq<char>, Seq<char>, Seq<char>)>, input: Seq<char>) -> Seq<(Seq<char>, Seq<char>, Seq<char>)>
    decreases rows.len(),
{
    if rows.len() == 0 {
        seq![]
    } else {
        let prev = matching_commands(rows.drop_last(), input);
        if command_matches(rows.last().0, input) { prev.push(rows.last()) } else { prev }
    }
}

/// The commands offered for typed text: all of them for blank text.
pub open spec fn suggestions_for(input: Seq<char>) -> Seq<(Seq<char>, Seq<char>, Seq<char>)> {
    if trim(input).len() == 0 { command_table() } else { matching_commands(command_table(), input) }
}

/// A suggestion's name, description and usage.
pub open spec fn suggestion_row(s: CommandSuggestion) -> (Seq<char>, Seq<char>, Seq<char>) {
    (s.command@, s.description@, match s.usage { Some(u) => u@, None => seq![] })
}

/// The suggestions list `v` shows exactly the rows `rows`, each with a usage.
pub open spec fn shows_rows(v: Seq<CommandSuggestion>, rows: Seq<(Seq<char>, Seq<char>, Seq<char>)>) -> bool {
    &&& v.len() == rows.len()
    &&& forall|i: int| 0 <= i < v.len() ==> suggestion_row(#[trigger] v[i]) == rows[i] && v[i].usage is Some
}

fn suggestion(command: &str, description: &str, usage: &str) -> (r: CommandSuggestion)
    ensures
        r.command@ == command@,
        r.description@ == description@,
        r.usage matches Some(u) && u@ == usage@,
{
    CommandSuggestion { command: string_of(command), description: string_of(description), usage: Some(string_of(usage)) }
}

fn all_commands() -> (r: Vec<CommandSuggestion>)
    ensures
        shows_rows(r@, command_table()),
{
    let mut v: Vec<CommandSuggestion> = Vec::new();
    v.push(suggestion("quit", "Quit application", ":q, :quit, :qa, :quitall"));
    v.push(suggestion("back", "Return to chat list", ":b, :back"));
    v.push(suggestion("search", "Search conversations", ":search <query>, :s <query>"));
    v.push(suggestion("msg", "Quick send message", ":msg <text>, :m <text>"));
    v.push(suggestion("attach photo", "Attach photo from file", ":attach photo <path>, :ap <path>"));
    v.push(suggestion("attach doc", "Attach document", ":attach doc <path>, :ad <path>"));
    v.push(suggestion("download", "Download attachments from selected message", ":download, :dl"));
    v.push(suggestion("help", "Show help popup", ":help, :h"));
    v.push(suggestion("reply", "Reply to selected message", ":reply, :r"));
    v.push(suggestion("forward", "Forward selected message", ":forward, :f, :fwd"));
    v.push(suggestion("pin", "Pin/unpin selected message", ":pin, :p"));
    v
}

/// Whether `command` matches the lowercased input `il`.
fn command_matches_exec(command: &String, il: &Vec<char>, Ghost(input): Ghost<Seq<char>>) -> (r: bool)
    requires
        il@ == lowercase(input),
    ensures
        r == command_matches(command@, input),
{
    let cl_s = to_lowercase(command.as_str());
    let cl = chars_of(cl_s.as_str());
    if starts_with(cl.as_slice(), il.as_slice()) {
        return true;
    }
    let ws = split_words(cl.as_slice());
    let n = ws.len();
    let mut k: usize = 0;
    while k < n
        invariant
            n == ws@.len(),
            k <= n,
            seqs_of(ws@) == words(cl@),
            cl@ == lowercase(command@),
            il@ == lowercase(input),
            forall|j: int| 0 <= j < k ==> !is_prefix(il@, #[trigger] words(cl@)[j]),
        decreases n - k,
    {
        assert(ws@[k as int]@ == words(cl@)[k as int]);
        if starts_with(ws[k].as_slice(), il.as_slice()) {
            assert(0 <= k < words(lowercase(command@)).len() && is_prefix(lowercase(input), words(lowercase(command@))[k as int]));
            return true;
        }
        k = k + 1;
    }
    false
}

/// Command suggestions for what has been typed: every command for blank
/// input, else those whose name or a word of it starts with the input
/// (case-insensitively).
pub fn generate_suggestions(input: &str) -> (r: Vec<CommandSuggestion>)
    ensures
        shows_rows(r@, suggestions_for(input@)),
{
    let all = all_commands();
    if trim_chars(chars_of(input).as_slice()).len() == 0 {
        return all;
    }
    let il_s = to_lowercase(input);
    let il = chars_of(il_s.as_str());
    let mut out: Vec<CommandSuggestion> = Vec::new();
    let mut all = all;
    let n = all.len();
    let ghost table = command_table();
    let mut i: usize = 0;
    assert(table.take(0) == Seq::<(Seq<char>, Seq<char>, Seq<char>)>::empty());
    while i < n
        invariant
            n == table.len(),
            all@.len() == n - i,
            i <= n,
            forall|k: int| 0 <= k < all@.len() ==> suggestion_row(#[trigger] all@[k]) == table[i + k] && all@[k].usage is Some,
            il@ == lowercase(input@),
            shows_rows(out@, matching_commands(table.take(i as int), input@)),
        decreases n - i,
    {
        let s = all.remove(0);
        assert(suggestion_row(s) == table[i as int]);
        proof {
            assert(table.take(i + 1).drop_last() == table.take(i as int));
            assert(table.take(i + 1).last() == table[i as int]);
        }
        if command_matches_exec(&s.command, &il, Ghost(input@)) {
            out.push(s);
        }
        i = i + 1;
    }
    assert(table.take(n as int) == table);
    out
}

/// Subcommands of a command: `attach` has `photo` and `doc`.
pub open spec fn subcommand_table(command: Seq<char>) -> Seq<(Seq<char>, Seq<char>)> {
    if command == "attach"@ {
        seq![("photo"@, "Attach photo from file"@), ("doc"@, "Attach document"@)]
    } else {
        seq![]
    }
}

/// Subcommand rows whose lowercased name starts with the lowercased input.
pub open spec fn matching_subcommands(rows: Seq<(Seq<char>, Seq<char>)>, input: Seq<char>) -> Seq<(Seq<char>, Seq<char>)>
    decreases rows.len(),
{
    if rows.len() == 0 {
        seq![]
    } else {
        let prev = matching_subcommands(rows.drop_last(), input);
        if is_prefix(lowercase(input), lowercase(rows.last().0)) { prev.push(rows.last()) } else { prev }
    }
}

/// `v` lists exactly the subcommand rows `rows`.
pub open spec fn shows_options(v: Seq<SubcommandOption>, rows: Seq<(Seq<char>, Seq<char>)>) -> bool {
    &&& v.len() == rows.len()
    &&& forall|i: int| 0 <= i < v.len() ==> (#[trigger] v[i]).name@ == rows[i].0 && v[i].description@ == rows[i].1
}

/// The completion state for subcommands of `command` matching `input`.
pub open spec fn subcommand_state(command: Seq<char>, input: Seq<char>, st: CompletionState) -> bool {
    let rows = matching_subcommands(subcommand_table(command), input);
    if rows.len() > 0 {
        st matches CompletionState::Subcommands { command: c, options, selected } && c@ == command && selected == 0 && shows_options(options@, rows)
    } else {
        st is Inactive
    }
}

/// Offers the subcommands of `command` that start with `input`.
pub fn generate_subcommand_completions(command: &str, input: &str) -> (r: CompletionState)
    ensures
        subcommand_state(command@, input@, r),
{
    let is_attach = chars_eq(chars_of(command).as_slice(), chars_of("attach").as_slice());
    let il_s = to_lowercase(input);
    let il = chars_of(il_s.as_str());
    let mut options: Vec<SubcommandOption> = Vec::new();
    let ghost rows = subcommand_table(command@);
    let ghost matched = matching_subcommands(rows, input@);
    if is_attach {
        let ghost r1 = seq![("photo"@, "Attach photo from file"@)];
        assert(rows.drop_last() == r1);
        assert(r1.drop_last() == Seq::<(Seq<char>, Seq<char>)>::empty());
        let photo = to_lowercase("photo");
        let photo_ok = starts_with(chars_of(photo.as_str()).as_slice(), il.as_slice());
        if photo_ok {
            options.push(SubcommandOption { name: string_of("photo"), description: string_of("Attach photo from file") });
        }
        let ghost m1 = matching_subcommands(r1, input@);
        assert(r1.last() == ("photo"@, "Attach photo from file"@));
        assert(matching_subcommands(r1.drop_last(), input@) == Seq::<(Seq<char>, Seq<char>)>::empty());
        assert(photo_ok == is_prefix(lowercase(input@), lowercase("photo"@)));
        assert(m1 == if photo_ok { seq![("photo"@, "Attach photo from file"@)] } else { Seq::<(Seq<char>, Seq<char>)>::empty() });
        assert(shows_options(options@, m1));
        let doc = to_lowercase("doc");
        let doc_ok = starts_with(chars_of(doc.as_str()).as_slice(), il.as_slice());
        if doc_ok {
            options.push(SubcommandOption { name: string_of("doc"), description: string_of("Attach document") });
        }
        assert(rows.last() == ("doc"@, "Attach document"@));
        assert(doc_ok == is_prefix(lowercase(input@), lowercase("doc"@)));
        assert(matched == if doc_ok { m1.push(("doc"@, "Attach document"@)) } else { m1 });
        assert(shows_options(options@, matched));
    } else {
        assert(rows.len() == 0);
        assert(matched.len() == 0);
    }
    if options.len() > 0 {
        CompletionState::Subcommands { command: string_of(command), options, selected: 0 }
    } else {
        CompletionState::Inactive
    }
}

/// What completion needs next: a finished state, or a directory listing for
/// a path argument (which the caller reads from the file system).
#[derive(Debug)]
pub enum CompletionStep {
    /// The completion state to show.
    Ready(CompletionState),
    /// File path completion for `path`, relative to `base`.
    ListPaths { path: String, base: String },
}

/// The command-name completion for the word `cmd` typed so far: hidden when
/// exactly one command is offered and it is what was typed.
pub open spec fn command_state(cmd: Seq<char>, st: CompletionState) -> bool {
    let rows = suggestions_for(cmd);
    if rows.len() == 1 && lowercase(rows[0].0) == lowercase(trim(cmd)) {
        st is Inactive
    } else if rows.len() > 0 {
        st matches CompletionState::Commands { suggestions, selected } && selected == 0 && shows_rows(suggestions@, rows)
    } else {
        st is Inactive
    }
}

/// `attach` followed by `photo` or `doc`.
pub open spec fn is_attach_kind(w: Seq<char>) -> bool {
    w == "photo"@ || w == "doc"@
}

/// The path argument to list for a command line, when it is
/// `attach photo|doc` followed by a space or by a (partial) path.
pub open spec fn paths_request(input: Seq<char>) -> Option<Seq<char>> {
    let parts = words(trim_start_char(input, ':'));
    let ends_sp = is_suffix(" "@, input);
    if parts.len() == 2 && parts[0] == "attach"@ && ends_sp && is_attach_kind(parts[1]) {
        Some(seq![])
    } else if parts.len() >= 3 && parts[0] == "attach"@ && is_attach_kind(parts[1]) {
        Some(crate::text::join(parts.skip(2), " "@))
    } else {
        None
    }
}

/// The completion state for a command line that needs no listing: command
/// names while the first word is being typed, subcommands after `attach`,
/// nothing otherwise.
pub open spec fn ready_state_ok(input: Seq<char>, st: CompletionState) -> bool {
    let parts = words(trim_start_char(input, ':'));
    let ends_sp = is_suffix(" "@, input);
    if parts.len() == 0 || (parts.len() == 1 && !ends_sp) {
        command_state(if parts.len() == 0 { seq![] } else { parts[0] }, st)
    } else if parts.len() == 1 && parts[0] == "attach"@ {
        subcommand_state("attach"@, seq![], st)
    } else if parts.len() == 2 && parts[0] == "attach"@ && !ends_sp {
        subcommand_state("attach"@, parts[1], st)
    } else {
        st is Inactive
    }
}

/// The completion step for a command line.
pub open spec fn completion_step_ok(input: Seq<char>, step: CompletionStep) -> bool {
    match paths_request(input) {
        Some(p) => step matches CompletionStep::ListPaths { path, base } && path@ == p && base@ == "."@,
        None => step matches CompletionStep::Ready(st) && ready_state_ok(input, st),
    }
}

/// Completion for the command word typed so far.
fn complete_command(cmd: &str) -> (r: CompletionState)
    ensures
        command_state(cmd@, r),
{
    let suggestions = generate_suggestions(cmd);
    let typed = string_from_chars(trim_chars(chars_of(cmd).as_slice()).as_slice());
    let typed_lower = to_lowercase(typed.as_str());
    if suggestions.len() == 1 {
        let first_lower = to_lowercase(suggestions[0].command.as_str());
        if chars_eq(chars_of(first_lower.as_str()).as_slice(), chars_of(typed_lower.as_str()).as_slice()) {
            return CompletionState::Inactive;
        }
    }
    if suggestions.len() > 0 {
        CompletionState::Commands { suggestions, selected: 0 }
    } else {
        CompletionState::Inactive
    }
}

/// The completion to show for a command line (the FSM transition on input).
pub fn determine_completion_state(input: &str) -> (r: CompletionStep)
    ensures
        completion_step_ok(input@, r),
{
    let trimmed = trim_start_char_chars(chars_of(input).as_slice(), ':');
    let parts = split_words(trimmed.as_slice());
    let ends_sp = ends_with(chars_of(input).as_slice(), chars_of(" ").as_slice());
    let n = parts.len();
    proof {
        assert(seqs_of(parts@).len() == n);
        assert forall|k: int| 0 <= k < n implies parts@[k]@ == words(trim_start_char(input@, ':'))[k] by {}
    }
    if n == 0 || (n == 1 && !ends_sp) {
        let cmd = if n == 0 { String::new() } else { string_from_chars(parts[0].as_slice()) };
        return CompletionStep::Ready(complete_command(cmd.as_str()));
    }
    let attach = chars_of("attach");
    let is_attach = chars_eq(parts[0].as_slice(), attach.as_slice());
    if n == 1 && is_attach {
        proof {
            reveal_strlit("");
            assert(""@ =~= Seq::<char>::empty());
        }
        return CompletionStep::Ready(generate_subcommand_completions("attach", ""));
    }
    if n == 2 && is_attach && !ends_sp {
        let sub = string_from_chars(parts[1].as_slice());
        return CompletionStep::Ready(generate_subcommand_completions("attach", sub.as_str()));
    }
    let kind_ok = n >= 2 && (chars_eq(parts[1].as_slice(), chars_of("photo").as_slice())
        || chars_eq(parts[1].as_slice(), chars_of("doc").as_slice()));
    if n == 2 && is_attach && kind_ok {
        proof {
            reveal_strlit(" ");
        }
        return CompletionStep::ListPaths { path: String::new(), base: string_of(".") };
    }
    if n >= 3 && is_attach && kind_ok {
        let joined = join_from(&parts, 2, chars_of(" ").as_slice());
        return CompletionStep::ListPaths { path: string_from_chars(joined.as_slice()), base: string_of(".") };
    }
    CompletionStep::Ready(CompletionState::Inactive)
}

/// The selection of an active completion points into its list.
pub open spec fn completion_ok(st: CompletionState) -> bool {
    match st {
        CompletionState::Inactive => true,
        CompletionState::Commands { suggestions, selected } => selected < suggestions@.len(),
        CompletionState::Subcommands { options, selected, .. } => selected < options@.len(),
        CompletionState::FilePaths { entries, selected, .. } => selected < entries@.len(),
    }
}

/// States produced for a command line keep their selection in range.
pub proof fn lemma_ready_state_ok(input: Seq<char>, st: CompletionState)
    requires
        ready_state_ok(input, st),
    ensures
        completion_ok(st),
{
}

/// `a` comes strictly before `b` in lexicographic character order.
pub open spec fn seq_less(a: Seq<char>, b: Seq<char>) -> bool
    decreases a.len(),
{
    if a.len() == 0 {
        b.len() > 0
    } else if b.len() == 0 {
        false
    } else if a[0] != b[0] {
        a[0] < b[0]
    } else {
        seq_less(a.drop_first(), b.drop_first())
    }
}

/// Whether `a` comes strictly before `b` in lexicographic character order
/// (the order of `str` comparison, UTF-8 preserving code point order).
pub fn chars_less(a: &[char], b: &[char]) -> (r: bool)
    ensures
        r == seq_less(a@, b@),
{
    let mut i: usize = 0;
    let na = a.len();
    let nb = b.len();
    assert(a@.skip(0) == a@);
    assert(b@.skip(0) == b@);
    while i < na && i < nb
        invariant
            na == a@.len(),
            nb == b@.len(),
            i <= na,
            i <= nb,
            seq_less(a@, b@) == seq_less(a@.skip(i as int), b@.skip(i as int)),
        decreases na - i,
    {
        assert(a@.skip(i as int).drop_first() == a@.skip(i + 1));
        assert(b@.skip(i as int).drop_first() == b@.skip(i + 1));
        if a[i] != b[i] {
            return a[i] < b[i];
        }
        i = i + 1;
    }
    i < nb
}

/// Directories come first, then entries by lowercased name.
pub open spec fn entry_before(a: PathEntry, b: PathEntry) -> bool {
    (a.is_dir && !b.is_dir) || (a.is_dir == b.is_dir && seq_less(lowercase(a.name@), lowercase(b.name@)))
}

/// `e` placed into the sorted `s` after every entry it does not precede.
pub open spec fn insert_sorted(s: Seq<PathEntry>, e: PathEntry) -> Seq<PathEntry>
    decreases s.len(),
{
    if s.len() > 0 && entry_before(e, s.last()) {
        insert_sorted(s.drop_last(), e).push(s.last())
    } else {
        s.push(e)
    }
}

/// The stable sort of `s`: directories first, then by lowercased name,
/// entries that tie keeping their order.
pub open spec fn sorted_entries(s: Seq<PathEntry>) -> Seq<PathEntry>
    decreases s.len(),
{
    if s.len() == 0 {
        seq![]
    } else {
        insert_sorted(sorted_entries(s.drop_last()), s.last())
    }
}

/// An entry is offered for a typed file name prefix: hidden entries only
/// when the prefix is hidden too, and only names starting with the prefix
/// (case-insensitively).
pub open spec fn entry_offered(e: PathEntry, prefix: Seq<char>) -> bool {
    &&& !(is_prefix("."@, e.name@) && !is_prefix("."@, prefix))
    &&& (prefix.len() == 0 || is_prefix(lowercase(prefix), lowercase(e.name@)))
}

/// The offered entries, in listing order.
pub open spec fn offered_entries(s: Seq<PathEntry>, prefix: Seq<char>) -> Seq<PathEntry>
    decreases s.len(),
{
    if s.len() == 0 {
        seq![]
    } else {
        let prev = offered_entries(s.drop_last(), prefix);
        if entry_offered(s.last(), prefix) { prev.push(s.last()) } else { prev }
    }
}

/// The path completion shown for a directory listing.
pub open spec fn filepath_state(base_path: Seq<char>, prefix: Seq<char>, listing: Seq<PathEntry>, st: CompletionState) -> bool {
    let shown = sorted_entries(offered_entries(listing, prefix));
    if shown.len() > 0 {
        st matches CompletionState::FilePaths { context, base_path: b, entries, selected } && context@ == "attach"@
            && b@ == base_path && entries@ == shown && selected == 0
    } else {
        st is Inactive
    }
}

fn entry_before_exec(a: &PathEntry, b: &PathEntry) -> (r: bool)
    ensures
        r == entry_before(*a, *b),
{
    if a.is_dir != b.is_dir {
        return a.is_dir;
    }
    let la = to_lowercase(a.name.as_str());
    let lb = to_lowercase(b.name.as_str());
    chars_less(chars_of(la.as_str()).as_slice(), chars_of(lb.as_str()).as_slice())
}

proof fn lemma_insert_sorted_len(s: Seq<PathEntry>, e: PathEntry)
    ensures
        insert_sorted(s, e).len() == s.len() + 1,
    decreases s.len(),
{
    if s.len() > 0 && entry_before(e, s.last()) {
        lemma_insert_sorted_len(s.drop_last(), e);
    }
}

proof fn lemma_insert_sorted_split(s: Seq<PathEntry>, e: PathEntry, k: int)
    requires
        0 <= k <= s.len(),
        forall|j: int| k <= j < s.len() ==> entry_before(e, #[trigger] s[j]),
        k == 0 || !entry_before(e, s[k - 1]),
    ensures
        insert_sorted(s, e) == s.take(k).push(e) + s.skip(k),
    decreases s.len(),
{
    if s.len() > k {
        assert(entry_before(e, s.last()));
        lemma_insert_sorted_split(s.drop_last(), e, k);
        assert(s.drop_last().take(k) == s.take(k));
        assert(s.drop_last().skip(k).push(s.last()) == s.skip(k));
        assert((s.take(k).push(e) + s.drop_last().skip(k)).push(s.last()) == s.take(k).push(e) + s.skip(k));
    } else {
        assert(s.take(k) == s);
        assert(s.skip(k) == Seq::<PathEntry>::empty());
    }
}

/// Inserts `e` into the sorted list `v`.
fn insert_entry(v: &mut Vec<PathEntry>, e: PathEntry)
    ensures
        final(v)@ == insert_sorted(old(v)@, e),
{
    let mut k = v.len();
    while k > 0 && entry_before_exec(&e, &v[k - 1])
        invariant
            k <= v@.len(),
            v@ == old(v)@,
            forall|j: int| k <= j < v@.len() ==> entry_before(e, #[trigger] v@[j]),
        decreases k,
    {
        k = k - 1;
    }
    proof {
        lemma_insert_sorted_split(v@, e, k as int);
    }
    v.insert(k, e);
    assert(v@ == old(v)@.take(k as int).push(e) + old(v)@.skip(k as int));
}

/// The path completion for a directory listing: the offered entries sorted
/// directories first and then by name.
pub fn filepath_completion(base_path: String, prefix: &str, listing: Vec<PathEntry>) -> (r: CompletionState)
    ensures
        filepath_state(base_path@, prefix@, listing@, r),
{
    let p = chars_of(prefix);
    let dot = chars_of(".");
    let prefix_hidden = starts_with(p.as_slice(), dot.as_slice());
    let pl_s = to_lowercase(prefix);
    let pl = chars_of(pl_s.as_str());
    let mut listing = listing;
    let ghost all = listing@;
    let n = listing.len();
    let mut sorted: Vec<PathEntry> = Vec::new();
    let mut i: usize = 0;
    assert(all.take(0) == Seq::<PathEntry>::empty());
    while i < n
        invariant
            n == all.len(),
            i <= n,
            listing@ == all.skip(i as int),
            p@ == prefix@,
            dot@ == "."@,
            prefix_hidden == is_prefix("."@, prefix@),
            pl@ == lowercase(prefix@),
            sorted@ == sorted_entries(offered_entries(all.take(i as int), prefix@)),
        decreases n - i,
    {
        let e = listing.remove(0);
        assert(all.skip(i as int).drop_first() == all.skip(i + 1));
        assert(all.take(i + 1).drop_last() == all.take(i as int));
        assert(all.take(i + 1).last() == e);
        let hidden = starts_with(chars_of(e.name.as_str()).as_slice(), dot.as_slice());
        let name_lower = to_lowercase(e.name.as_str());
        let offered = !(hidden && !prefix_hidden)
            && (p.len() == 0 || starts_with(chars_of(name_lower.as_str()).as_slice(), pl.as_slice()));
        let ghost prev = offered_entries(all.take(i as int), prefix@);
        assert(offered == entry_offered(e, prefix@));
        if offered {
            assert(offered_entries(all.take(i + 1), prefix@) == prev.push(e));
            assert(prev.push(e).drop_last() == prev);
            insert_entry(&mut sorted, e);
        }
        i = i + 1;
    }
    assert(all.take(n as int) == all);
    if sorted.len() > 0 {
        CompletionState::FilePaths { context: string_of("attach"), base_path, entries: sorted, selected: 0 }
    } else {
        CompletionState::Inactive
    }
}


/// The table rows a typed text selects, as a predicate on rows.
pub open spec fn row_matches(input: Seq<char>) -> spec_fn((Seq<char>, Seq<char>, Seq<char>)) -> bool {
    |row: (Seq<char>, Seq<char>, Seq<char>)| command_matches(row.0, input)
}

proof fn lemma_matching_is_filter(rows: Seq<(Seq<char>, Seq<char>, Seq<char>)>, input: Seq<char>)
    ensures
        matching_commands(rows, input) == rows.filter(row_matches(input)),
    decreases rows.len(),
{
    reveal(Seq::filter);
    if rows.len() > 0 {
        lemma_matching_is_filter(rows.drop_last(), input);
    }
}

/// Blank input offers every command; any other input offers the commands
/// blank input offers, in the same order, kept where the command or one of
/// its words starts with the input (both lowercased).
pub proof fn lemma_suggestions_filter(input: Seq<char>)
    ensures
        suggestions_for(seq![]) == command_table(),
        trim(input).len() > 0 ==> suggestions_for(input) == suggestions_for(seq![]).filter(row_matches(input)),
{
    assert(trim(Seq::<char>::empty()).len() == 0);
    lemma_matching_is_filter(command_table(), input);
}

/// A leading `:` does not change what completion a command line gets.
pub proof fn lemma_colon_ignored(s: Seq<char>, step: CompletionStep)
    ensures
        completion_step_ok(seq![':'] + s, step) == completion_step_ok(s, step),
{
    let t = seq![':'] + s;
    assert(t.drop_first() =~= s);
    assert(trim_start_char(t, ':') == trim_start_char(s, ':'));
    assert(is_suffix(" "@, t) == is_suffix(" "@, s)) by {
        reveal_strlit(" ");
        let sp = " "@;
        assert(sp.len() == 1 && sp[0] == ' ');
        if s.len() > 0 {
            assert(t.skip(t.len() - 1) =~= s.skip(s.len() - 1));
        } else {
            assert(t.skip(0) =~= seq![':']);
            assert(t.skip(0)[0] != sp[0]);
            assert(!is_suffix(sp, t));
            assert(!is_suffix(sp, s));
        }
    }
}


proof fn lemma_insert_sorted_contains(s: Seq<PathEntry>, e: PathEntry, x: PathEntry)
    ensures
        insert_sorted(s, e).contains(x) <==> (s.contains(x) || x == e),
    decreases s.len(),
{
    if s.len() > 0 && entry_before(e, s.last()) {
        let t = insert_sorted(s.drop_last(), e);
        lemma_insert_sorted_contains(s.drop_last(), e, x);
        let u = t.push(s.last());
        if u.contains(x) {
            let i = choose|i: int| 0 <= i < u.len() && u[i] == x;
            if i < t.len() {
                assert(t[i] == x);
                assert(t.contains(x));
                if s.drop_last().contains(x) {
                    let j = choose|j: int| 0 <= j < s.drop_last().len() && s.drop_last()[j] == x;
                    assert(s[j] == x);
                }
            } else {
                assert(s[s.len() - 1] == x);
            }
        }
        if s.contains(x) {
            let j = choose|j: int| 0 <= j < s.len() && s[j] == x;
            if j < s.len() - 1 {
                assert(s.drop_last()[j] == x);
                assert(s.drop_last().contains(x));
                let i = choose|i: int| 0 <= i < t.len() && t[i] == x;
                assert(u[i] == x);
            } else {
                assert(u[u.len() - 1] == x);
            }
        }
        if x == e {
            assert(t.contains(x));
            let i = choose|i: int| 0 <= i < t.len() && t[i] == x;
            assert(u[i] == x);
        }
    } else {
        let u = s.push(e);
        if u.contains(x) {
            let i = choose|i: int| 0 <= i < u.len() && u[i] == x;
            if i < s.len() {
                assert(s[i] == x);
            }
        }
        if s.contains(x) {
            let j = choose|j: int| 0 <= j < s.len() && s[j] == x;
            assert(u[j] == x);
        }
        assert(u[s.len() as int] == e);
    }
}

proof fn lemma_sorted_contains(s: Seq<PathEntry>, x: PathEntry)
    ensures
        sorted_entries(s).contains(x) <==> s.contains(x),
    decreases s.len(),
{
    if s.len() > 0 {
        lemma_sorted_contains(s.drop_last(), x);
        lemma_insert_sorted_contains(sorted_entries(s.drop_last()), s.last(), x);
        if s.contains(x) && x != s.last() {
            let j = choose|j: int| 0 <= j < s.len() && s[j] == x;
            assert(j < s.len() - 1);
            assert(s.drop_last()[j] == x);
        }
        if s.drop_last().contains(x) {
            let j = choose|j: int| 0 <= j < s.drop_last().len() && s.drop_last()[j] == x;
            assert(s[j] == x);
        }
        assert(s[s.len() - 1] == s.last());
    }
}

proof fn lemma_offered_contains(s: Seq<PathEntry>, prefix: Seq<char>, x: PathEntry)
    ensures
        offered_entries(s, prefix).contains(x) <==> (s.contains(x) && entry_offered(x, prefix)),
    decreases s.len(),
{
    if s.len() > 0 {
        let prev = offered_entries(s.drop_last(), prefix);
        lemma_offered_contains(s.drop_last(), prefix, x);
        let o = offered_entries(s, prefix);
        if o.contains(x) {
            let i = choose|i: int| 0 <= i < o.len() && o[i] == x;
            if i < prev.len() {
                assert(prev[i] == x);
                assert(prev.contains(x));
                let j = choose|j: int| 0 <= j < s.drop_last().len() && s.drop_last()[j] == x;
                assert(s[j] == x);
            } else {
                assert(s[s.len() - 1] == x);
            }
        }
        if s.contains(x) && entry_offered(x, prefix) {
            let j = choose|j: int| 0 <= j < s.len() && s[j] == x;
            if j < s.len() - 1 {
                assert(s.drop_last()[j] == x);
                assert(prev.contains(x));
                let i = choose|i: int| 0 <= i < prev.len() && prev[i] == x;
                assert(o[i] == x);
            } else {
                assert(o[o.len() - 1] == x);
            }
        }
    }
}

/// Which listed entries the path completion offers: an entry whose name is
/// not hidden (or is hidden while the typed prefix is too) is offered
/// exactly when the prefix is empty or the entry's lowercased name starts
/// with the lowercased prefix; a hidden entry is never offered for a prefix
/// that is not hidden.
pub proof fn lemma_path_offered(base_path: Seq<char>, prefix: Seq<char>, listing: Seq<PathEntry>, st: CompletionState, e: PathEntry)
    requires
        filepath_state(base_path, prefix, listing, st),
        listing.contains(e),
    ensures
        (!is_prefix("."@, e.name@) || is_prefix("."@, prefix)) ==> (
            (st matches CompletionState::FilePaths { entries, .. } && entries@.contains(e))
                <==> (prefix.len() == 0 || is_prefix(lowercase(prefix), lowercase(e.name@)))),
        (is_prefix("."@, e.name@) && !is_prefix("."@, prefix)) ==> !(st matches CompletionState::FilePaths { entries, .. } && entries@.contains(e)),
{
    let offered = offered_entries(listing, prefix);
    lemma_offered_contains(listing, prefix, e);
    lemma_sorted_contains(offered, e);
    if sorted_entries(offered).len() == 0 && sorted_entries(offered).contains(e) {
        let i = choose|i: int| 0 <= i < sorted_entries(offered).len() && sorted_entries(offered)[i] == e;
    }
}

/// Entries whose names agree once lowercased (and are both hidden or both
/// not) are offered alike: changing the case of a name never changes
/// whether it is offered.
pub proof fn lemma_path_case_blind(base_path: Seq<char>, prefix: Seq<char>, listing: Seq<PathEntry>, st: CompletionState, e1: PathEntry, e2: PathEntry)
    requires
        filepath_state(base_path, prefix, listing, st),
        listing.contains(e1),
        listing.contains(e2),
        lowercase(e1.name@) == lowercase(e2.name@),
        is_prefix("."@, e1.name@) == is_prefix("."@, e2.name@),
    ensures
        (st matches CompletionState::FilePaths { entries, .. } && entries@.contains(e1))
            <==> (st matches CompletionState::FilePaths { entries, .. } && entries@.contains(e2)),
{
    lemma_path_offered(base_path, prefix, listing, st, e1);
    lemma_path_offered(base_path, prefix, listing, st, e2);
}

} // verus!
