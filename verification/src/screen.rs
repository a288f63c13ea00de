//! What the terminal client shows: the text of each line of the chat list,
//! the messages panel, the status bar and the popups, with the colour role
//! of each piece. Drawing it is left to the terminal front end.

use vstd::prelude::*;
use crate::text::{chars_of, string_of, push_str, push_char, push_i64, push_u64_digits, decimal, contains, contains_seq};
use crate::models::{AttachmentInfo, AttachmentKind, Chat, ChatMessage, DeliveryStatus, ReplyPreview, SearchResult};
use crate::format::{truncate_str, truncated, truncate_text, truncated_text, two_digits};
use crate::app_state::{App, Focus, Mode};

verus! {

broadcast use vstd::string::group_string_axioms;

/// The colour role of a piece of text.
#[derive(Debug, Clone, Copy, PartialEq, Eq, Structural)]
pub enum Tone {
    Plain,
    White,
    Gray,
    DarkGray,
    Cyan,
    Green,
    Yellow,
    Red,
    Blue,
}

/// What a piece shows: text, or a file size to be written in kilobytes
/// with one decimal, as ` (N.N KB)`.
#[derive(Debug)]
pub enum Content {
    Text(String),
    SizeKb(u64),
}

/// A piece of a line.
#[derive(Debug)]
pub struct Piece {
    pub content: Content,
    pub tone: Tone,
    pub bold: bool,
}

/// `p` shows `text` in `tone`, not bold.
pub open spec fn shows(p: Piece, text: Seq<char>, tone: Tone) -> bool {
    p.content matches Content::Text(s) && s@ == text && p.tone == tone && !p.bold
}

fn piece(text: String, tone: Tone) -> (p: Piece)
    ensures
        shows(p, text@, tone),
{
    Piece { content: Content::Text(text), tone, bold: false }
}

fn lit(text: &str, tone: Tone) -> (p: Piece)
    ensures
        shows(p, text@, tone),
{
    Piece { content: Content::Text(string_of(text)), tone, bold: false }
}

/// The delivery mark after a message: pending, failed, and for one's own
/// sent messages one or two ticks (read); nothing for incoming ones.
pub open spec fn delivery_mark(m: ChatMessage) -> Seq<char> {
    match m.delivery {
        DeliveryStatus::Pending => "..."@,
        DeliveryStatus::Failed => "!"@,
        DeliveryStatus::Sent => if m.is_outgoing {
            if m.is_read { "✓✓"@ } else { "✓"@ }
        } else {
            seq![]
        },
    }
}

fn delivery_mark_of(m: &ChatMessage) -> (r: &'static str)
    ensures
        r@ == delivery_mark(*m),
{
    match m.delivery {
        DeliveryStatus::Pending => "...",
        DeliveryStatus::Failed => "!",
        DeliveryStatus::Sent => if m.is_outgoing {
            if m.is_read { "✓✓" } else { "✓" }
        } else {
            proof {
                reveal_strlit("");
            }
            ""
        },
    }
}

/// The label of an attachment kind.
pub open spec fn kind_label(k: AttachmentKind) -> Seq<char> {
    match k {
        AttachmentKind::Photo => "[photo]"@,
        AttachmentKind::Doc => "[file]"@,
        AttachmentKind::Link => "[link]"@,
        AttachmentKind::Audio => "[audio]"@,
        AttachmentKind::Sticker => "[sticker]"@,
        AttachmentKind::Other(s) => "["@ + s@ + "]"@,
    }
}

/// An attachment's line: the kind's label and title, ` — subtitle`, then
/// the size and ` url` when known, all in gray.
pub open spec fn attachment_line(a: AttachmentInfo, line: Seq<Piece>) -> bool {
    let head = kind_label(a.kind) + " "@ + a.title@ + match a.subtitle { Some(s) => " — "@ + s@, None => seq![] };
    &&& line.len() == 3
    &&& shows(line[0], head, Tone::Gray)
    &&& line[1].tone == Tone::Gray && !line[1].bold
    &&& match a.size {
        Some(n) => line[1].content == Content::SizeKb(n),
        None => line[1].content matches Content::Text(s) && s@.len() == 0,
    }
    &&& shows(line[2], match a.url { Some(u) => " "@ + u@, None => seq![] }, Tone::Gray)
}

fn attachment_row(a: &AttachmentInfo) -> (line: Vec<Piece>)
    ensures
        attachment_line(*a, line@),
{
    let mut head = match &a.kind {
        AttachmentKind::Photo => string_of("[photo]"),
        AttachmentKind::Doc => string_of("[file]"),
        AttachmentKind::Link => string_of("[link]"),
        AttachmentKind::Audio => string_of("[audio]"),
        AttachmentKind::Sticker => string_of("[sticker]"),
        AttachmentKind::Other(k) => {
            let mut s = string_of("[");
            push_str(&mut s, k.as_str());
            push_str(&mut s, "]");
            s
        },
    };
    assert(head@ == kind_label(a.kind));
    push_str(&mut head, " ");
    push_str(&mut head, a.title.as_str());
    match &a.subtitle {
        Some(s) => {
            push_str(&mut head, " — ");
            push_str(&mut head, s.as_str());
        },
        None => {},
    }
    assert(head@ =~= kind_label(a.kind) + " "@ + a.title@ + match a.subtitle { Some(s) => " — "@ + s@, None => seq![] });
    let size = match a.size {
        Some(n) => Piece { content: Content::SizeKb(n), tone: Tone::Gray, bold: false },
        None => piece(String::new(), Tone::Gray),
    };
    let url = match &a.url {
        Some(u) => {
            let mut s = string_of(" ");
            push_str(&mut s, u.as_str());
            s
        },
        None => String::new(),
    };
    let mut line: Vec<Piece> = Vec::new();
    line.push(piece(head, Tone::Gray));
    line.push(size);
    line.push(piece(url, Tone::Gray));
    line
}

/// The reply preview line: an arrow, the replied-to sender and its text
/// cut to 60 characters, in gray.
pub open spec fn reply_line(p: ReplyPreview, l: Seq<Piece>) -> bool {
    &&& l.len() == 4
    &&& shows(l[0], "↩ "@, Tone::Gray) && shows(l[1], p.from@, Tone::Gray)
    &&& shows(l[2], ": "@, Tone::Plain) && shows(l[3], truncated(p.text@, 60), Tone::Gray)
}

/// A message's main line: time, pin mark, sender (green for one's own, cyan
/// otherwise), text, then the edited mark and the delivery mark when there
/// are any.
pub open spec fn main_line(m: ChatMessage, time: Seq<char>, l: Seq<Piece>) -> bool {
    let mark = delivery_mark(m);
    &&& l.len() == 6 + (if m.is_edited { 1int } else { 0int }) + (if mark.len() > 0 { 1int } else { 0int })
    &&& shows(l[0], time, Tone::DarkGray) && shows(l[1], " "@, Tone::Plain)
    &&& (if m.is_pinned { shows(l[2], "📌 "@, Tone::Yellow) } else { shows(l[2], seq![], Tone::Plain) })
    &&& shows(l[3], m.from_name@, if m.is_outgoing { Tone::Green } else { Tone::Cyan })
    &&& shows(l[4], ": "@, Tone::Plain) && shows(l[5], m.text@, Tone::Plain)
    &&& (m.is_edited ==> shows(l[6], " (e)"@, Tone::Yellow))
    &&& (mark.len() > 0 ==> shows(l[l.len() - 1], " "@ + mark, Tone::DarkGray))
}

/// The lines of a message in the messages panel, given its time label: the
/// reply preview (when replying), the main line, a forwarded-count line
/// (when it forwards any), one line per attachment.
pub open spec fn message_lines(m: ChatMessage, time: Seq<char>, lines: Seq<Vec<Piece>>) -> bool {
    let r = if m.reply is Some { 1int } else { 0int };
    let f = if m.fwd_count > 0 { 1int } else { 0int };
    &&& lines.len() == r + 1 + f + m.attachments@.len()
    &&& (m.reply matches Some(p) ==> reply_line(p, lines[0]@))
    &&& main_line(m, time, lines[r]@)
    &&& (m.fwd_count > 0 ==> lines[r + 1]@.len() == 1 && shows(lines[r + 1]@[0], "↪ forwarded "@ + decimal(m.fwd_count as int), Tone::Gray))
    &&& forall|k: int| 0 <= k < m.attachments@.len() ==> attachment_line(#[trigger] m.attachments@[k], lines[r + 1 + f + k]@)
}

fn reply_row(p: &ReplyPreview) -> (l: Vec<Piece>)
    ensures
        reply_line(*p, l@),
{
    let mut l: Vec<Piece> = Vec::new();
    l.push(lit("↩ ", Tone::Gray));
    l.push(piece(p.from.clone(), Tone::Gray));
    l.push(lit(": ", Tone::Plain));
    l.push(piece(truncate_str(p.text.as_str(), 60), Tone::Gray));
    l
}

fn main_row(m: &ChatMessage, time: String) -> (l: Vec<Piece>)
    ensures
        main_line(*m, time@, l@),
{
    let mut main: Vec<Piece> = Vec::new();
    main.push(piece(time, Tone::DarkGray));
    main.push(lit(" ", Tone::Plain));
    if m.is_pinned {
        main.push(lit("📌 ", Tone::Yellow));
    } else {
        main.push(piece(String::new(), Tone::Plain));
    }
    main.push(piece(m.from_name.clone(), if m.is_outgoing { Tone::Green } else { Tone::Cyan }));
    main.push(lit(": ", Tone::Plain));
    main.push(piece(m.text.clone(), Tone::Plain));
    if m.is_edited {
        main.push(lit(" (e)", Tone::Yellow));
    }
    let mark = delivery_mark_of(m);
    if chars_of(mark).len() > 0 {
        let mut s = string_of(" ");
        push_str(&mut s, mark);
        main.push(piece(s, Tone::DarkGray));
    }
    main
}

/// The lines showing a message, given its time label.
pub fn render_message(m: &ChatMessage, time: String) -> (lines: Vec<Vec<Piece>>)
    ensures
        message_lines(*m, time@, lines@),
{
    let mut lines: Vec<Vec<Piece>> = Vec::new();
    match &m.reply {
        Some(p) => {
            let row = reply_row(p);
            lines.push(row);
            assert(reply_line(*p, lines@[0]@));
        },
        None => {},
    }
    let ghost t = time@;
    let ghost r: int = lines@.len() as int;
    let row = main_row(m, time);
    lines.push(row);
    assert(main_line(*m, t, lines@[r]@));
    if m.fwd_count > 0 {
        let mut s = string_of("↪ forwarded ");
        push_u64_digits(&mut s, m.fwd_count as u64);
        let mut l: Vec<Piece> = Vec::new();
        l.push(piece(s, Tone::Gray));
        lines.push(l);
    }
    let ghost before = lines@.len();
    let ghost head = lines@;
    let n = m.attachments.len();
    let mut k: usize = 0;
    while k < n
        invariant
            n == m.attachments@.len(),
            k <= n,
            head.len() == before,
            lines@.len() == before + k,
            forall|j: int| 0 <= j < before ==> lines@[j] == head[j],
            forall|j: int| 0 <= j < k ==> attachment_line(#[trigger] m.attachments@[j], lines@[before + j]@),
        decreases n - k,
    {
        lines.push(attachment_row(&m.attachments[k]));
        k = k + 1;
    }
    proof {
        if m.reply is Some {
            assert(lines@[0] == head[0]);
        }
        assert(lines@[r] == head[r]);
        if m.fwd_count > 0 {
            assert(lines@[r + 1] == head[r + 1]);
        }
    }
    lines
}

/// Whether `time` can represent a Unix timestamp
/// (`OffsetDateTime::from_unix_timestamp` succeeds).
pub uninterp spec fn unix_ts_valid(ts: i64) -> bool;

/// `time::OffsetDateTime::from_unix_timestamp(ts).is_ok()`.
#[verifier::external_body]
fn timestamp_in_range(ts: i64) -> (r: bool)
    ensures
        r == unix_ts_valid(ts),
{
    time::OffsetDateTime::from_unix_timestamp(ts).is_ok()
}

/// The UTC time of day `HH:MM` that `time` writes for a timestamp: hours
/// and minutes of the second within the day, two digits each (the epoch's,
/// `00:00`, for a timestamp it cannot represent).
pub open spec fn utc_clock(ts: i64) -> Seq<char> {
    if unix_ts_valid(ts) {
        let s = (ts as int) % 86400;
        two_digits(s / 3600) + seq![':'] + two_digits((s % 3600) / 60)
    } else {
        "00:00"@
    }
}

/// The UTC date `DD.MM.YYYY` that `time` writes for a timestamp (the
/// epoch's for one it cannot represent).
pub uninterp spec fn utc_date(ts: i64) -> Seq<char>;

/// Formats a timestamp with `time`'s `[hour]:[minute]` description
/// (`OffsetDateTime::from_unix_timestamp`, `format_description::parse_borrowed`,
/// `OffsetDateTime::format`). The contract claims `time` writes the UTC hour
/// and minute, zero-padded; the description parses and formatting a full
/// date-time with it does not fail, so the `--:--` arms are not reached.
#[verifier::external_body]
fn clock_of(ts: i64) -> (r: String)
    ensures
        r@ == utc_clock(ts),
{
    let dt = time::OffsetDateTime::from_unix_timestamp(ts).unwrap_or(time::OffsetDateTime::UNIX_EPOCH);
    match time::format_description::parse_borrowed::<1>("[hour]:[minute]") {
        Ok(f) => dt.format(&f).unwrap_or_else(|_| "--:--".to_string()),
        Err(_) => "--:--".to_string(),
    }
}

/// Formats a timestamp with `time`'s `[day].[month].[year]` description.
#[verifier::external_body]
fn date_of(ts: i64) -> (r: String)
    ensures
        r@ == utc_date(ts),
{
    let dt = time::OffsetDateTime::from_unix_timestamp(ts).unwrap_or(time::OffsetDateTime::UNIX_EPOCH);
    match time::format_description::parse_borrowed::<1>("[day].[month].[year]") {
        Ok(f) => dt.format(&f).unwrap_or_else(|_| "--.--.----".to_string()),
        Err(_) => "--.--.----".to_string(),
    }
}

/// `time::OffsetDateTime::now_utc().unix_timestamp()`: the clock's current
/// second, of which nothing is stated.
#[verifier::external_body]
fn now_unix() -> (r: i64) {
    time::OffsetDateTime::now_utc().unix_timestamp()
}

/// A message time as the messages panel shows it at `now`: the time of day
/// within a day of it (an unrepresentable time counts as the epoch),
/// otherwise the date.
pub open spec fn time_label_at(ts: i64, now: i64) -> Seq<char> {
    let at = if unix_ts_valid(ts) { ts as int } else { 0 };
    if now - at < 86400 { utc_clock(ts) } else { utc_date(ts) }
}

/// The time label of a message at `now`.
pub fn message_time_at(ts: i64, now: i64) -> (r: String)
    ensures
        r@ == time_label_at(ts, now),
{
    let at: i128 = if timestamp_in_range(ts) { ts as i128 } else { 0 };
    if (now as i128) - at < 86400 {
        clock_of(ts)
    } else {
        date_of(ts)
    }
}

/// The time label of a message now.
pub fn message_time(ts: i64) -> (r: String)
    ensures
        exists|now: i64| r@ == time_label_at(ts, now),
{
    let now = now_unix();
    message_time_at(ts, now)
}

/// A chat-list entry: the online dot, the title (bold when unread) and the
/// unread count; below it the last message cut to the panel width less 4.
pub open spec fn chat_rows(c: Chat, width: u16, rows: Seq<Vec<Piece>>) -> bool {
    let l = rows[0]@;
    let p = rows[1]@;
    &&& rows.len() == 2 && l.len() == 4 && p.len() == 1
    &&& shows(l[0], if c.is_online { "●"@ } else { "○"@ }, if c.is_online { Tone::Green } else { Tone::DarkGray })
    &&& shows(l[1], " "@, Tone::Plain)
    &&& l[2].content matches Content::Text(t) && t@ == c.title@ && l[2].tone == Tone::Plain && l[2].bold == (c.unread_count > 0)
    &&& shows(l[3], if c.unread_count > 0 { " ("@ + decimal(c.unread_count as int) + ")"@ } else { seq![] }, Tone::Cyan)
    &&& shows(p[0], truncated(c.last_message@, if width >= 4 { width - 4 } else { 0 }), Tone::DarkGray)
}

/// The two lines of a chat-list entry for a panel `width` columns wide.
pub fn chat_entry(c: &Chat, width: u16) -> (rows: Vec<Vec<Piece>>)
    ensures
        chat_rows(*c, width, rows@),
{
    let mut l: Vec<Piece> = Vec::new();
    if c.is_online {
        l.push(lit("●", Tone::Green));
    } else {
        l.push(lit("○", Tone::DarkGray));
    }
    l.push(lit(" ", Tone::Plain));
    l.push(Piece { content: Content::Text(c.title.clone()), tone: Tone::Plain, bold: c.unread_count > 0 });
    if c.unread_count > 0 {
        let mut u = string_of(" (");
        push_u64_digits(&mut u, c.unread_count as u64);
        push_str(&mut u, ")");
        l.push(piece(u, Tone::Cyan));
    } else {
        l.push(piece(String::new(), Tone::Cyan));
    }
    let room: usize = if width >= 4 { (width - 4) as usize } else { 0 };
    let mut p: Vec<Piece> = Vec::new();
    p.push(piece(truncate_str(c.last_message.as_str(), room), Tone::DarkGray));
    let mut rows: Vec<Vec<Piece>> = Vec::new();
    rows.push(l);
    rows.push(p);
    rows
}

/// The positions of the chats listed: through the filter's indices (those
/// in range) when a filter is on, else every chat.
pub open spec fn listed(app: App) -> Seq<usize> {
    match app.chat_filter {
        Some(f) => in_range(f.filtered_indices@, app.chats@.len() as int),
        None => Seq::new(app.chats@.len(), |i: int| i as usize),
    }
}

/// The indices below `n`, in order.
pub open spec fn in_range(ix: Seq<usize>, n: int) -> Seq<usize>
    decreases ix.len(),
{
    if ix.len() == 0 {
        seq![]
    } else {
        let prev = in_range(ix.drop_last(), n);
        if ix.last() < n { prev.push(ix.last()) } else { prev }
    }
}

/// The positions of the chats the chat list shows.
pub fn listed_chats(app: &App) -> (r: Vec<usize>)
    ensures
        r@ == listed(*app),
{
    let n = app.chats.len();
    let mut out: Vec<usize> = Vec::new();
    match &app.chat_filter {
        Some(f) => {
            let m = f.filtered_indices.len();
            let mut i: usize = 0;
            while i < m
                invariant
                    m == f.filtered_indices@.len(),
                    n == app.chats@.len(),
                    i <= m,
                    out@ == in_range(f.filtered_indices@.take(i as int), n as int),
                decreases m - i,
            {
                assert(f.filtered_indices@.take(i + 1).drop_last() == f.filtered_indices@.take(i as int));
                assert(f.filtered_indices@.take(i + 1).last() == f.filtered_indices@[i as int]);
                if f.filtered_indices[i] < n {
                    out.push(f.filtered_indices[i]);
                }
                i = i + 1;
            }
            assert(f.filtered_indices@.take(m as int) == f.filtered_indices@);
        },
        None => {
            let mut i: usize = 0;
            while i < n
                invariant
                    n == app.chats@.len(),
                    i <= n,
                    out@ == Seq::new(i as nat, |k: int| k as usize),
                decreases n - i,
            {
                out.push(i);
                i = i + 1;
                assert(out@ == Seq::new(i as nat, |k: int| k as usize));
            }
        },
    }
    out
}

/// The chat list's title.
pub open spec fn chat_list_title(loading: bool) -> Seq<char> {
    if loading { " Chats (loading...) "@ } else { " Chats "@ }
}

/// The title of the chat list.
pub fn chat_list_heading(loading: bool) -> (r: &'static str)
    ensures
        r@ == chat_list_title(loading),
{
    if loading { " Chats (loading...) " } else { " Chats " }
}

/// The title of the messages panel: the open chat's title (the first chat
/// with its id) or "Messages", marked while loading.
pub open spec fn messages_title(app: App) -> Seq<char> {
    let name = match app.current_peer_id {
        Some(peer) => match crate::update_events::chat_pos(app.chats@, peer) {
            Some(p) => app.chats@[p].title@,
            None => "Messages"@,
        },
        None => "Messages"@,
    };
    if app.is_loading && app.current_peer_id is Some {
        " "@ + name + " (loading...) "@
    } else {
        " "@ + name + " "@
    }
}

/// The title of the messages panel.
pub fn messages_heading(app: &App) -> (r: String)
    ensures
        r@ == messages_title(*app),
{
    let mut out = string_of(" ");
    let found = match app.current_peer_id {
        Some(peer) => crate::update_events::find_chat(&app.chats, peer),
        None => None,
    };
    match found {
        Some(p) => push_str(&mut out, app.chats[p].title.as_str()),
        None => push_str(&mut out, "Messages"),
    }
    if app.is_loading && app.current_peer_id.is_some() {
        push_str(&mut out, " (loading...) ");
    } else {
        push_str(&mut out, " ");
    }
    out
}

/// The first pinned message, if any.
pub open spec fn pinned_from(ms: Seq<ChatMessage>, i: int) -> Option<int>
    decreases ms.len() - i,
{
    if i < 0 || i >= ms.len() {
        None
    } else if ms[i].is_pinned {
        Some(i)
    } else {
        pinned_from(ms, i + 1)
    }
}

/// Finds the first pinned message.
pub fn first_pinned(ms: &Vec<ChatMessage>) -> (r: Option<usize>)
    ensures
        r matches Some(i) ==> pinned_from(ms@, 0) == Some(i as int),
        r is None ==> pinned_from(ms@, 0) is None,
{
    let n = ms.len();
    let mut i: usize = 0;
    while i < n
        invariant
            n == ms@.len(),
            i <= n,
            pinned_from(ms@, 0) == pinned_from(ms@, i as int),
        decreases n - i,
    {
        if ms[i].is_pinned {
            return Some(i);
        }
        i = i + 1;
    }
    None
}

/// The hint shown in the status bar when there is no status.
pub open spec fn default_hint(mode: Mode, focus: Focus) -> Seq<char> {
    match mode {
        Mode::Insert => "Enter send | /sendfile PATH | /sendimg PATH | Esc back"@,
        Mode::Command => "Enter execute | Esc cancel"@,
        Mode::Normal => match focus {
            Focus::ChatList => "j/k nav | l/Enter select | / search | : cmd | ? help"@,
            Focus::Messages => "j/k nav | i insert | r reply | f forward | F view fwds | e edit | dd delete | p pin | o link | ? help"@,
            Focus::Input => "i insert mode | Esc back"@,
        },
    }
}

/// The status bar: in command mode the command line after ":" in yellow;
/// otherwise the status (red when it mentions "Error") or the mode's hint.
pub open spec fn status_bar_shows(app: App, text: Seq<char>, tone: Tone) -> bool {
    if app.mode == Mode::Command {
        text == ":"@ + app.command_input@ && tone == Tone::Yellow
    } else {
        match app.status {
            Some(s) => text == s@ && tone == if contains(s@, "Error"@) { Tone::Red } else { Tone::DarkGray },
            None => text == default_hint(app.mode, app.focus) && tone == Tone::DarkGray,
        }
    }
}

/// The status bar's text and tone.
pub fn status_bar(app: &App) -> (r: (String, Tone))
    ensures
        status_bar_shows(*app, r.0@, r.1),
{
    if app.mode == Mode::Command {
        let mut t = string_of(":");
        push_str(&mut t, app.command_input.as_str());
        return (t, Tone::Yellow);
    }
    match &app.status {
        Some(s) => {
            let red = contains_seq(chars_of(s.as_str()).as_slice(), chars_of("Error").as_slice());
            (s.clone(), if red { Tone::Red } else { Tone::DarkGray })
        },
        None => {
            let hint = match app.mode {
                Mode::Insert => "Enter send | /sendfile PATH | /sendimg PATH | Esc back",
                Mode::Command => "Enter execute | Esc cancel",
                Mode::Normal => match app.focus {
                    Focus::ChatList => "j/k nav | l/Enter select | / search | : cmd | ? help",
                    Focus::Messages => "j/k nav | i insert | r reply | f forward | F view fwds | e edit | dd delete | p pin | o link | ? help",
                    Focus::Input => "i insert mode | Esc back",
                },
            };
            (string_of(hint), Tone::DarkGray)
        },
    }
}

/// The help popup's lines for the focused panel, followed by the command
/// mode section.
pub open spec fn help_table(focus: Focus) -> Seq<(Seq<char>, Tone, bool)> {
    let plain = |t: Seq<char>| (t, Tone::Plain, false);
    let panel = match focus {
        Focus::ChatList => seq![
            ("Chat List Navigation"@, Tone::Yellow, true),
            plain(""@),
            plain("j, Down          - Move down"@),
            plain("k, Up            - Move up"@),
            plain("g                - Go to first chat"@),
            plain("G                - Go to last chat"@),
            plain("l, Enter         - Open selected chat"@),
            plain("/                - Search conversations"@),
            plain("h                - Switch to left panel"@),
            plain("Tab              - Next panel"@),
            plain(""@),
            ("Commands"@, Tone::Yellow, false),
            plain(""@),
            plain(":                - Enter command mode"@),
            plain("?                - Toggle this help"@),
            plain("Ctrl+Q, Ctrl+C   - Quit application"@),
        ],
        Focus::Messages => seq![
            ("Messages Navigation"@, Tone::Yellow, true),
            plain(""@),
            plain("j, Down          - Scroll down"@),
            plain("k, Up            - Scroll up"@),
            plain("g                - Go to first message"@),
            plain("G                - Go to last message"@),
            plain("Ctrl+U           - Page up"@),
            plain("Ctrl+D           - Page down"@),
            plain(""@),
            ("Actions"@, Tone::Yellow, false),
            plain(""@),
            plain("i, l, Enter      - Enter insert mode (write message)"@),
            plain("r                - Reply to message"@),
            plain("f                - Forward message"@),
            plain("F                - View forwarded (popup)"@),
            plain("e                - Edit message"@),
            plain("dd               - Delete message"@),
            plain("yy               - Copy message text"@),
            plain("p                - Pin/unpin message (coming soon)"@),
            plain("o, Ctrl+L        - Open link in message"@),
            plain("a                - Download attachments"@),
            plain("/                - Search in chat (coming soon)"@),
            plain("h, Esc           - Back to chat list"@),
        ],
        Focus::Input => seq![
            ("Insert Mode"@, Tone::Yellow, true),
            plain(""@),
            plain("Type normally to write message"@),
            plain("Enter            - Send message"@),
            plain("Esc              - Exit to normal mode"@),
            plain("Ctrl+W           - Delete word"@),
            plain("Ctrl+U           - Clear line"@),
            plain("Backspace        - Delete character"@),
            plain(""@),
            ("Special Commands"@, Tone::Yellow, false),
            plain(""@),
            plain("/sendfile <path> - Send file attachment"@),
            plain("/sendimg <path>  - Send image"@),
            plain("/sendimg --clipboard - Send from clipboard"@),
        ],
    };
    panel + seq![
        plain(""@),
        ("Command Mode (:)"@, Tone::Yellow, true),
        plain(""@),
        plain(":q, :quit        - Quit application"@),
        plain(":back, :b        - Return to chat list"@),
        plain(":search <q>, :s  - Search conversations"@),
        plain(":msg <text>, :m  - Quick send message"@),
        plain(":attach photo <path>, :ap - Send photo"@),
        plain(":attach doc <path>, :ad   - Send document"@),
        plain(":help, :h        - Show this help"@),
    ]
}

/// `p` is the table row `row`.
pub open spec fn piece_is(p: Piece, row: (Seq<char>, Tone, bool)) -> bool {
    p.content matches Content::Text(t) && t@ == row.0 && p.tone == row.1 && p.bold == row.2
}

/// The lines of `table` as pieces.
pub open spec fn is_table(lines: Seq<Piece>, table: Seq<(Seq<char>, Tone, bool)>) -> bool {
    &&& lines.len() == table.len()
    &&& forall|i: int| 0 <= i < table.len() ==> piece_is(#[trigger] lines[i], table[i])
}

fn push_line(out: &mut Vec<Piece>, text: &str, tone: Tone, bold: bool)
    ensures
        final(out)@.len() == old(out)@.len() + 1,
        final(out)@.drop_last() == old(out)@,
        piece_is(final(out)@.last(), (text@, tone, bold)),
{
    out.push(Piece { content: Content::Text(string_of(text)), tone, bold });
}

/// The help popup's lines, one piece each.
pub fn help_lines(focus: Focus) -> (r: Vec<Piece>)
    ensures
        is_table(r@, help_table(focus)),
{
    let mut out: Vec<Piece> = Vec::new();
    let ghost table = help_table(focus);
    match focus {
        Focus::ChatList => {
            push_line(&mut out, "Chat List Navigation", Tone::Yellow, true);
            push_line(&mut out, "", Tone::Plain, false);
            push_line(&mut out, "j, Down          - Move down", Tone::Plain, false);
            push_line(&mut out, "k, Up            - Move up", Tone::Plain, false);
            push_line(&mut out, "g                - Go to first chat", Tone::Plain, false);
            push_line(&mut out, "G                - Go to last chat", Tone::Plain, false);
            push_line(&mut out, "l, Enter         - Open selected chat", Tone::Plain, false);
            push_line(&mut out, "/                - Search conversations", Tone::Plain, false);
            push_line(&mut out, "h                - Switch to left panel", Tone::Plain, false);
            push_line(&mut out, "Tab              - Next panel", Tone::Plain, false);
            push_line(&mut out, "", Tone::Plain, false);
            push_line(&mut out, "Commands", Tone::Yellow, false);
            push_line(&mut out, "", Tone::Plain, false);
            push_line(&mut out, ":                - Enter command mode", Tone::Plain, false);
            push_line(&mut out, "?                - Toggle this help", Tone::Plain, false);
            push_line(&mut out, "Ctrl+Q, Ctrl+C   - Quit application", Tone::Plain, false);
        },
        Focus::Messages => {
            push_line(&mut out, "Messages Navigation", Tone::Yellow, true);
            push_line(&mut out, "", Tone::Plain, false);
            push_line(&mut out, "j, Down          - Scroll down", Tone::Plain, false);
            push_line(&mut out, "k, Up            - Scroll up", Tone::Plain, false);
            push_line(&mut out, "g                - Go to first message", Tone::Plain, false);
            push_line(&mut out, "G                - Go to last message", Tone::Plain, false);
            push_line(&mut out, "Ctrl+U           - Page up", Tone::Plain, false);
            push_line(&mut out, "Ctrl+D           - Page down", Tone::Plain, false);
            push_line(&mut out, "", Tone::Plain, false);
            push_line(&mut out, "Actions", Tone::Yellow, false);
            push_line(&mut out, "", Tone::Plain, false);
            push_line(&mut out, "i, l, Enter      - Enter insert mode (write message)", Tone::Plain, false);
            push_line(&mut out, "r                - Reply to message", Tone::Plain, false);
            push_line(&mut out, "f                - Forward message", Tone::Plain, false);
            push_line(&mut out, "F                - View forwarded (popup)", Tone::Plain, false);
            push_line(&mut out, "e                - Edit message", Tone::Plain, false);
            push_line(&mut out, "dd               - Delete message", Tone::Plain, false);
            push_line(&mut out, "yy               - Copy message text", Tone::Plain, false);
            push_line(&mut out, "p                - Pin/unpin message (coming soon)", Tone::Plain, false);
            push_line(&mut out, "o, Ctrl+L        - Open link in message", Tone::Plain, false);
            push_line(&mut out, "a                - Download attachments", Tone::Plain, false);
            push_line(&mut out, "/                - Search in chat (coming soon)", Tone::Plain, false);
            push_line(&mut out, "h, Esc           - Back to chat list", Tone::Plain, false);
        },
        Focus::Input => {
            push_line(&mut out, "Insert Mode", Tone::Yellow, true);
            push_line(&mut out, "", Tone::Plain, false);
            push_line(&mut out, "Type normally to write message", Tone::Plain, false);
            push_line(&mut out, "Enter            - Send message", Tone::Plain, false);
            push_line(&mut out, "Esc              - Exit to normal mode", Tone::Plain, false);
            push_line(&mut out, "Ctrl+W           - Delete word", Tone::Plain, false);
            push_line(&mut out, "Ctrl+U           - Clear line", Tone::Plain, false);
            push_line(&mut out, "Backspace        - Delete character", Tone::Plain, false);
            push_line(&mut out, "", Tone::Plain, false);
            push_line(&mut out, "Special Commands", Tone::Yellow, false);
            push_line(&mut out, "", Tone::Plain, false);
            push_line(&mut out, "/sendfile <path> - Send file attachment", Tone::Plain, false);
            push_line(&mut out, "/sendimg <path>  - Send image", Tone::Plain, false);
            push_line(&mut out, "/sendimg --clipboard - Send from clipboard", Tone::Plain, false);
        },
    }
    push_line(&mut out, "", Tone::Plain, false);
    push_line(&mut out, "Command Mode (:)", Tone::Yellow, true);
    push_line(&mut out, "", Tone::Plain, false);
    push_line(&mut out, ":q, :quit        - Quit application", Tone::Plain, false);
    push_line(&mut out, ":back, :b        - Return to chat list", Tone::Plain, false);
    push_line(&mut out, ":search <q>, :s  - Search conversations", Tone::Plain, false);
    push_line(&mut out, ":msg <text>, :m  - Quick send message", Tone::Plain, false);
    push_line(&mut out, ":attach photo <path>, :ap - Send photo", Tone::Plain, false);
    push_line(&mut out, ":attach doc <path>, :ad   - Send document", Tone::Plain, false);
    push_line(&mut out, ":help, :h        - Show this help", Tone::Plain, false);
    assert(is_table(out@, table));
    out
}

/// A forward target row: the title in bold, the unread count and the id.
pub open spec fn target_row(c: Chat, l: Seq<Piece>) -> bool {
    &&& l.len() == 3
    &&& l[0].content matches Content::Text(t) && t@ == c.title@ && l[0].tone == Tone::Plain && l[0].bold
    &&& shows(l[1], if c.unread_count > 0 { " ("@ + decimal(c.unread_count as int) + ")"@ } else { seq![] }, Tone::Plain)
    &&& shows(l[2], "  ["@ + decimal(c.id as int) + "]"@, Tone::DarkGray)
}

/// The row of a chat in the forward dialog.
pub fn forward_target_row(c: &Chat) -> (l: Vec<Piece>)
    ensures
        target_row(*c, l@),
{
    let mut l: Vec<Piece> = Vec::new();
    l.push(Piece { content: Content::Text(c.title.clone()), tone: Tone::Plain, bold: true });
    if c.unread_count > 0 {
        let mut u = string_of(" (");
        push_u64_digits(&mut u, c.unread_count as u64);
        push_str(&mut u, ")");
        l.push(piece(u, Tone::Plain));
    } else {
        l.push(piece(String::new(), Tone::Plain));
    }
    let mut id = string_of("  [");
    push_i64(&mut id, c.id);
    push_str(&mut id, "]");
    l.push(piece(id, Tone::DarkGray));
    l
}

/// The forward dialog's query line.
pub fn forward_query_line(query: &str) -> (r: String)
    ensures
        r@ == "Search: "@ + query@,
{
    let mut t = string_of("Search: ");
    push_str(&mut t, query);
    t
}

/// The forward dialog's title once the target is chosen.
pub fn forward_comment_title(title: &str) -> (r: String)
    ensures
        r@ == " Forward to "@ + title@ + " "@,
{
    let mut t = string_of(" Forward to ");
    push_str(&mut t, title);
    push_str(&mut t, " ");
    t
}

/// `n` copies of two spaces.
pub open spec fn pad(n: nat) -> Seq<char>
    decreases n,
{
    if n == 0 { seq![] } else { pad((n - 1) as nat) + "  "@ }
}

/// A forwarded-content line indented by `indent` levels.
pub fn indented(indent: usize, text: &str) -> (r: String)
    ensures
        r@ == pad(indent as nat) + text@,
{
    let mut out = String::new();
    let mut i: usize = 0;
    while i < indent
        invariant
            i <= indent,
            out@ == pad(i as nat),
        decreases indent - i,
    {
        push_str(&mut out, "  ");
        i = i + 1;
    }
    push_str(&mut out, text);
    out
}

/// The global search's input line.
pub open spec fn search_input_text(query: Seq<char>, loading: bool, total: i32) -> Seq<char> {
    if loading {
        "🔍 "@ + query + " (searching...)"@
    } else {
        "🔍 "@ + query + " ("@ + decimal(total as int) + " results)"@
    }
}

/// The input line of the global search.
pub fn search_input_line(query: &str, loading: bool, total: i32) -> (r: String)
    ensures
        r@ == search_input_text(query@, loading, total),
{
    let mut t = string_of("🔍 ");
    push_str(&mut t, query);
    if loading {
        push_str(&mut t, " (searching...)");
    } else {
        push_str(&mut t, " (");
        push_i64(&mut t, total as i64);
        push_str(&mut t, " results)");
    }
    t
}

/// A search hit's two lines: chat, sender and time; then the text cut
/// after 60 characters.
pub open spec fn hit_rows(r: SearchResult, time: Seq<char>, rows: Seq<Vec<Piece>>) -> bool {
    let a = rows[0]@;
    let b = rows[1]@;
    &&& rows.len() == 2 && a.len() == 5 && b.len() == 1
    &&& a[0].content matches Content::Text(t) && t@ == r.chat_title@ && a[0].tone == Tone::Cyan && a[0].bold
    &&& shows(a[1], " • "@, Tone::Plain) && shows(a[2], r.from_name@, Tone::Green)
    &&& shows(a[3], " • "@, Tone::Plain) && shows(a[4], time, Tone::DarkGray)
    &&& shows(b[0], truncated_text(r.text@, 60), Tone::White)
}

/// The lines of a search hit, given its time label.
pub fn search_hit_rows(r: &SearchResult, time: String) -> (rows: Vec<Vec<Piece>>)
    ensures
        hit_rows(*r, time@, rows@),
{
    let mut a: Vec<Piece> = Vec::new();
    a.push(Piece { content: Content::Text(r.chat_title.clone()), tone: Tone::Cyan, bold: true });
    a.push(lit(" • ", Tone::Plain));
    a.push(piece(r.from_name.clone(), Tone::Green));
    a.push(lit(" • ", Tone::Plain));
    a.push(piece(time, Tone::DarkGray));
    let mut b: Vec<Piece> = Vec::new();
    b.push(piece(truncate_text(r.text.as_str(), 60), Tone::White));
    let mut rows: Vec<Vec<Piece>> = Vec::new();
    rows.push(a);
    rows.push(b);
    rows
}

/// The title of the search results: the selected position and the count.
pub fn results_title(selected: usize, count: usize) -> (r: String)
    requires
        selected < usize::MAX,
    ensures
        r@ == " Results ("@ + decimal(selected + 1) + "/"@ + decimal(count as int) + ") "@,
{
    let mut t = string_of(" Results (");
    push_u64_digits(&mut t, (selected + 1) as u64);
    push_str(&mut t, "/");
    push_u64_digits(&mut t, count as u64);
    push_str(&mut t, ") ");
    t
}

/// The OAuth URL as the authorization screen shows it in a field `width`
/// columns wide: cut to `width - 5` characters and "..." when it is longer
/// than `width - 2`.
pub open spec fn url_display(url: Seq<char>, width: int) -> Seq<char> {
    if url.len() > width - 2 { url.take(width - 5) + "..."@ } else { url }
}

/// The URL line of the authorization screen (for an ASCII URL, whose bytes
/// are its characters).
pub fn auth_url_line(url: &str, width: u16) -> (r: String)
    requires
        width >= 2,
        url@.len() > width - 2 ==> width >= 5,
    ensures
        r@ == url_display(url@, width as int),
{
    let cs = chars_of(url);
    let w = width as usize;
    if cs.len() > w - 2 {
        let mut out = crate::text::string_from_range(cs.as_slice(), 0, if w - 5 < cs.len() { w - 5 } else { cs.len() });
        push_str(&mut out, "...");
        out
    } else {
        string_of(url)
    }
}

/// The tone of the authorization screen's status: red when it mentions
/// "Error", green otherwise.
pub fn auth_status_tone(status: &str) -> (r: Tone)
    ensures
        r == if contains(status@, "Error"@) { Tone::Red } else { Tone::Green },
{
    if contains_seq(chars_of(status).as_slice(), chars_of("Error").as_slice()) { Tone::Red } else { Tone::Green }
}

/// The largest of `xs`, or `d` when there are none.
pub open spec fn max_or(xs: Seq<int>, d: int) -> int
    decreases xs.len(),
{
    if xs.len() == 0 {
        d
    } else if xs.len() == 1 {
        xs[0]
    } else {
        let m = max_or(xs.drop_last(), d);
        if m >= xs.last() { m } else { xs.last() }
    }
}

/// The byte lengths of some texts.
pub open spec fn byte_lens(ts: Seq<Seq<char>>) -> Seq<int> {
    ts.map_values(|t: Seq<char>| vstd::utf8::encode_utf8(t).len() as int)
}

/// The largest of `xs`, or `d` when there are none.
fn max_or_exec(xs: &Vec<usize>, d: usize) -> (r: usize)
    ensures
        r == max_or(xs@.map_values(|x: usize| x as int), d as int),
{
    let ghost v = xs@.map_values(|x: usize| x as int);
    let n = xs.len();
    let mut best = d;
    let mut i: usize = 0;
    while i < n
        invariant
            n == xs@.len(),
            v == xs@.map_values(|x: usize| x as int),
            i <= n,
            best == max_or(v.take(i as int), d as int),
        decreases n - i,
    {
        assert(v.take(i + 1).drop_last() == v.take(i as int));
        assert(v.take(i + 1).last() == v[i as int]);
        if i == 0 {
            best = xs[i];
        } else if xs[i] > best {
            best = xs[i];
        }
        i = i + 1;
    }
    assert(v.take(n as int) == v);
    best
}

/// A suggestion row: the name in bold cyan, " - " and the description.
pub open spec fn suggestion_row(name: Seq<char>, description: Seq<char>, l: Seq<Piece>) -> bool {
    &&& l.len() == 3
    &&& l[0].content matches Content::Text(t) && t@ == name && l[0].tone == Tone::Cyan && l[0].bold
    &&& shows(l[1], " - "@, Tone::Plain) && shows(l[2], description, Tone::White)
}

fn suggestion_pieces(name: &str, description: &str) -> (l: Vec<Piece>)
    ensures
        suggestion_row(name@, description@, l@),
{
    let mut l: Vec<Piece> = Vec::new();
    l.push(Piece { content: Content::Text(string_of(name)), tone: Tone::Cyan, bold: true });
    l.push(lit(" - ", Tone::Plain));
    l.push(lit(description, Tone::White));
    l
}

/// The lines of a command suggestion: the command and its description, and
/// the usage below when there is one.
pub fn command_suggestion_rows(sug: &crate::completion::CommandSuggestion) -> (rows: Vec<Vec<Piece>>)
    ensures
        rows@.len() == if sug.usage is Some { 2int } else { 1int },
        suggestion_row(sug.command@, sug.description@, rows@[0]@),
        sug.usage matches Some(u) ==> rows@[1]@.len() == 1 && shows(rows@[1]@[0], "  "@ + u@, Tone::DarkGray),
{
    let mut rows: Vec<Vec<Piece>> = Vec::new();
    rows.push(suggestion_pieces(sug.command.as_str(), sug.description.as_str()));
    match &sug.usage {
        Some(u) => {
            let mut t = string_of("  ");
            push_str(&mut t, u.as_str());
            let mut l: Vec<Piece> = Vec::new();
            l.push(piece(t, Tone::DarkGray));
            rows.push(l);
        },
        None => {},
    }
    rows
}

/// The line of a subcommand option.
pub fn subcommand_row(opt: &crate::completion::SubcommandOption) -> (l: Vec<Piece>)
    ensures
        suggestion_row(opt.name@, opt.description@, l@),
{
    suggestion_pieces(opt.name.as_str(), opt.description.as_str())
}

/// The line of a path entry: a folder or file icon and the name, with "/"
/// after a directory's name.
pub fn path_row(e: &crate::completion::PathEntry) -> (l: Vec<Piece>)
    ensures
        l@.len() == 2,
        shows(l@[0], if e.is_dir { "📁 "@ } else { "📄 "@ }, Tone::Plain),
        shows(l@[1], if e.is_dir { e.name@ + "/"@ } else { e.name@ }, if e.is_dir { Tone::Blue } else { Tone::White }),
{
    let mut l: Vec<Piece> = Vec::new();
    if e.is_dir {
        l.push(lit("📁 ", Tone::Plain));
        let mut n = e.name.clone();
        push_str(&mut n, "/");
        l.push(piece(n, Tone::Blue));
    } else {
        l.push(lit("📄 ", Tone::Plain));
        l.push(piece(e.name.clone(), Tone::White));
    }
    l
}

/// The size of a popup listing named entries with descriptions: wide enough
/// for the longest name and description (in bytes) plus 7 columns, at most
/// `max_width`; `rows_each` lines per entry plus 2, at most `max_height`.
pub open spec fn list_popup_size(names: Seq<Seq<char>>, descs: Seq<Seq<char>>, name_default: int, desc_default: int, rows_each: int, max_width: int, max_height: int) -> (int, int) {
    let w = max_or(byte_lens(names), name_default) + 3 + max_or(byte_lens(descs), desc_default) + 4;
    let h = names.len() * rows_each + 2;
    (if w < max_width { w } else { max_width }, if h < max_height { h } else { max_height })
}

/// The size of the command suggestion popup.
pub fn command_popup_size(suggestions: &Vec<crate::completion::CommandSuggestion>) -> (r: (u16, u16))
    requires
        suggestions@.len() <= 1000,
        forall|i: int| 0 <= i < suggestions@.len() ==> vstd::utf8::encode_utf8((#[trigger] suggestions@[i]).command@).len() <= 10000
            && vstd::utf8::encode_utf8(suggestions@[i].description@).len() <= 10000,
    ensures
        (r.0 as int, r.1 as int) == list_popup_size(
            suggestions@.map_values(|s: crate::completion::CommandSuggestion| s.command@),
            suggestions@.map_values(|s: crate::completion::CommandSuggestion| s.description@),
            10, 20, 2, 80, 24),
{
    let ghost names = suggestions@.map_values(|s: crate::completion::CommandSuggestion| s.command@);
    let ghost descs = suggestions@.map_values(|s: crate::completion::CommandSuggestion| s.description@);
    let n = suggestions.len();
    let mut nl: Vec<usize> = Vec::new();
    let mut dl: Vec<usize> = Vec::new();
    let mut i: usize = 0;
    while i < n
        invariant
            n == suggestions@.len(),
            i <= n,
            forall|k: int| 0 <= k < n ==> vstd::utf8::encode_utf8((#[trigger] suggestions@[k]).command@).len() <= 10000
                && vstd::utf8::encode_utf8(suggestions@[k].description@).len() <= 10000,
            nl@.len() == i && dl@.len() == i,
            forall|k: int| 0 <= k < i ==> #[trigger] nl@[k] as int == vstd::utf8::encode_utf8(suggestions@[k].command@).len(),
            forall|k: int| 0 <= k < i ==> #[trigger] dl@[k] as int == vstd::utf8::encode_utf8(suggestions@[k].description@).len(),
        decreases n - i,
    {
        nl.push(suggestions[i].command.as_str().len());
        dl.push(suggestions[i].description.as_str().len());
        i = i + 1;
    }
    assert(nl@.map_values(|x: usize| x as int) =~= byte_lens(names));
    assert(dl@.map_values(|x: usize| x as int) =~= byte_lens(descs));
    let a = max_or_exec(&nl, 10);
    let b = max_or_exec(&dl, 20);
    proof {
        lemma_max_bound(byte_lens(names), 10, 10000);
        lemma_max_bound(byte_lens(descs), 20, 10000);
    }
    let w = a + 3 + b + 4;
    let h = n * 2 + 2;
    ((if w < 80 { w } else { 80 }) as u16, (if h < 24 { h } else { 24 }) as u16)
}

/// The largest of values at most `bound` is at most `bound`.
proof fn lemma_max_bound(xs: Seq<int>, d: int, bound: int)
    requires
        d <= bound,
        forall|i: int| 0 <= i < xs.len() ==> xs[i] <= bound,
    ensures
        max_or(xs, d) <= bound,
    decreases xs.len(),
{
    if xs.len() > 1 {
        lemma_max_bound(xs.drop_last(), d, bound);
    }
}

/// The size of the subcommand popup.
pub fn subcommand_popup_size(options: &Vec<crate::completion::SubcommandOption>) -> (r: (u16, u16))
    requires
        options@.len() <= 1000,
        forall|i: int| 0 <= i < options@.len() ==> vstd::utf8::encode_utf8((#[trigger] options@[i]).name@).len() <= 10000
            && vstd::utf8::encode_utf8(options@[i].description@).len() <= 10000,
    ensures
        (r.0 as int, r.1 as int) == list_popup_size(
            options@.map_values(|s: crate::completion::SubcommandOption| s.name@),
            options@.map_values(|s: crate::completion::SubcommandOption| s.description@),
            10, 20, 1, 80, 12),
{
    let ghost names = options@.map_values(|s: crate::completion::SubcommandOption| s.name@);
    let ghost descs = options@.map_values(|s: crate::completion::SubcommandOption| s.description@);
    let n = options.len();
    let mut nl: Vec<usize> = Vec::new();
    let mut dl: Vec<usize> = Vec::new();
    let mut i: usize = 0;
    while i < n
        invariant
            n == options@.len(),
            i <= n,
            forall|k: int| 0 <= k < n ==> vstd::utf8::encode_utf8((#[trigger] options@[k]).name@).len() <= 10000
                && vstd::utf8::encode_utf8(options@[k].description@).len() <= 10000,
            nl@.len() == i && dl@.len() == i,
            forall|k: int| 0 <= k < i ==> #[trigger] nl@[k] as int == vstd::utf8::encode_utf8(options@[k].name@).len(),
            forall|k: int| 0 <= k < i ==> #[trigger] dl@[k] as int == vstd::utf8::encode_utf8(options@[k].description@).len(),
        decreases n - i,
    {
        nl.push(options[i].name.as_str().len());
        dl.push(options[i].description.as_str().len());
        i = i + 1;
    }
    assert(nl@.map_values(|x: usize| x as int) =~= byte_lens(names));
    assert(dl@.map_values(|x: usize| x as int) =~= byte_lens(descs));
    let a = max_or_exec(&nl, 10);
    let b = max_or_exec(&dl, 20);
    proof {
        lemma_max_bound(byte_lens(names), 10, 10000);
        lemma_max_bound(byte_lens(descs), 20, 10000);
    }
    let w = a + 3 + b + 4;
    let h = n + 2;
    ((if w < 80 { w } else { 80 }) as u16, (if h < 12 { h } else { 12 }) as u16)
}

/// The width a path entry needs: its name's bytes, one more for a directory.
pub open spec fn entry_width(e: crate::completion::PathEntry) -> int {
    vstd::utf8::encode_utf8(e.name@).len() + if e.is_dir { 1int } else { 0int }
}

/// The size of the path popup: the widest entry plus 6 columns, at most 60;
/// up to 15 entries plus 2 lines.
pub fn path_popup_size(entries: &Vec<crate::completion::PathEntry>) -> (r: (u16, u16))
    requires
        forall|i: int| 0 <= i < entries@.len() ==> vstd::utf8::encode_utf8((#[trigger] entries@[i]).name@).len() <= 10000,
    ensures
        r.0 as int == {
            let w = max_or(entries@.map_values(|e: crate::completion::PathEntry| entry_width(e)), 20) + 6;
            if w < 60 { w } else { 60 }
        },
        r.1 as int == (if entries@.len() < 15 { entries@.len() as int } else { 15 }) + 2,
{
    let n = entries.len();
    let mut wl: Vec<usize> = Vec::new();
    let mut i: usize = 0;
    while i < n
        invariant
            n == entries@.len(),
            i <= n,
            forall|k: int| 0 <= k < n ==> vstd::utf8::encode_utf8((#[trigger] entries@[k]).name@).len() <= 10000,
            wl@.len() == i,
            forall|k: int| 0 <= k < i ==> #[trigger] wl@[k] as int == entry_width(entries@[k]),
        decreases n - i,
    {
        let extra: usize = if entries[i].is_dir { 1 } else { 0 };
        wl.push(entries[i].name.as_str().len() + extra);
        i = i + 1;
    }
    assert(wl@.map_values(|x: usize| x as int) =~= entries@.map_values(|e: crate::completion::PathEntry| entry_width(e)));
    let a = max_or_exec(&wl, 20);
    proof {
        lemma_max_bound(entries@.map_values(|e: crate::completion::PathEntry| entry_width(e)), 20, 10001);
    }
    let w = a + 6;
    let h = if n < 15 { n } else { 15 };
    ((if w < 60 { w } else { 60 }) as u16, (h + 2) as u16)
}

} // verus!
