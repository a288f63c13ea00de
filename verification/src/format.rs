//! Small text rules of the clients: error classification, OAuth URL
//! recognition, truncation, link extraction and slash commands.

use vstd::prelude::*;
use crate::text::{
    chars_of, string_from_range, contains, contains_seq, to_lowercase, lowercase, string_from_chars, string_of,
    push_str, push_char, is_prefix, starts_with, trim, trim_chars, words, split_words, seqs_of,
    is_ascii_punct, char_is_ascii_punctuation, trim_punct, trim_punct_chars, chars_eq, decimal, push_i64, nat_digits, push_u64_digits,
};
use crate::models::{Chat, ChatMessage, AttachmentInfo};

verus! {

broadcast use vstd::string::group_string_axioms;

/// An error message that means the session is no longer authorized: VK
/// API errors 5, 7 or 179, or any mention of "authorization failed".
pub open spec fn auth_error(msg: Seq<char>) -> bool {
    ||| contains(msg, "VK API error 5"@)
    ||| contains(msg, "VK API error 7"@)
    ||| contains(msg, "VK API error 179"@)
    ||| contains(lowercase(msg), "authorization failed"@)
}

/// Whether an error message means the session must be re-authorized.
pub fn is_auth_error(msg: &str) -> (r: bool)
    ensures
        r == auth_error(msg@),
{
    let m = chars_of(msg);
    if contains_seq(m.as_slice(), chars_of("VK API error 5").as_slice()) {
        return true;
    }
    if contains_seq(m.as_slice(), chars_of("VK API error 7").as_slice()) {
        return true;
    }
    if contains_seq(m.as_slice(), chars_of("VK API error 179").as_slice()) {
        return true;
    }
    let lower = to_lowercase(msg);
    contains_seq(chars_of(lower.as_str()).as_slice(), chars_of("authorization failed").as_slice())
}

/// Input that looks like the OAuth redirect URL rather than a bare token.
pub open spec fn oauth_url_like(input: Seq<char>) -> bool {
    ||| contains(input, "access_token="@)
    ||| contains(input, "oauth.vk.com/blank.html"@)
    ||| is_prefix("https://oauth.vk.com/blank.html#"@, input)
    ||| is_prefix("oauth.vk.com/blank.html#"@, input)
    ||| is_prefix("//oauth.vk.com/blank.html#"@, input)
}

/// Whether pasted input looks like the OAuth redirect URL.
pub fn looks_like_oauth_url(input: &str) -> (r: bool)
    ensures
        r == oauth_url_like(input@),
{
    let s = chars_of(input);
    contains_seq(s.as_slice(), chars_of("access_token=").as_slice()) || contains_seq(
        s.as_slice(),
        chars_of("oauth.vk.com/blank.html").as_slice(),
    ) || starts_with(s.as_slice(), chars_of("https://oauth.vk.com/blank.html#").as_slice())
        || starts_with(s.as_slice(), chars_of("oauth.vk.com/blank.html#").as_slice())
        || starts_with(s.as_slice(), chars_of("//oauth.vk.com/blank.html#").as_slice())
}

/// `s` cut to at most `max_len` characters: longer strings keep their first
/// `max_len - 3` characters (none when `max_len < 3`) followed by "...".
pub open spec fn truncated(s: Seq<char>, max_len: int) -> Seq<char> {
    if s.len() <= max_len {
        s
    } else {
        s.take(if max_len >= 3 { max_len - 3 } else { 0 }) + "..."@
    }
}

/// Truncates to `max_len` characters, marking the cut with "...".
pub fn truncate_str(s: &str, max_len: usize) -> (r: String)
    ensures
        r@ == truncated(s@, max_len as int),
{
    let cs = chars_of(s);
    if cs.len() <= max_len {
        return string_of(s);
    }
    let keep = if max_len >= 3 { max_len - 3 } else { 0 };
    let mut out = string_from_range(cs.as_slice(), 0, keep);
    push_str(&mut out, "...");
    out
}

/// `text` cut after `max_chars` characters with "..." appended when longer.
pub open spec fn truncated_text(text: Seq<char>, max_chars: int) -> Seq<char> {
    if text.len() > max_chars {
        text.take(max_chars) + "..."@
    } else {
        text
    }
}

/// Truncates to `max_chars` characters, appending "..." when anything was cut.
pub fn truncate_text(text: &str, max_chars: usize) -> (r: String)
    ensures
        r@ == truncated_text(text@, max_chars as int),
{
    let cs = chars_of(text);
    if cs.len() > max_chars {
        let mut out = string_from_range(cs.as_slice(), 0, max_chars);
        push_str(&mut out, "...");
        out
    } else {
        string_of(text)
    }
}

/// A word that starts like a web link.
pub open spec fn is_link_word(w: Seq<char>) -> bool {
    is_prefix("http://"@, w) || is_prefix("https://"@, w)
}

/// The first word of `ws[i..]` that starts like a web link.
pub open spec fn first_link_word(ws: Seq<Seq<char>>, i: int) -> Option<Seq<char>>
    decreases ws.len() - i,
{
    if i < 0 || i >= ws.len() {
        None
    } else if is_link_word(ws[i]) {
        Some(ws[i])
    } else {
        first_link_word(ws, i + 1)
    }
}

/// The first link in a text: its first whitespace-separated word starting
/// with `http://` or `https://`, without surrounding ASCII punctuation.
pub open spec fn first_link(text: Seq<char>) -> Option<Seq<char>> {
    match first_link_word(words(text), 0) {
        Some(w) => Some(trim_punct(w)),
        None => None,
    }
}

/// Extracts the first link from a message text.
pub fn extract_first_url(text: &str) -> (r: Option<String>)
    ensures
        r matches Some(u) ==> first_link(text@) == Some(u@),
        r is None ==> first_link(text@) is None,
{
    let ws = split_words(chars_of(text).as_slice());
    let http = chars_of("http://");
    let https = chars_of("https://");
    let n = ws.len();
    let mut i: usize = 0;
    while i < n
        invariant
            n == ws@.len(),
            i <= n,
            seqs_of(ws@) == words(text@),
            http@ == "http://"@,
            https@ == "https://"@,
            first_link_word(words(text@), 0) == first_link_word(words(text@), i as int),
        decreases n - i,
    {
        let w = &ws[i];
        assert(w@ == words(text@)[i as int]);
        if starts_with(w.as_slice(), http.as_slice()) || starts_with(w.as_slice(), https.as_slice()) {
            let t = trim_punct_chars(w.as_slice());
            return Some(string_from_chars(t.as_slice()));
        }
        i = i + 1;
    }
    None
}

/// The first URL stored in any of the attachments.
pub open spec fn first_attachment_url(atts: Seq<AttachmentInfo>, i: int) -> Option<String>
    decreases atts.len() - i,
{
    if i < 0 || i >= atts.len() {
        None
    } else if atts[i].url is Some {
        atts[i].url
    } else {
        first_attachment_url(atts, i + 1)
    }
}

/// The link to open for a message: the first link in its text, else the
/// first attachment URL.
pub fn first_url(msg: &ChatMessage) -> (r: Option<String>)
    ensures
        first_link(msg.text@) matches Some(u) ==> r matches Some(x) && x@ == u,
        first_link(msg.text@) is None ==> r == first_attachment_url(msg.attachments@, 0),
{
    match extract_first_url(msg.text.as_str()) {
        Some(u) => Some(u),
        None => {
            let n = msg.attachments.len();
            let mut i: usize = 0;
            while i < n
                invariant
                    n == msg.attachments@.len(),
                    i <= n,
                    first_link(msg.text@) is None,
                    first_attachment_url(msg.attachments@, 0) == first_attachment_url(msg.attachments@, i as int),
                decreases n - i,
            {
                match &msg.attachments[i].url {
                    Some(u) => {
                        return Some(u.clone());
                    },
                    None => {},
                }
                i = i + 1;
            }
            None
        },
    }
}

/// A slash command typed into the message input.
#[derive(Debug)]
pub enum SendCommand {
    /// `/sendfile <path>`
    File(String),
    /// `/sendimg <path>`
    Image(String),
    /// `/sendimg --clipboard`
    ImageClipboard,
}

/// What `parse_send_command` recognises in an input line.
pub open spec fn send_command_of(input: Seq<char>) -> Option<(int, Seq<char>)> {
    let t = trim(input);
    if is_prefix("/sendfile "@, t) && trim(t.skip("/sendfile "@.len() as int)).len() > 0 {
        Some((0int, trim(t.skip("/sendfile "@.len() as int))))
    } else if is_prefix("/sendimg "@, t) {
        let arg = trim(t.skip("/sendimg "@.len() as int));
        if arg == "--clipboard"@ {
            Some((2int, arg))
        } else if arg.len() > 0 {
            Some((1int, arg))
        } else {
            None
        }
    } else {
        None
    }
}

/// Parses `/sendfile <path>`, `/sendimg <path>` and `/sendimg --clipboard`.
pub fn parse_send_command(input: &str) -> (r: Option<SendCommand>)
    ensures
        match send_command_of(input@) {
            None => r is None,
            Some((k, arg)) => match r {
                Some(SendCommand::File(p)) => k == 0 && p@ == arg,
                Some(SendCommand::Image(p)) => k == 1 && p@ == arg,
                Some(SendCommand::ImageClipboard) => k == 2,
                None => false,
            },
        },
{
    let t = trim_chars(chars_of(input).as_slice());
    let file_cmd = chars_of("/sendfile ");
    if starts_with(t.as_slice(), file_cmd.as_slice()) {
        let rest = trim_chars(skip_chars(t.as_slice(), file_cmd.len()).as_slice());
        if rest.len() > 0 {
            return Some(SendCommand::File(string_from_chars(rest.as_slice())));
        }
    }
    let img_cmd = chars_of("/sendimg ");
    if starts_with(t.as_slice(), img_cmd.as_slice()) {
        let arg = trim_chars(skip_chars(t.as_slice(), img_cmd.len()).as_slice());
        if chars_eq(arg.as_slice(), chars_of("--clipboard").as_slice()) {
            return Some(SendCommand::ImageClipboard);
        }
        if arg.len() > 0 {
            return Some(SendCommand::Image(string_from_chars(arg.as_slice())));
        }
    }
    None
}

/// `cs` without its first `k` characters.
fn skip_chars(cs: &[char], k: usize) -> (r: Vec<char>)
    requires
        k <= cs@.len(),
    ensures
        r@ == cs@.skip(k as int),
{
    let mut out: Vec<char> = Vec::new();
    let n = cs.len();
    let mut i = k;
    while i < n
        invariant
            n == cs@.len(),
            k <= i <= n,
            out@ == cs@.subrange(k as int, i as int),
        decreases n - i,
    {
        out.push(cs[i]);
        i = i + 1;
        assert(out@ == cs@.subrange(k as int, i as int));
    }
    assert(cs@.subrange(k as int, n as int) == cs@.skip(k as int));
    out
}

/// A chat is offered as a forward target for the (trimmed, lowercased)
/// query when its lowercased title or its decimal id contains it.
pub open spec fn forward_target_matches(c: Chat, q: Seq<char>) -> bool {
    contains(lowercase(c.title@), q) || contains(decimal(c.id as int), q)
}

/// The chats of `chats` that match `q`, in order.
pub open spec fn matching_targets(chats: Seq<Chat>, q: Seq<char>) -> Seq<Chat>
    decreases chats.len(),
{
    if chats.len() == 0 {
        seq![]
    } else {
        let prev = matching_targets(chats.drop_last(), q);
        if forward_target_matches(chats.last(), q) {
            prev.push(chats.last())
        } else {
            prev
        }
    }
}

/// Chats offered as forward targets for a typed query: all of them for a
/// blank query, else those whose title (case-insensitively) or id contains it.
pub fn forward_filter(chats: &[Chat], query: &str) -> (r: Vec<Chat>)
    ensures
        lowercase(trim(query@)).len() == 0 ==> r@ == chats@,
        lowercase(trim(query@)).len() > 0 ==> r@ == matching_targets(chats@, lowercase(trim(query@))),
{
    let trimmed = string_from_chars(trim_chars(chars_of(query).as_slice()).as_slice());
    let q_str = to_lowercase(trimmed.as_str());
    let q = chars_of(q_str.as_str());
    let n = chats.len();
    let mut out: Vec<Chat> = Vec::new();
    let mut i: usize = 0;
    if q.len() == 0 {
        while i < n
            invariant
                n == chats@.len(),
                i <= n,
                out@ == chats@.take(i as int),
            decreases n - i,
        {
            out.push(chats[i].clone());
            i = i + 1;
            assert(out@ == chats@.take(i as int));
        }
        assert(chats@.take(n as int) == chats@);
        return out;
    }
    while i < n
        invariant
            n == chats@.len(),
            i <= n,
            q@ == lowercase(trim(query@)),
            out@ == matching_targets(chats@.take(i as int), q@),
        decreases n - i,
    {
        let c = &chats[i];
        let title_lower = to_lowercase(c.title.as_str());
        let id_text = crate::text::i64_to_string(c.id);
        let hit = contains_seq(chars_of(title_lower.as_str()).as_slice(), q.as_slice())
            || contains_seq(chars_of(id_text.as_str()).as_slice(), q.as_slice());
        proof {
            assert(chats@.take(i + 1).drop_last() == chats@.take(i as int));
            assert(chats@.take(i + 1).last() == chats@[i as int]);
        }
        if hit {
            out.push(c.clone());
        }
        i = i + 1;
    }
    assert(chats@.take(n as int) == chats@);
    out
}

/// `SystemTime::now().duration_since(UNIX_EPOCH)` in whole seconds, `None`
/// when the clock reads a time before the epoch. The reading depends on the
/// clock, so nothing is stated of the value.
#[verifier::external_body]
fn seconds_since_epoch() -> (r: Option<u64>) {
    match std::time::SystemTime::now().duration_since(std::time::UNIX_EPOCH) {
        Ok(d) => Some(d.as_secs()),
        Err(_) => None,
    }
}

/// A number below 100 written with two digits (as `{:02}`).
pub open spec fn two_digits(n: int) -> Seq<char> {
    if n < 10 {
        seq!['0'] + nat_digits(n as nat)
    } else {
        nat_digits(n as nat)
    }
}

/// Label for a message time `ts` seen at time `now` (both Unix seconds):
/// empty for a future time, the UTC time of day as `HH:MM` within the last
/// 24 hours, otherwise the age in whole days as `Nd ago`.
pub open spec fn time_label(ts: int, now: int) -> Seq<char> {
    if now < ts {
        seq![]
    } else if (now - ts) / 3600 < 24 {
        two_digits((ts % 86400) / 3600 % 24) + seq![':'] + two_digits((ts % 3600) / 60)
    } else {
        nat_digits((((now - ts) / 3600) / 24) as nat) + "d ago"@
    }
}

fn push_two_digits(out: &mut String, n: u64)
    requires
        n < 100,
    ensures
        final(out)@ == old(out)@ + two_digits(n as int),
{
    if n < 10 {
        push_char(out, '0');
        push_u64_digits(out, n);
        assert(old(out)@.push('0') + nat_digits(n as nat) == old(out)@ + (seq!['0'] + nat_digits(n as nat)));
    } else {
        push_u64_digits(out, n);
    }
}

/// Formats a message time relative to `now` (see [`time_label`]).
pub fn format_timestamp_at(timestamp: i64, now: u64) -> (r: String)
    requires
        timestamp >= 0,
    ensures
        r@ == time_label(timestamp as int, now as int),
{
    let ts = timestamp as u64;
    if now < ts {
        return String::new();
    }
    let hours = (now - ts) / 3600;
    let mut out = String::new();
    if hours < 24 {
        let secs = ts % 86400;
        let h = (secs / 3600) % 24;
        let m = (secs % 3600) / 60;
        push_two_digits(&mut out, h);
        push_char(&mut out, ':');
        push_two_digits(&mut out, m);
        assert(ts % 3600 == (ts % 86400) % 3600) by (nonlinear_arith);
    } else {
        push_u64_digits(&mut out, hours / 24);
        push_str(&mut out, "d ago");
    }
    out
}

/// Formats a message time for the chat list relative to the current time.
pub fn format_timestamp(timestamp: i64) -> (r: String)
    requires
        timestamp >= 0,
    ensures
        r@.len() == 0 || exists|now: int| now >= timestamp && r@ == time_label(timestamp as int, now),
{
    match seconds_since_epoch() {
        Some(now) => format_timestamp_at(timestamp, now),
        None => String::new(),
    }
}


/// A truncated string never exceeds the limit once the limit leaves room for
/// the "..." mark, and a string within the limit comes back unchanged.
pub proof fn lemma_truncated_fits(s: Seq<char>, max_len: int)
    ensures
        max_len >= 3 ==> truncated(s, max_len).len() <= max_len,
        s.len() <= max_len ==> truncated(s, max_len) == s,
        s.len() > max_len >= 3 ==> truncated(s, max_len).len() == max_len && truncated(s, max_len).take(max_len - 3) == s.take(max_len - 3),
{
    reveal_strlit("...");
    if s.len() > max_len >= 3 {
        assert(truncated(s, max_len).take(max_len - 3) =~= s.take(max_len - 3));
    }
}


/// Within the last 24 hours a message time reads as a 24-hour clock:
/// `HH:MM` with `HH` the hour of the UTC day (0 to 23) and `MM` the minute
/// of the hour, two digits each; a day or more ago it reads as the number of
/// whole days followed by "d ago"; a time still to come reads as nothing.
pub proof fn lemma_time_label_clock(ts: i64, now: u64)
    requires
        ts >= 0,
    ensures
        now < ts ==> time_label(ts as int, now as int).len() == 0,
        ts <= now < ts + 86400 ==> {
            let h = (ts as int % 86400) / 3600;
            let m = (ts as int % 3600) / 60;
            &&& 0 <= h <= 23 && 0 <= m <= 59
            &&& time_label(ts as int, now as int) == two_digits(h) + seq![':'] + two_digits(m)
            &&& time_label(ts as int, now as int).len() == 5
        },
        now >= ts + 86400 ==> time_label(ts as int, now as int) == nat_digits(((now - ts) / 86400) as nat) + "d ago"@,
{
    let t = ts as int;
    let h = (t % 86400) / 3600;
    assert(t % 3600 == (t % 86400) % 3600) by (nonlinear_arith)
        requires t >= 0;
    if ts <= now < ts + 86400 {
        assert((now - t) / 3600 < 24) by (nonlinear_arith)
            requires 0 <= now - t < 86400;
        assert(0 <= h <= 23) by (nonlinear_arith)
            requires h == (t % 86400) / 3600, t >= 0;
        assert(h % 24 == h);
        assert(two_digits(h).len() == 2) by {
            lemma_two_digits_len(h);
        }
        assert(two_digits((t % 3600) / 60).len() == 2) by {
            lemma_two_digits_len((t % 3600) / 60);
        }
    }
    if now >= ts + 86400 {
        assert((now - t) / 3600 >= 24) by (nonlinear_arith)
            requires now - t >= 86400;
        assert(((now - t) / 3600) / 24 == (now - t) / 86400) by (nonlinear_arith)
            requires now - t >= 0;
    }
}

proof fn lemma_two_digits_len(n: int)
    requires
        0 <= n < 100,
    ensures
        two_digits(n).len() == 2,
{
    if n < 10 {
        assert(nat_digits(n as nat).len() == 1);
    } else {
        assert(nat_digits(n as nat) == nat_digits((n / 10) as nat).push(crate::text::digit_char(n % 10)));
        assert(nat_digits((n / 10) as nat).len() == 1);
    }
}

} // verus!
