//! Update-loop transitions for typing in the token field and the message
//! input, and for submitting a message.

use vstd::prelude::*;
use crate::text::{chars_of, string_of, string_from_chars, push_str};
use crate::input::{insert_char_at, remove_char_at, delete_word, inserted, removed, word_start};
use crate::models::{AttachmentInfo, AttachmentKind, ChatMessage, DeliveryStatus, ReplyPreview};
use crate::format::{SendCommand, parse_send_command, send_command_of};
use crate::app_state::{App, Screen, Focus, Mode, AsyncAction, Message, status_is, set_status, within_limits};

verus! {

broadcast use vstd::string::group_string_axioms;

/// Which text field typing goes to: the token field on the authorization
/// screen, the message input when it is focused on the main screen.
pub open spec fn typing_target(app: App) -> int {
    if app.screen == Screen::Auth { 1 } else if app.focus == Focus::Input { 2 } else { 0 }
}

/// A character typed at the cursor of the active field, the cursor moving
/// past it.
pub open spec fn input_char_done(old: App, new: App, c: char) -> bool {
    if typing_target(old) == 1 {
        &&& new == (App { token_input: new.token_input, token_cursor: (old.token_cursor + 1) as usize, ..old })
        &&& new.token_input@ == if old.token_cursor <= old.token_input@.len() {
            inserted(old.token_input@, old.token_cursor as int, c)
        } else {
            old.token_input@.push(c)
        }
    } else if typing_target(old) == 2 {
        &&& new == (App { input: new.input, input_cursor: (old.input_cursor + 1) as usize, ..old })
        &&& new.input@ == if old.input_cursor <= old.input@.len() {
            inserted(old.input@, old.input_cursor as int, c)
        } else {
            old.input@.push(c)
        }
    } else {
        new == old
    }
}

/// Types a character.
pub fn on_input_char(app: &mut App, c: char)
    requires
        within_limits(*old(app)),
    ensures
        input_char_done(*old(app), *final(app), c),
{
    if app.screen == Screen::Auth {
        insert_char_at(&mut app.token_input, app.token_cursor, c);
        app.token_cursor = app.token_cursor + 1;
    } else if app.focus == Focus::Input {
        insert_char_at(&mut app.input, app.input_cursor, c);
        app.input_cursor = app.input_cursor + 1;
    }
}

/// Backspace removes the character before the cursor of the active field.
pub open spec fn input_backspace_done(old: App, new: App) -> bool {
    if typing_target(old) == 1 && old.token_cursor > 0 {
        let p = old.token_cursor - 1;
        &&& new == (App { token_input: new.token_input, token_cursor: p as usize, ..old })
        &&& new.token_input@ == if p < old.token_input@.len() { removed(old.token_input@, p) } else { old.token_input@ }
    } else if typing_target(old) == 2 && old.input_cursor > 0 {
        let p = old.input_cursor - 1;
        &&& new == (App { input: new.input, input_cursor: p as usize, ..old })
        &&& new.input@ == if p < old.input@.len() { removed(old.input@, p) } else { old.input@ }
    } else {
        new == old
    }
}

/// Deletes the character before the cursor.
pub fn on_input_backspace(app: &mut App)
    ensures
        input_backspace_done(*old(app), *final(app)),
{
    if app.screen == Screen::Auth {
        if app.token_cursor > 0 {
            app.token_cursor = app.token_cursor - 1;
            remove_char_at(&mut app.token_input, app.token_cursor);
        }
    } else if app.focus == Focus::Input {
        if app.input_cursor > 0 {
            app.input_cursor = app.input_cursor - 1;
            remove_char_at(&mut app.input, app.input_cursor);
        }
    }
}

/// The effect of deleting the previous word of `s` at `cursor`.
pub open spec fn word_deleted(s: Seq<char>, cursor: int, new_s: Seq<char>, new_cursor: int) -> bool {
    if cursor <= s.len() {
        new_cursor == word_start(s, cursor) && new_s == s.take(new_cursor) + s.skip(cursor)
    } else {
        new_cursor == cursor && new_s == s
    }
}

/// Ctrl+W deletes the previous word of the active field.
pub open spec fn input_delete_word_done(old: App, new: App) -> bool {
    if typing_target(old) == 1 {
        &&& new == (App { token_input: new.token_input, token_cursor: new.token_cursor, ..old })
        &&& word_deleted(old.token_input@, old.token_cursor as int, new.token_input@, new.token_cursor as int)
    } else if typing_target(old) == 2 {
        &&& new == (App { input: new.input, input_cursor: new.input_cursor, ..old })
        &&& word_deleted(old.input@, old.input_cursor as int, new.input@, new.input_cursor as int)
    } else {
        new == old
    }
}

/// Deletes the previous word.
pub fn on_input_delete_word(app: &mut App)
    ensures
        input_delete_word_done(*old(app), *final(app)),
{
    if app.screen == Screen::Auth {
        delete_word(&mut app.token_input, &mut app.token_cursor);
    } else if app.focus == Focus::Input {
        delete_word(&mut app.input, &mut app.input_cursor);
    }
}

/// The final component of a path, as `Path::file_name` gives it.
pub uninterp spec fn file_name_of(path: Seq<char>) -> Option<Seq<char>>;

/// `std::path::Path::file_name` of a path given as text.
#[verifier::external_body]
pub(crate) fn path_file_name(path: &str) -> (r: Option<String>)
    ensures
        match file_name_of(path@) {
            Some(n) => r matches Some(s) && s@ == n,
            None => r is None,
        },
{
    std::path::Path::new(path).file_name().and_then(|n| n.to_str()).map(|s| s.to_string())
}

/// A path's file name, or `default` when it has none.
pub open spec fn file_title(path: Seq<char>, default: Seq<char>) -> Seq<char> {
    match file_name_of(path) {
        Some(n) => n,
        None => default,
    }
}

fn title_of(path: &str, default: &str) -> (r: String)
    ensures
        r@ == file_title(path@, default@),
{
    match path_file_name(path) {
        Some(n) => n,
        None => string_of(default),
    }
}

/// `m` is the pending placeholder for an outgoing message with `text`,
/// shown until the send completes.
pub open spec fn is_placeholder(m: ChatMessage, app: App, text: Seq<char>, now: i64) -> bool {
    &&& m.id == 0 && m.cmid is None
    &&& m.from_id == match app.auth.token { Some(t) => t.user_id, None => 0 }
    &&& m.from_name@ == "You"@
    &&& m.text@ == text
    &&& m.timestamp == now
    &&& m.is_outgoing && !m.is_read && !m.is_edited && !m.is_pinned
    &&& m.delivery == DeliveryStatus::Pending
    &&& m.forwards@.len() == 0
}

pub(crate) fn placeholder(app: &App, text: String, now: i64) -> (m: ChatMessage)
    ensures
        is_placeholder(m, *app, text@, now),
        m.attachments@.len() == 0,
        m.reply is None,
        m.fwd_count == 0,
{
    ChatMessage {
        id: 0,
        cmid: None,
        from_id: match app.auth.user_id() { Some(u) => u, None => 0 },
        from_name: string_of("You"),
        text,
        timestamp: now,
        is_outgoing: true,
        is_read: false,
        is_edited: false,
        is_pinned: false,
        delivery: DeliveryStatus::Pending,
        attachments: Vec::new(),
        reply: None,
        fwd_count: 0,
        forwards: Vec::new(),
    }
}

/// After a placeholder for a file or image at `path` (kind `photo`) was added.
pub open spec fn file_placeholder_done(old: App, new: App, peer: i64, path: Seq<char>, photo: bool, now: i64) -> bool {
    let title = file_title(path, if photo { "image"@ } else { "file"@ });
    let m = new.messages@.last();
    &&& new == (App { messages: new.messages, messages_scroll: (new.messages@.len() - 1) as usize, input: new.input, input_cursor: 0, actions: new.actions, ..old })
    &&& new.messages@.len() == old.messages@.len() + 1
    &&& new.messages@.drop_last() =~= old.messages@
    &&& is_placeholder(m, old, (if photo { "[image] "@ } else { "[file] "@ }) + title, now)
    &&& m.attachments@.len() == 1
    &&& m.attachments@[0].kind == (if photo { AttachmentKind::Photo } else { AttachmentKind::Doc })
    &&& m.attachments@[0].title@ == title
    &&& m.attachments@[0].url is None && m.attachments@[0].size is None && m.attachments@[0].subtitle is None
    &&& m.reply is None && m.fwd_count == 0
    &&& new.input@.len() == 0
    &&& new.actions@.len() == old.actions@.len() + 1
    &&& new.actions@.drop_last() =~= old.actions@
    &&& if photo {
        new.actions@.last() matches AsyncAction::SendPhoto(p, s) && p == peer && s@ == path
    } else {
        new.actions@.last() matches AsyncAction::SendDoc(p, s) && p == peer && s@ == path
    }
}

/// Shows a pending file or image message and asks for the upload.
pub fn send_file_placeholder(app: &mut App, peer_id: i64, path: String, photo: bool, now: i64)
    requires
        old(app).messages@.len() < usize::MAX,
    ensures
        file_placeholder_done(*old(app), *final(app), peer_id, path@, photo, now),
{
    let title = title_of(path.as_str(), if photo { "image" } else { "file" });
    let mut text = string_of(if photo { "[image] " } else { "[file] " });
    push_str(&mut text, title.as_str());
    let mut m = placeholder(app, text, now);
    m.attachments.push(AttachmentInfo {
        kind: if photo { AttachmentKind::Photo } else { AttachmentKind::Doc },
        title,
        url: None,
        size: None,
        subtitle: None,
    });
    app.messages.push(m);
    app.messages_scroll = app.messages.len() - 1;
    app.input = String::new();
    app.input_cursor = 0;
    let ghost path_view = path@;
    if photo {
        app.send_action(AsyncAction::SendPhoto(peer_id, path));
    } else {
        app.send_action(AsyncAction::SendDoc(peer_id, path));
    }
}

/// What a slash command in the input does.
pub open spec fn send_command_done(old: App, new: App, peer: i64, kind: int, arg: Seq<char>, now: i64) -> bool {
    if kind == 0 {
        file_placeholder_done(old, new, peer, arg, false, now)
    } else if kind == 1 {
        file_placeholder_done(old, new, peer, arg, true, now)
    } else {
        &&& new == (App { actions: new.actions, ..old })
        &&& new.actions@ == old.actions@.push(AsyncAction::ReadClipboardImage(peer))
    }
}

/// Runs `/sendfile`, `/sendimg` or `/sendimg --clipboard`.
pub fn handle_send_command(app: &mut App, peer_id: i64, cmd: SendCommand, now: i64) -> (r: Option<Message>)
    requires
        old(app).messages@.len() < usize::MAX,
    ensures
        r is None,
        match cmd {
            SendCommand::File(p) => send_command_done(*old(app), *final(app), peer_id, 0, p@, now),
            SendCommand::Image(p) => send_command_done(*old(app), *final(app), peer_id, 1, p@, now),
            SendCommand::ImageClipboard => send_command_done(*old(app), *final(app), peer_id, 2, seq![], now),
        },
{
    match cmd {
        SendCommand::File(path) => send_file_placeholder(app, peer_id, path, false, now),
        SendCommand::Image(path) => send_file_placeholder(app, peer_id, path, true, now),
        SendCommand::ImageClipboard => app.send_action(AsyncAction::ReadClipboardImage(peer_id)),
    }
    None
}

/// The clipboard image was saved to `result` (a path) for `peer`: it is sent
/// like `/sendimg` with "clipboard.png" as the fallback title; on failure the
/// error is shown.
pub open spec fn clipboard_done(old: App, new: App, peer: i64, result: Result<String, String>, now: i64) -> bool {
    match result {
        Ok(path) => {
            let title = file_title(path@, "clipboard.png"@);
            &&& new == (App { messages: new.messages, messages_scroll: (new.messages@.len() - 1) as usize, input: new.input, input_cursor: 0, actions: new.actions, ..old })
            &&& new.messages@.len() == old.messages@.len() + 1
            &&& new.messages@.drop_last() =~= old.messages@
            &&& is_placeholder(new.messages@.last(), old, "[image] "@ + title, now)
            &&& new.messages@.last().attachments@.len() == 1
            &&& new.messages@.last().attachments@[0].kind == AttachmentKind::Photo
            &&& new.messages@.last().attachments@[0].title@ == title
            &&& new.input@.len() == 0
            &&& new.actions@.len() == old.actions@.len() + 1
            &&& new.actions@.drop_last() =~= old.actions@
            &&& new.actions@.last() matches AsyncAction::SendPhoto(p, s) && p == peer && s@ == path@
        },
        Err(e) => {
            &&& new == (App { status: new.status, ..old })
            &&& status_is(new, "Clipboard image error: "@ + e@)
        },
    }
}

/// Handles the saved clipboard image.
pub fn on_clipboard_image(app: &mut App, peer_id: i64, result: Result<String, String>, now: i64)
    requires
        old(app).messages@.len() < usize::MAX,
    ensures
        clipboard_done(*old(app), *final(app), peer_id, result, now),
{
    match result {
        Ok(path) => {
            let title = title_of(path.as_str(), "clipboard.png");
            let mut text = string_of("[image] ");
            push_str(&mut text, title.as_str());
            let mut m = placeholder(app, text, now);
            m.attachments.push(AttachmentInfo { kind: AttachmentKind::Photo, title, url: None, size: None, subtitle: None });
            app.messages.push(m);
            app.messages_scroll = app.messages.len() - 1;
            app.input = String::new();
            app.input_cursor = 0;
            app.send_action(AsyncAction::SendPhoto(peer_id, path));
        },
        Err(e) => {
            let mut text = string_of("Clipboard image error: ");
            push_str(&mut text, e.as_str());
            app.status = Some(text);
        },
    }
}

/// Replaces the text of the message at `idx`.
fn set_message_text(messages: &mut Vec<ChatMessage>, idx: usize, text: String)
    requires
        idx < old(messages)@.len(),
    ensures
        final(messages)@.len() == old(messages)@.len(),
        final(messages)@[idx as int] == (ChatMessage { text, ..old(messages)@[idx as int] }),
        forall|k: int| 0 <= k < old(messages)@.len() && k != idx ==> final(messages)@[k] == old(messages)@[k],
{
    let mut m = messages.remove(idx);
    m.text = text;
    messages.insert(idx, m);
}

/// Submitting the message input on the main screen. Nothing happens for an
/// empty input; without a chat the user is told so. While editing, the
/// edited text replaces the message's text and the edit is sent (unless the
/// message has no id yet). A slash command is run. Otherwise the text is
/// sent: as a reply (with a pending placeholder) when replying.
pub open spec fn submit_done(old: App, new: App, now: i64) -> bool {
    if old.input@.len() == 0 {
        new == old
    } else if old.current_peer_id is None {
        new == (App { status: new.status, ..old }) && status_is(new, "No chat selected"@)
    } else if old.editing_message is Some {
        let idx = old.editing_message->0;
        let peer = old.current_peer_id->0;
        if idx >= old.messages@.len() {
            new == (App { editing_message: None, ..old })
        } else if old.messages@[idx as int].id == 0 {
            &&& new == (App { editing_message: None, status: new.status, ..old })
            &&& status_is(new, "Cannot edit message that is not sent yet"@)
        } else {
            let m = old.messages@[idx as int];
            &&& new == (App { input: new.input, input_cursor: 0, mode: Mode::Normal, editing_message: None, status: new.status, messages: new.messages, actions: new.actions, ..old })
            &&& new.input@.len() == 0
            &&& status_is(new, "Editing..."@)
            &&& new.messages@.len() == old.messages@.len()
            &&& new.messages@[idx as int] == (ChatMessage { text: new.messages@[idx as int].text, ..m })
            &&& new.messages@[idx as int].text@ == old.input@
            &&& forall|k: int| 0 <= k < old.messages@.len() && k != idx ==> new.messages@[k] == old.messages@[k]
            &&& new.actions@.len() == old.actions@.len() + 1 && new.actions@.drop_last() =~= old.actions@
            &&& new.actions@.last() matches AsyncAction::EditMessage(p, id, cmid, t) && p == peer && id == m.id && cmid == m.cmid && t@ == old.input@
        }
    } else if send_command_of(old.input@) is Some {
        let (kind, arg) = send_command_of(old.input@)->0;
        send_command_done(old, new, old.current_peer_id->0, kind, arg, now)
    } else {
        let peer = old.current_peer_id->0;
        &&& new.input@.len() == 0
        &&& status_is(new, "Sending..."@)
        &&& new.actions@.len() == old.actions@.len() + 1 && new.actions@.drop_last() =~= old.actions@
        &&& match old.reply_to {
            Some((rid, preview)) => {
                &&& new == (App { input: new.input, input_cursor: 0, mode: Mode::Normal, status: new.status, reply_to: None, messages: new.messages, messages_scroll: (new.messages@.len() - 1) as usize, actions: new.actions, ..old })
                &&& new.messages@.len() == old.messages@.len() + 1 && new.messages@.drop_last() =~= old.messages@
                &&& is_placeholder(new.messages@.last(), old, old.input@, now)
                &&& new.messages@.last().reply == Some(preview)
                &&& new.messages@.last().attachments@.len() == 0 && new.messages@.last().fwd_count == 0
                &&& new.actions@.last() matches AsyncAction::SendReply(p, r, t) && p == peer && r == rid && t@ == old.input@
            },
            None => {
                &&& new == (App { input: new.input, input_cursor: 0, mode: Mode::Normal, status: new.status, actions: new.actions, ..old })
                &&& new.actions@.last() matches AsyncAction::SendMessage(p, t) && p == peer && t@ == old.input@
            },
        }
    }
}

/// Enter in the message input (main screen, input focused).
pub fn on_submit_message(app: &mut App, now: i64) -> (r: Option<Message>)
    requires
        old(app).messages@.len() < usize::MAX,
    ensures
        r is None,
        submit_done(*old(app), *final(app), now),
{
    if chars_of(app.input.as_str()).len() == 0 {
        return None;
    }
    let peer_id = match app.current_peer_id {
        Some(id) => id,
        None => {
            set_status(app, "No chat selected");
            return None;
        },
    };
    match app.editing_message {
        Some(idx) => {
            if idx >= app.messages.len() {
                app.editing_message = None;
                return None;
            }
            let message_id = app.messages[idx].id;
            let cmid = app.messages[idx].cmid;
            if message_id == 0 {
                set_status(app, "Cannot edit message that is not sent yet");
                app.editing_message = None;
                return None;
            }
            let mut text = String::new();
            std::mem::swap(&mut text, &mut app.input);
            app.input_cursor = 0;
            app.mode = Mode::Normal;
            app.editing_message = None;
            set_status(app, "Editing...");
            set_message_text(&mut app.messages, idx, text.clone());
            app.send_action(AsyncAction::EditMessage(peer_id, message_id, cmid, text));
            return None;
        },
        None => {},
    }
    match parse_send_command(app.input.as_str()) {
        Some(cmd) => {
            return handle_send_command(app, peer_id, cmd, now);
        },
        None => {},
    }
    let mut text = String::new();
    std::mem::swap(&mut text, &mut app.input);
    app.input_cursor = 0;
    app.mode = Mode::Normal;
    set_status(app, "Sending...");
    let mut reply = None;
    std::mem::swap(&mut reply, &mut app.reply_to);
    match reply {
        Some((reply_id, preview)) => {
            let mut m = placeholder(app, text.clone(), now);
            m.reply = Some(preview);
            app.messages.push(m);
            app.messages_scroll = app.messages.len() - 1;
            app.send_action(AsyncAction::SendReply(peer_id, reply_id, text));
        },
        None => {
            app.send_action(AsyncAction::SendMessage(peer_id, text));
        },
    }
    None
}

/// Typing a character and then pressing backspace leaves the active field
/// (the token field on the authorization screen, the message input when it
/// is focused) and its cursor as they were, for a cursor within the text;
/// nothing else changes.
pub proof fn lemma_type_then_backspace(a: App, b: App, d: App, c: char)
    requires
        typing_target(a) == 1 ==> a.token_cursor <= a.token_input@.len() && a.token_cursor < usize::MAX,
        typing_target(a) == 2 ==> a.input_cursor <= a.input@.len() && a.input_cursor < usize::MAX,
        input_char_done(a, b, c),
        input_backspace_done(b, d),
    ensures
        d.token_input@ == a.token_input@ && d.token_cursor == a.token_cursor,
        d.input@ == a.input@ && d.input_cursor == a.input_cursor,
        d == (App { token_input: d.token_input, input: d.input, ..a }),
{
    if typing_target(a) == 1 {
        crate::input::lemma_insert_remove(a.token_input@, a.token_cursor as int, c);
    } else if typing_target(a) == 2 {
        crate::input::lemma_insert_remove(a.input@, a.input_cursor as int, c);
    }
}

} // verus!
