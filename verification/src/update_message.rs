//! Update-loop transitions for opening a chat, signing in, opening links and
//! acting on the highlighted message (reply, edit, delete, copy, pin, view
//! forwarded content).

use vstd::prelude::*;
use crate::text::{chars_of, string_of, push_str, push_i64, decimal};
use crate::models::{Chat, ChatMessage, ReplyPreview};
use crate::forwards::{clone_attachments, clone_forwards, same_forwards, forward_count, forwards_len};
use crate::format::{truncate_str, truncated, first_url, first_link, first_attachment_url};
use crate::auth::{AuthManager, TokenData, parse_token_url, token_of_url, auth_url};
use crate::pagination::{ChatsPagination, MessagesPagination};
use crate::app_state::{App, Screen, Focus, Mode, AsyncAction, ForwardView, status_is, set_status, visible_chat};
use crate::update_command::status_only;

verus! {

broadcast use vstd::string::group_string_axioms;

/// `new` is `old` with `a` queued.
pub open spec fn queued(old: App, new: App, a: AsyncAction) -> bool {
    new.actions@ == old.actions@.push(a)
}

/// Opening chat `c`: the filter closes, the chat's first page is requested
/// and it is marked as read, and the messages panel takes the focus.
pub open spec fn chat_opened(old: App, new: App, c: Chat) -> bool {
    &&& new == (App {
        chat_filter: None,
        current_peer_id: Some(c.id),
        messages: new.messages,
        is_loading: true,
        messages_pagination: Some(MessagesPagination {
            peer_id: c.id,
            offset: 0,
            total_count: None,
            is_loading: true,
            has_more: true,
            first_cmid: None,
            last_cmid: None,
        }),
        actions: new.actions,
        status: new.status,
        focus: Focus::Messages,
        ..old
    })
    &&& new.messages@.len() == 0
    &&& new.actions@ == old.actions@ + seq![AsyncAction::LoadMessages(c.id, 0), AsyncAction::MarkAsRead(c.id)]
    &&& status_is(new, "Loading chat: "@ + c.title@)
}

/// Enter: on the authorization screen the pasted URL's token is handed on
/// to be stored (or the failure shown); on the chat list the highlighted
/// chat opens.
pub open spec fn select_done(old: App, new: App) -> bool {
    if old.screen == Screen::Auth {
        match token_of_url(old.token_input@) {
            Ok((tok, uid, exp)) => {
                &&& new == (App { actions: new.actions, ..old })
                &&& new.actions@.len() == old.actions@.len() + 1
                &&& new.actions@.drop_last() =~= old.actions@
                &&& new.actions@.last() matches AsyncAction::SaveToken(p)
                &&& p.access_token@ == tok && p.user_id as int == uid
                &&& match exp { Some(e) => p.expires_in == Some(e as i64), None => p.expires_in is None }
            },
            Err(_) => status_only(old, new, "Failed to parse token from URL"@),
        }
    } else if old.screen == Screen::Main && old.focus == Focus::ChatList {
        match visible_chat(old) {
            Some(c) => chat_opened(old, new, c),
            None => new == old,
        }
    } else {
        new == old
    }
}

/// Enter.
pub fn on_select(app: &mut App)
    ensures
        select_done(*old(app), *final(app)),
{
    if app.screen == Screen::Auth {
        match parse_token_url(app.token_input.as_str()) {
            Ok(p) => {
                app.send_action(AsyncAction::SaveToken(p));
            },
            Err(_) => {
                set_status(app, "Failed to parse token from URL");
            },
        }
    } else if app.screen == Screen::Main && app.focus == Focus::ChatList {
        let picked = match app.current_chat() {
            Some(chat) => Some((chat.id, chat.title.clone())),
            None => None,
        };
        match picked {
            Some((peer_id, title)) => {
                app.chat_filter = None;
                app.current_peer_id = Some(peer_id);
                app.messages = Vec::new();
                app.is_loading = true;
                let mut pagination = MessagesPagination::new(peer_id);
                pagination.is_loading = true;
                app.messages_pagination = Some(pagination);
                let ghost before = app.actions@;
                app.send_action(AsyncAction::LoadMessages(peer_id, 0));
                app.send_action(AsyncAction::MarkAsRead(peer_id));
                assert(app.actions@ =~= before + seq![AsyncAction::LoadMessages(peer_id, 0), AsyncAction::MarkAsRead(peer_id)]);
                let mut text = string_of("Loading chat: ");
                push_str(&mut text, title.as_str());
                app.status = Some(text);
                app.focus = Focus::Messages;
            },
            None => {},
        }
    }
}

/// The token was stored: the session starts on the main screen and the
/// first page of chats and the long poll are requested. A failure to store
/// it is reported as a failure to read it.
pub open spec fn token_saved_done(old: App, new: App, result: Result<TokenData, String>) -> bool {
    match result {
        Ok(t) => {
            &&& new == (App {
                auth: AuthManager { token: Some(t), ..old.auth },
                has_client: true,
                screen: Screen::Main,
                status: new.status,
                chats_pagination: ChatsPagination { offset: 0, total_count: None, is_loading: true, has_more: false },
                actions: new.actions,
                ..old
            })
            &&& status_is(new, "Authenticated successfully"@)
            &&& new.actions@ == old.actions@ + seq![AsyncAction::LoadConversations(0), AsyncAction::StartLongPoll]
        },
        Err(_) => status_only(old, new, "Failed to parse token from URL"@),
    }
}

/// Handles the outcome of storing the token.
pub fn on_token_saved(app: &mut App, result: Result<TokenData, String>)
    ensures
        token_saved_done(*old(app), *final(app), result),
{
    match result {
        Ok(t) => {
            app.auth.token = Some(t);
            app.has_client = true;
            app.screen = Screen::Main;
            set_status(app, "Authenticated successfully");
            let mut pagination = ChatsPagination::default();
            pagination.is_loading = true;
            app.chats_pagination = pagination;
            let ghost before = app.actions@;
            app.send_action(AsyncAction::LoadConversations(0));
            app.send_action(AsyncAction::StartLongPoll);
            assert(app.actions@ =~= before + seq![AsyncAction::LoadConversations(0), AsyncAction::StartLongPoll]);
        },
        Err(_) => {
            set_status(app, "Failed to parse token from URL");
        },
    }
}

/// On the authorization screen the OAuth page is to be opened in the browser.
pub open spec fn open_auth_url_done(old: App, new: App) -> bool {
    if old.screen == Screen::Auth {
        &&& new == (App { actions: new.actions, ..old })
        &&& new.actions@.len() == old.actions@.len() + 1
        &&& new.actions@.drop_last() =~= old.actions@
        &&& new.actions@.last() matches AsyncAction::OpenAuthUrl(u) && u@ == auth_url()
    } else {
        new == old
    }
}

/// Asks for the OAuth page to be opened.
pub fn on_open_auth_url(app: &mut App)
    ensures
        open_auth_url_done(*old(app), *final(app)),
{
    if app.screen == Screen::Auth {
        let url = app.auth_url();
        app.send_action(AsyncAction::OpenAuthUrl(url));
    }
}

/// The status after trying to open the OAuth page.
pub open spec fn auth_url_opened_text(error: Option<String>) -> Seq<char> {
    match error {
        Some(e) => "Failed to open browser: "@ + e@,
        None => "Opened in browser. Authorize and paste the redirect URL."@,
    }
}

/// Reports whether the browser opened the OAuth page.
pub fn on_auth_url_opened(app: &mut App, error: Option<String>)
    ensures
        status_only(*old(app), *final(app), auth_url_opened_text(error)),
{
    match error {
        Some(e) => {
            let mut text = string_of("Failed to open browser: ");
            push_str(&mut text, e.as_str());
            app.status = Some(text);
        },
        None => set_status(app, "Opened in browser. Authorize and paste the redirect URL."),
    }
}

/// The messages panel of the main screen is focused on a message.
pub open spec fn acting_on_message(app: App) -> bool {
    app.screen == Screen::Main && app.focus == Focus::Messages && app.messages_scroll < app.messages@.len()
}

/// The highlighted message.
pub open spec fn highlighted(app: App) -> ChatMessage {
    app.messages@[app.messages_scroll as int]
}

/// The link to open for a message: the first link in its text, else the
/// first attachment URL.
pub open spec fn message_link(m: ChatMessage) -> Option<Seq<char>> {
    match first_link(m.text@) {
        Some(u) => Some(u),
        None => match first_attachment_url(m.attachments@, 0) {
            Some(s) => Some(s@),
            None => None,
        },
    }
}

/// Opening the highlighted message's link in the browser.
pub open spec fn open_link_done(old: App, new: App) -> bool {
    if acting_on_message(old) {
        match message_link(highlighted(old)) {
            Some(u) => {
                &&& new == (App { actions: new.actions, ..old })
                &&& new.actions@.len() == old.actions@.len() + 1
                &&& new.actions@.drop_last() =~= old.actions@
                &&& new.actions@.last() matches AsyncAction::OpenLink(s) && s@ == u
            },
            None => status_only(old, new, "No link in message"@),
        }
    } else {
        new == old
    }
}

/// Asks for the highlighted message's link to be opened.
pub fn on_open_link(app: &mut App)
    ensures
        open_link_done(*old(app), *final(app)),
{
    if app.screen == Screen::Main && app.focus == Focus::Messages && app.messages_scroll < app.messages.len() {
        match first_url(&app.messages[app.messages_scroll]) {
            Some(url) => app.send_action(AsyncAction::OpenLink(url)),
            None => set_status(app, "No link in message"),
        }
    }
}

/// The status after trying to open `url`.
pub open spec fn link_opened_text(url: Seq<char>, error: Option<String>) -> Seq<char> {
    match error {
        Some(e) => "Failed to open link: "@ + e@,
        None => "Opened "@ + url,
    }
}

/// Reports whether the browser opened a link.
pub fn on_link_opened(app: &mut App, url: String, error: Option<String>)
    ensures
        status_only(*old(app), *final(app), link_opened_text(url@, error)),
{
    match error {
        Some(e) => {
            let mut text = string_of("Failed to open link: ");
            push_str(&mut text, e.as_str());
            app.status = Some(text);
        },
        None => {
            let mut text = string_of("Opened ");
            push_str(&mut text, url.as_str());
            app.status = Some(text);
        },
    }
}

/// Replying to the highlighted message: a sent message becomes the reply
/// target (with a preview of it) and the input takes the focus.
pub open spec fn reply_done(old: App, new: App) -> bool {
    if acting_on_message(old) {
        let m = highlighted(old);
        if m.id == 0 {
            status_only(old, new, "Cannot reply to unsent message"@)
        } else {
            &&& new == (App { reply_to: new.reply_to, mode: Mode::Insert, focus: Focus::Input, status: new.status, ..old })
            &&& new.reply_to matches Some((id, p))
            &&& id == m.id
            &&& p.from@ == m.from_name@ && p.text@ == truncated(m.text@, 120) && p.attachments@ == m.attachments@
            &&& status_is(new, "Replying to "@ + m.from_name@ + " (Esc to cancel)"@)
        }
    } else {
        new == old
    }
}

/// Starts a reply to the highlighted message.
pub fn on_reply(app: &mut App)
    ensures
        reply_done(*old(app), *final(app)),
{
    if app.screen == Screen::Main && app.focus == Focus::Messages && app.messages_scroll < app.messages.len() {
        let m = &app.messages[app.messages_scroll];
        if m.id == 0 {
            set_status(app, "Cannot reply to unsent message");
        } else {
            let id = m.id;
            let preview = ReplyPreview {
                from: m.from_name.clone(),
                text: truncate_str(m.text.as_str(), 120),
                attachments: clone_attachments(&m.attachments),
            };
            let mut text = string_of("Replying to ");
            push_str(&mut text, m.from_name.as_str());
            push_str(&mut text, " (Esc to cancel)");
            app.reply_to = Some((id, preview));
            app.mode = Mode::Insert;
            app.focus = Focus::Input;
            app.status = Some(text);
        }
    }
}

/// Deleting the highlighted message: only a sent message of one's own, in
/// the open chat.
pub open spec fn delete_done(old: App, new: App) -> bool {
    if acting_on_message(old) {
        let m = highlighted(old);
        if !m.is_outgoing {
            status_only(old, new, "Can only delete your own messages"@)
        } else if m.id == 0 {
            status_only(old, new, "Cannot delete message that is not sent yet"@)
        } else {
            match old.current_peer_id {
                Some(p) => {
                    &&& new == (App { status: new.status, actions: new.actions, ..old })
                    &&& status_is(new, "Deleting message..."@)
                    &&& queued(old, new, AsyncAction::DeleteMessage(p, m.id, false))
                },
                None => new == old,
            }
        }
    } else {
        new == old
    }
}

/// Asks for the highlighted message to be deleted.
pub fn on_delete(app: &mut App)
    ensures
        delete_done(*old(app), *final(app)),
{
    if app.screen == Screen::Main && app.focus == Focus::Messages && app.messages_scroll < app.messages.len() {
        let outgoing = app.messages[app.messages_scroll].is_outgoing;
        let id = app.messages[app.messages_scroll].id;
        if !outgoing {
            set_status(app, "Can only delete your own messages");
        } else if id == 0 {
            set_status(app, "Cannot delete message that is not sent yet");
        } else {
            match app.current_peer_id {
                Some(peer_id) => {
                    set_status(app, "Deleting message...");
                    app.send_action(AsyncAction::DeleteMessage(peer_id, id, false));
                },
                None => {},
            }
        }
    }
}

/// Editing the highlighted message: one's own message's text goes into the
/// input, with the cursor at its end.
pub open spec fn edit_done(old: App, new: App) -> bool {
    if acting_on_message(old) {
        let m = highlighted(old);
        if !m.is_outgoing {
            status_only(old, new, "Can only edit your own messages"@)
        } else {
            &&& new == (App {
                input: new.input,
                input_cursor: m.text@.len() as usize,
                editing_message: Some(old.messages_scroll),
                mode: Mode::Insert,
                focus: Focus::Input,
                status: new.status,
                ..old
            })
            &&& new.input@ == m.text@
            &&& status_is(new, "Editing message (not yet saved)"@)
        }
    } else {
        new == old
    }
}

/// Starts editing the highlighted message.
pub fn on_edit(app: &mut App)
    ensures
        edit_done(*old(app), *final(app)),
{
    if app.screen == Screen::Main && app.focus == Focus::Messages && app.messages_scroll < app.messages.len() {
        if !app.messages[app.messages_scroll].is_outgoing {
            set_status(app, "Can only edit your own messages");
        } else {
            let text = app.messages[app.messages_scroll].text.clone();
            let n = chars_of(text.as_str()).len();
            app.input = text;
            app.input_cursor = n;
            app.editing_message = Some(app.messages_scroll);
            app.mode = Mode::Insert;
            app.focus = Focus::Input;
            set_status(app, "Editing message (not yet saved)");
        }
    }
}

/// Copying the highlighted message shows its text, cut to 50 characters.
pub open spec fn yank_done(old: App, new: App) -> bool {
    if acting_on_message(old) {
        status_only(old, new, "Copied: "@ + truncated(highlighted(old).text@, 50))
    } else {
        new == old
    }
}

/// Copies the highlighted message.
pub fn on_yank(app: &mut App)
    ensures
        yank_done(*old(app), *final(app)),
{
    if app.screen == Screen::Main && app.focus == Focus::Messages && app.messages_scroll < app.messages.len() {
        let mut text = string_of("Copied: ");
        let cut = truncate_str(app.messages[app.messages_scroll].text.as_str(), 50);
        push_str(&mut text, cut.as_str());
        app.status = Some(text);
    }
}

/// Pinning names the highlighted message and the open chat.
pub open spec fn pin_done(old: App, new: App) -> bool {
    if acting_on_message(old) && old.current_peer_id is Some {
        status_only(old, new, "Pin message "@ + decimal(highlighted(old).id as int) + " in "@
            + decimal(old.current_peer_id->0 as int))
    } else {
        new == old
    }
}

/// Pins the highlighted message.
pub fn on_pin(app: &mut App)
    ensures
        pin_done(*old(app), *final(app)),
{
    if app.screen == Screen::Main && app.focus == Focus::Messages && app.messages_scroll < app.messages.len() {
        match app.current_peer_id {
            Some(peer_id) => {
                let mut text = string_of("Pin message ");
                push_i64(&mut text, app.messages[app.messages_scroll].id);
                push_str(&mut text, " in ");
                push_i64(&mut text, peer_id);
                app.status = Some(text);
            },
            None => {},
        }
    }
}

/// Cancelling a reply.
pub open spec fn cancel_reply_done(old: App, new: App) -> bool {
    &&& new == (App { reply_to: None, status: new.status, ..old })
    &&& status_is(new, "Reply cancelled"@)
}

/// Drops the reply target.
pub fn on_cancel_reply(app: &mut App)
    ensures
        cancel_reply_done(*old(app), *final(app)),
{
    app.reply_to = None;
    set_status(app, "Reply cancelled");
}

/// Viewing the highlighted message's forwarded content.
pub open spec fn view_forwarded_done(old: App, new: App) -> bool {
    if acting_on_message(old) {
        let m = highlighted(old);
        if m.forwards@.len() == 0 {
            status_only(old, new, "No forwarded content to view"@)
        } else {
            &&& new == (App { forward_view: new.forward_view, ..old })
            &&& new.forward_view matches Some(v) && v.selected == 0 && same_forwards(m.forwards@, v.items@)
        }
    } else {
        new == old
    }
}

/// Opens the viewer on the highlighted message's forwarded content.
pub fn on_view_forwarded(app: &mut App)
    ensures
        view_forwarded_done(*old(app), *final(app)),
{
    if app.screen == Screen::Main && app.focus == Focus::Messages && app.messages_scroll < app.messages.len() {
        if app.messages[app.messages_scroll].forwards.len() == 0 {
            set_status(app, "No forwarded content to view");
        } else {
            let items = clone_forwards(&app.messages[app.messages_scroll].forwards);
            app.forward_view = Some(ForwardView { items, selected: 0 });
        }
    }
}

/// Moving in the forwarded-content viewer: up stops at the first line, down
/// at the last of all the (nested) items.
pub open spec fn forward_view_move_done(old: App, new: App, up: bool) -> bool {
    match old.forward_view {
        Some(v) => {
            let total = forward_count(v.items@);
            let sel = if up {
                if v.selected > 0 { v.selected - 1 } else { 0 }
            } else if total > 0 && v.selected + 1 < total {
                v.selected + 1
            } else {
                v.selected as int
            };
            &&& new == (App { forward_view: new.forward_view, ..old })
            &&& new.forward_view matches Some(w) && w.items == v.items && w.selected == sel
        },
        None => new == old,
    }
}

/// Moves in the forwarded-content viewer.
pub fn on_forward_view_move(app: &mut App, up: bool)
    requires
        old(app).forward_view matches Some(v) ==> forward_count(v.items@) <= usize::MAX,
    ensures
        forward_view_move_done(*old(app), *final(app), up),
{
    match app.forward_view.take() {
        Some(mut view) => {
            if up {
                if view.selected > 0 {
                    view.selected = view.selected - 1;
                }
            } else {
                let total = forwards_len(view.items.as_slice());
                if total > 0 && view.selected < total - 1 {
                    view.selected = view.selected + 1;
                }
            }
            app.forward_view = Some(view);
        },
        None => {},
    }
}

} // verus!
