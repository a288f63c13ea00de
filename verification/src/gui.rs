//! State shared with the desktop client's authorization screen.

use vstd::prelude::*;
use std::collections::HashMap;
use crate::text::{chars_of, string_of, push_str, trim, trim_chars};
use crate::models::{Chat, ChatMessage, DeliveryStatus};
use crate::api::User;
use crate::auth::{AuthManager, ParsedToken, TokenData, TokenUrlError, token_of_url, parse_token_url};
use crate::events::{AsyncCommand, CoreEvent, VkEvent};
use crate::pagination::{ChatsPagination, MessagesPagination};
use crate::format::{auth_error, is_auth_error, oauth_url_like, looks_like_oauth_url, truncate_text, truncated_text};
use crate::text::{decimal, push_i64};
use crate::update_events::message_pos;
use crate::app_state::{nameable, user_name};
use crate::update_events::{with_profiles, add_profiles, with_unread, read_marked, mark_read, find_chat, find_message, set_unread, take_message};

verus! {

broadcast use vstd::string::group_string_axioms, vstd::std_specs::hash::group_hash_axioms;

/// Current view/screen of the desktop client.
#[derive(Debug, Clone, Copy, PartialEq, Eq, Structural)]
pub enum GuiView {
    Auth,
    Main,
}

impl Default for GuiView {
    fn default() -> (r: Self)
        ensures
            r == GuiView::Auth,
    {
        GuiView::Auth
    }
}

/// Connection state of the desktop client.
#[derive(Debug, Clone, Copy, PartialEq, Eq, Structural)]
pub enum ConnectionState {
    Disconnected,
    Connecting,
    Connected,
}

impl Default for ConnectionState {
    fn default() -> (r: Self)
        ensures
            r == ConnectionState::Disconnected,
    {
        ConnectionState::Disconnected
    }
}

/// The line under the title of the authorization screen.
pub open spec fn auth_status_line(conn: ConnectionState, status: Option<Seq<char>>) -> Seq<char> {
    match conn {
        ConnectionState::Connecting => "Connecting..."@,
        ConnectionState::Connected => "Connected"@,
        ConnectionState::Disconnected => match status {
            Some(s) => s,
            None => "Paste the redirect URL from the browser"@,
        },
    }
}

/// The line shown under the title of the authorization screen.
pub fn auth_status_text(conn: ConnectionState, status: Option<&str>) -> (r: String)
    ensures
        r@ == auth_status_line(conn, match status { Some(s) => Some(s@), None => None }),
{
    match conn {
        ConnectionState::Connecting => string_of("Connecting..."),
        ConnectionState::Connected => string_of("Connected"),
        ConnectionState::Disconnected => match status {
            Some(s) => string_of(s),
            None => string_of("Paste the redirect URL from the browser"),
        },
    }
}

/// Stage of forwarding in the desktop client.
#[derive(Debug, Clone, Copy, PartialEq, Eq, Structural)]
pub enum GuiForwardStage {
    SelectTarget,
    EnterComment,
}

/// Work the desktop client hands to the surrounding program.
#[derive(Debug)]
pub enum GuiTask {
    /// Load the embedded font; answered by `FontLoaded`.
    LoadFont,
    /// Check a token against the API; answered by `SessionValidated`.
    ValidateToken(String),
    /// Open a URL in the browser; answered by `AuthUrlOpened`.
    OpenUrl(String),
    /// Store a pasted token; answered by `TokenSaved`.
    SaveToken(ParsedToken),
    /// Remove the stored token; answered by `LoggedOut`.
    Logout,
    /// Start the API client, the command executor and the long poll.
    StartSession(String),
    /// Run a core command.
    Command(AsyncCommand),
}

/// Messages of the desktop client.
#[derive(Debug)]
pub enum GuiMessage {
    TokenInputChanged(String),
    OpenAuthUrl,
    /// The browser was asked to open the OAuth page; the error if it failed.
    AuthUrlOpened(Option<String>),
    LoginPressed,
    /// The pasted token was stored (or storing it failed).
    TokenSaved(Result<TokenData, String>),
    /// The stored token was removed (or removing it failed).
    LoggedOut(Result<(), String>),
    CoreEvent(CoreEvent),
    ChatSelected(usize),
    MessageInputChanged(String),
    MessageSelected(usize),
    ReplyPressed(i64),
    ForwardPressed(i64),
    EditPressed(i64),
    DeletePressed(i64),
    DeleteForMe(i64),
    DeleteForAll(i64),
    CancelDelete,
    SendPressed,
    CancelReply,
    CancelEdit,
    CancelForward,
    FontLoaded(bool),
    SessionValidated { token: String, valid: bool, error: Option<String> },
    ForwardCommentChanged(String),
    ForwardSubmit,
    Tick,
    Error(String),
}

/// State of the desktop client.
pub struct GuiApp {
    pub view: GuiView,
    pub connection: ConnectionState,
    pub auth: AuthManager,
    pub token_input: String,
    /// Whether a session (API client, executor, long poll) was started;
    /// core commands are only sent once it was.
    pub session_started: bool,
    pub users: HashMap<i64, User>,
    pub chats: Vec<Chat>,
    pub selected_chat: usize,
    pub current_peer_id: Option<i64>,
    pub messages: Vec<ChatMessage>,
    pub selected_message: usize,
    pub message_input: String,
    pub chats_pagination: ChatsPagination,
    pub messages_pagination: Option<MessagesPagination>,
    pub reply_to: Option<i64>,
    pub editing_message: Option<i64>,
    pub forward_source: Option<i64>,
    pub forward_target: Option<i64>,
    pub forward_stage: Option<GuiForwardStage>,
    pub forward_comment: String,
    pub delete_prompt: Option<i64>,
    pub font_loaded: bool,
    pub status: Option<String>,
    /// Work requested and not yet taken by the program.
    pub tasks: Vec<GuiTask>,
}

/// The status line shows exactly `text`.
pub open spec fn gui_status_is(g: GuiApp, text: Seq<char>) -> bool {
    g.status matches Some(s) && s@ == text
}

/// Only the status changes, to `text`.
pub open spec fn gui_status_only(old: GuiApp, new: GuiApp, text: Seq<char>) -> bool {
    new == (GuiApp { status: new.status, ..old }) && gui_status_is(new, text)
}

/// A core command is sent: queued once a session runs, dropped before.
pub open spec fn command_sent(old: GuiApp, new: GuiApp, c: AsyncCommand) -> bool {
    if old.session_started {
        new.tasks@ == old.tasks@.push(GuiTask::Command(c))
    } else {
        new.tasks@ == old.tasks@
    }
}

/// A desktop client that has done nothing yet: on the authorization view,
/// no session, no chats, messages, selections, drafts or prompts, the font
/// not loaded; the connection, token, input, status and queued work are
/// left to say.
pub open spec fn gui_starts_fresh(r: GuiApp) -> bool {
    &&& r.view == GuiView::Auth && !r.session_started
    &&& r.users@ == Map::<i64, User>::empty()
    &&& r.chats@.len() == 0 && r.selected_chat == 0 && r.current_peer_id is None
    &&& r.messages@.len() == 0 && r.selected_message == 0 && r.message_input@.len() == 0
    &&& r.chats_pagination == (ChatsPagination { offset: 0, total_count: None, is_loading: false, has_more: false })
    &&& r.messages_pagination is None
    &&& r.reply_to is None && r.editing_message is None
    &&& r.forward_source is None && r.forward_target is None && r.forward_stage is None
    &&& r.forward_comment@.len() == 0 && r.delete_prompt is None && !r.font_loaded
}

impl GuiApp {
    fn send_command(&mut self, c: AsyncCommand)
        ensures
            command_sent(*old(self), *final(self), c),
            *final(self) == (GuiApp { tasks: final(self).tasks, ..*old(self) }),
    {
        if self.session_started {
            self.tasks.push(GuiTask::Command(c));
        }
    }

    fn set_status(&mut self, text: &str)
        ensures
            gui_status_only(*old(self), *final(self), text@),
    {
        self.status = Some(string_of(text));
    }

    /// A fresh client on the authorization screen holding `auth`.
    pub fn with_auth(auth: AuthManager) -> (r: Self)
        ensures
            gui_starts_fresh(r),
            r.connection == ConnectionState::Disconnected,
            r.auth == auth && r.token_input@.len() == 0,
            r.tasks@.len() == 0,
            r.status is None,
    {
        GuiApp {
            view: GuiView::Auth,
            connection: ConnectionState::Disconnected,
            auth,
            token_input: String::new(),
            session_started: false,
            users: HashMap::new(),
            chats: Vec::new(),
            selected_chat: 0,
            current_peer_id: None,
            messages: Vec::new(),
            selected_message: 0,
            message_input: String::new(),
            chats_pagination: ChatsPagination::default(),
            messages_pagination: None,
            reply_to: None,
            editing_message: None,
            forward_source: None,
            forward_target: None,
            forward_stage: None,
            forward_comment: String::new(),
            delete_prompt: None,
            font_loaded: false,
            status: None,
            tasks: Vec::new(),
        }
    }

    /// Starts the client at time `now`: the font is loaded, and a stored
    /// token is validated, or its removal requested when it has expired.
    pub fn new(auth: AuthManager, now: i64) -> (r: Self)
        ensures
            gui_starts_fresh(r),
            r.tasks@.len() >= 1 && r.tasks@[0] is LoadFont,
            match auth.token {
                Some(t) => {
                    &&& r.token_input@ == t.access_token@
                    &&& if t.expires_at matches Some(e) && now >= e {
                        &&& r.auth == auth && r.connection == ConnectionState::Disconnected
                        &&& gui_status_is(r, "Session expired. Please login again."@)
                        &&& r.tasks@.len() == 2 && r.tasks@[1] is Logout
                    } else {
                        &&& r.auth == auth && r.connection == ConnectionState::Connecting
                        &&& gui_status_is(r, "Validating session..."@)
                        &&& r.tasks@.len() == 2
                        &&& r.tasks@[1] matches GuiTask::ValidateToken(k) && k@ == t.access_token@
                    }
                },
                None => r.auth == auth && r.tasks@.len() == 1 && r.status is None && r.token_input@.len() == 0,
            },
    {
        let expired = match &auth.token {
            Some(t) => match t.expires_at {
                Some(e) => now >= e,
                None => false,
            },
            None => false,
        };
        let token = match &auth.token {
            Some(t) => Some(t.access_token.clone()),
            None => None,
        };
        let mut app = GuiApp::with_auth(auth);
        app.tasks.push(GuiTask::LoadFont);
        match token {
            Some(k) => {
                app.token_input = k.clone();
                if expired {
                    app.tasks.push(GuiTask::Logout);
                    app.set_status("Session expired. Please login again.");
                } else {
                    app.connection = ConnectionState::Connecting;
                    app.set_status("Validating session...");
                    app.tasks.push(GuiTask::ValidateToken(k));
                }
            },
            None => {},
        }
        app
    }

    /// The name to show for a user id.
    pub fn get_user_name(&self, user_id: i64) -> (r: String)
        requires
            nameable(self.users@, user_id),
        ensures
            r@ == user_name(self.users@, user_id),
    {
        match self.users.get(&user_id) {
            Some(user) => user.full_name(),
            None => crate::mapper::fallback_name(user_id),
        }
    }
}

/// The login flow: an empty field asks for the URL; a pasted redirect URL
/// has its token handed on to be stored (or the parse error shown); other
/// text asks for the full redirect URL.
pub open spec fn login_done(old: GuiApp, new: GuiApp) -> bool {
    let input = trim(old.token_input@);
    if old.token_input@.len() == 0 {
        gui_status_only(old, new, "Please paste the redirect URL"@)
    } else if oauth_url_like(input) {
        match token_of_url(input) {
            Ok((tok, uid, exp)) => {
                &&& new == (GuiApp { tasks: new.tasks, ..old })
                &&& new.tasks@.len() == old.tasks@.len() + 1 && new.tasks@.drop_last() =~= old.tasks@
                &&& new.tasks@.last() matches GuiTask::SaveToken(p)
                &&& p.access_token@ == tok && p.user_id as int == uid
                &&& match exp { Some(e) => p.expires_in == Some(e as i64), None => p.expires_in is None }
            },
            Err(e) => gui_status_only(old, new, "Invalid redirect URL: "@ + token_error_text(e)),
        }
    } else {
        gui_status_only(old, new, "Please paste the full redirect URL"@)
    }
}

/// The text of a token error.
pub open spec fn token_error_text(e: TokenUrlError) -> Seq<char> {
    match e {
        TokenUrlError::NoFragment => "No fragment in URL (expected #access_token=...)"@,
        TokenUrlError::NoAccessToken => "No access_token in URL"@,
        TokenUrlError::NoUserId => "No user_id in URL"@,
    }
}

/// The stored token (or the failure to store it): validation starts.
pub open spec fn gui_token_saved_done(old: GuiApp, new: GuiApp, result: Result<TokenData, String>) -> bool {
    match result {
        Ok(t) => {
            &&& new == (GuiApp {
                auth: AuthManager { token: Some(t), ..old.auth },
                token_input: new.token_input,
                connection: ConnectionState::Connecting,
                status: new.status,
                tasks: new.tasks,
                ..old
            })
            &&& new.token_input@ == t.access_token@
            &&& gui_status_is(new, "Validating session..."@)
            &&& new.tasks@.len() == old.tasks@.len() + 1 && new.tasks@.drop_last() =~= old.tasks@
            &&& new.tasks@.last() matches GuiTask::ValidateToken(k) && k@ == t.access_token@
        },
        Err(e) => gui_status_only(old, new, "Invalid redirect URL: "@ + e@),
    }
}

/// A chat chosen in the list: its history is loaded; while a forward waits
/// for a target, the chat becomes the target and the comment is asked for.
pub open spec fn chat_selected_done(old: GuiApp, new: GuiApp, idx: usize) -> bool {
    if idx < old.chats@.len() {
        let peer = old.chats@[idx as int].id;
        let fwd = old.forward_source is Some && old.forward_stage == Some(GuiForwardStage::SelectTarget);
        &&& new == (GuiApp {
            selected_chat: idx,
            current_peer_id: Some(peer),
            messages: new.messages,
            selected_message: 0,
            messages_pagination: Some(MessagesPagination {
                peer_id: peer,
                offset: 0,
                total_count: None,
                is_loading: false,
                has_more: true,
                first_cmid: None,
                last_cmid: None,
            }),
            tasks: new.tasks,
            forward_target: if fwd { Some(peer) } else { old.forward_target },
            forward_stage: if fwd { Some(GuiForwardStage::EnterComment) } else { old.forward_stage },
            status: new.status,
            ..old
        })
        &&& new.messages@.len() == 0
        &&& command_sent(old, new, AsyncCommand::LoadMessages { peer_id: peer, offset: 0 })
        &&& if fwd { gui_status_is(new, "Enter forward comment"@) } else { new.status == old.status }
    } else {
        new == (GuiApp { selected_chat: idx, ..old })
    }
}

/// Send: with a chat open the input is taken (and emptied); a non-empty
/// text saves an edit, sends a reply or sends a message.
pub open spec fn send_pressed_done(old: GuiApp, new: GuiApp) -> bool {
    match old.current_peer_id {
        Some(peer) => {
            let text = old.message_input;
            if text@.len() == 0 {
                new == (GuiApp { message_input: new.message_input, ..old }) && new.message_input@.len() == 0
            } else {
                &&& new.message_input@.len() == 0
                &&& match old.editing_message {
                    Some(id) => {
                        &&& new == (GuiApp { message_input: new.message_input, editing_message: None, tasks: new.tasks, ..old })
                        &&& command_sent(old, new, AsyncCommand::EditMessage {
                            peer_id: peer,
                            message_id: id,
                            cmid: match crate::update_events::message_pos(old.messages@, id) {
                                Some(p) => old.messages@[p].cmid,
                                None => None,
                            },
                            text,
                        })
                    },
                    None => match old.reply_to {
                        Some(r) => {
                            &&& new == (GuiApp { message_input: new.message_input, reply_to: None, tasks: new.tasks, ..old })
                            &&& command_sent(old, new, AsyncCommand::SendReply { peer_id: peer, reply_to: r, text })
                        },
                        None => {
                            &&& new == (GuiApp { message_input: new.message_input, tasks: new.tasks, ..old })
                            &&& command_sent(old, new, AsyncCommand::SendMessage { peer_id: peer, text })
                        },
                    },
                }
            }
        },
        None => new == old,
    }
}

/// Forwarding with a target: a comment is required; the forward is sent
/// and the dialog closed.
pub open spec fn gui_forward_submit_done(old: GuiApp, new: GuiApp) -> bool {
    match (old.forward_source, old.forward_target) {
        (Some(src), Some(peer)) => if trim(old.forward_comment@).len() > 0 {
            &&& new == (GuiApp {
                forward_comment: new.forward_comment,
                forward_source: None,
                forward_target: None,
                forward_stage: None,
                status: new.status,
                tasks: new.tasks,
                ..old
            })
            &&& new.forward_comment@.len() == 0
            &&& gui_status_is(new, "Forwarded message"@)
            &&& if old.session_started {
                &&& new.tasks@.len() == old.tasks@.len() + 1 && new.tasks@.drop_last() =~= old.tasks@
                &&& new.tasks@.last() matches GuiTask::Command(AsyncCommand::SendForward { peer_id, message_ids, comment })
                &&& peer_id == peer && message_ids@ == seq![src] && comment == old.forward_comment
            } else {
                new.tasks@ == old.tasks@
            }
        } else {
            gui_status_only(old, new, "Comment is required"@)
        },
        _ => new == old,
    }
}

/// The session check's answer: a valid token starts the session and loads
/// the chats; an authorization error signs out; any error is shown and the
/// connection is down.
pub open spec fn gui_session_done(old: GuiApp, new: GuiApp, token: String, valid: bool, error: Option<String>) -> bool {
    if valid {
        &&& new == (GuiApp { session_started: true, tasks: new.tasks, ..old })
        &&& new.tasks@ == old.tasks@ + seq![GuiTask::StartSession(token), GuiTask::Command(AsyncCommand::LoadConversations { offset: 0 })]
    } else {
        match error {
            Some(e) => if auth_error(e@) {
                &&& new == (GuiApp { status: new.status, connection: ConnectionState::Disconnected, tasks: new.tasks, ..old })
                &&& new.tasks@ == old.tasks@.push(GuiTask::Logout)
                &&& gui_status_is(new, "Session expired. Please login again."@)
            } else {
                &&& new == (GuiApp { status: new.status, connection: ConnectionState::Disconnected, ..old })
                &&& gui_status_is(new, e@)
            },
            None => new == old,
        }
    }
}

/// The message shown for a new message in the open chat.
pub open spec fn gui_live_message(m: ChatMessage, g: GuiApp, id: i64, timestamp: i64, text: Seq<char>, from_id: i64) -> bool {
    &&& m.id == id && m.cmid is None && m.from_id == from_id
    &&& m.from_name@ == user_name(g.users@, from_id)
    &&& m.text@ == text && m.timestamp == timestamp
    &&& m.is_outgoing == (from_id == match g.auth.token { Some(t) => t.user_id, None => 0 })
    &&& m.is_read && !m.is_edited && !m.is_pinned
    &&& m.delivery == DeliveryStatus::Sent
    &&& m.attachments@.len() == 0 && m.reply is None && m.fwd_count == 0 && m.forwards@.len() == 0
}

/// What a core event does to the desktop client.
pub open spec fn gui_core_done(old: GuiApp, new: GuiApp, e: CoreEvent) -> bool {
    match e {
        CoreEvent::ConversationsLoaded { chats, profiles, total_count, has_more } => {
            &&& new == (GuiApp {
                chats,
                users: new.users,
                chats_pagination: ChatsPagination { total_count: Some(total_count), has_more, is_loading: false, ..old.chats_pagination },
                view: GuiView::Main,
                connection: ConnectionState::Connected,
                status: None,
                ..old
            })
            &&& new.users@ == with_profiles(old.users@, profiles@)
        },
        CoreEvent::MessagesLoaded { peer_id, messages, profiles, total_count, has_more } => {
            if old.current_peer_id == Some(peer_id) {
                &&& new == (GuiApp {
                    messages,
                    users: new.users,
                    messages_pagination: match old.messages_pagination {
                        Some(p) => Some(MessagesPagination { total_count: Some(total_count), has_more, is_loading: false, ..p }),
                        None => None,
                    },
                    ..old
                })
                &&& new.users@ == with_profiles(old.users@, profiles@)
            } else {
                new == old
            }
        },
        CoreEvent::MessageSent { .. } | CoreEvent::MessageEdited { .. } | CoreEvent::MessageDeleted { .. } => {
            match old.current_peer_id {
                Some(peer) => {
                    &&& new == (GuiApp { tasks: new.tasks, ..old })
                    &&& command_sent(old, new, AsyncCommand::LoadMessages { peer_id: peer, offset: 0 })
                },
                None => new == old,
            }
        },
        CoreEvent::MessageDetailsFetched { message_id, cmid: _, text, is_edited, attachments, reply, fwd_count, forwards } => {
            &&& new == (GuiApp { messages: new.messages, ..old })
            &&& new.messages@ == match crate::update_events::message_pos(old.messages@, message_id) {
                Some(p) => {
                    let m = old.messages@[p];
                    old.messages@.update(p, ChatMessage {
                        text: match text { Some(t) => t, None => m.text },
                        is_edited,
                        attachments: match attachments { Some(a) => a, None => m.attachments },
                        reply: if reply is Some { reply } else { m.reply },
                        fwd_count: match fwd_count { Some(c) => c, None => m.fwd_count },
                        forwards: match forwards { Some(f) => f, None => m.forwards },
                        ..m
                    })
                },
                None => old.messages@,
            }
        },
        CoreEvent::Error(msg) => new == (GuiApp { status: Some(msg), ..old }),
        CoreEvent::SendFailed(msg) => gui_status_only(old, new, "Send failed: "@ + msg@),
        CoreEvent::VkEvent(ev) => gui_vk_done(old, new, ev),
        CoreEvent::SearchResultsLoaded { .. } => new == old,
    }
}

/// What a long-poll event does to the desktop client.
pub open spec fn gui_vk_done(old: GuiApp, new: GuiApp, e: VkEvent) -> bool {
    match e {
        VkEvent::NewMessage { message_id, peer_id, timestamp, text, from_id, .. } => {
            if old.current_peer_id == Some(peer_id) {
                &&& new == (GuiApp { messages: new.messages, selected_message: (new.messages@.len() - 1) as usize, ..old })
                &&& new.messages@.len() == old.messages@.len() + 1
                &&& new.messages@.drop_last() =~= old.messages@
                &&& gui_live_message(new.messages@.last(), old, message_id, timestamp, text@, from_id)
            } else {
                &&& new == (GuiApp { chats: new.chats, ..old })
                &&& new.chats@ == match crate::update_events::chat_pos(old.chats@, peer_id) {
                    Some(p) => with_unread(old.chats@, peer_id, (old.chats@[p].unread_count + 1) as u32),
                    None => old.chats@,
                }
            }
        },
        VkEvent::MessageRead { peer_id, message_id } => {
            &&& new == (GuiApp { chats: new.chats, messages: new.messages, ..old })
            &&& new.chats@ == with_unread(old.chats@, peer_id, 0)
            &&& if old.current_peer_id == Some(peer_id) {
                &&& new.messages@.len() == old.messages@.len()
                &&& forall|k: int| 0 <= k < old.messages@.len() ==> #[trigger] new.messages@[k] == read_marked(
                    old.messages@[k], true, if message_id > 0 { Some(message_id) } else { None })
            } else {
                new.messages == old.messages
            }
        },
        VkEvent::MessageEditedFromLongPoll { peer_id, message_id } => {
            if old.current_peer_id == Some(peer_id) {
                &&& new == (GuiApp { status: new.status, tasks: new.tasks, ..old })
                &&& command_sent(old, new, AsyncCommand::FetchMessageById { message_id })
                &&& gui_status_is(new, "Message updated from web"@)
            } else {
                new == old
            }
        },
        VkEvent::MessageDeletedFromLongPoll { peer_id, message_id } => {
            match crate::update_events::message_pos(old.messages@, message_id) {
                Some(p) => if old.current_peer_id == Some(peer_id) {
                    let rest = old.messages@.remove(p);
                    &&& new == (GuiApp { status: new.status, messages: new.messages, selected_message: new.selected_message, ..old })
                    &&& new.messages@ == rest
                    &&& new.selected_message == if old.selected_message >= rest.len() && old.selected_message > 0 {
                        (old.selected_message - 1) as usize
                    } else {
                        old.selected_message
                    }
                    &&& gui_status_is(new, "Message deleted from web"@)
                } else {
                    new == old
                },
                None => new == old,
            }
        },
        VkEvent::UserTyping { peer_id, user_id } => {
            if old.current_peer_id == Some(peer_id) {
                gui_status_only(old, new, user_name(old.users@, user_id) + " is typing..."@)
            } else {
                new == old
            }
        },
        VkEvent::ConnectionStatus(connected) => {
            gui_status_only(old, new, if connected { "Connected to VK"@ } else { "Disconnected from VK"@ })
        },
    }
}

/// What a core event needs: nameable senders and typing users, room for one
/// more message, and unread counters below their limit.
pub open spec fn gui_event_ok(g: GuiApp, e: CoreEvent) -> bool {
    &&& g.messages@.len() < usize::MAX
    &&& match e {
        CoreEvent::VkEvent(VkEvent::NewMessage { peer_id, from_id, .. }) => if g.current_peer_id == Some(peer_id) {
            nameable(g.users@, from_id)
        } else {
            crate::update_events::unread_room(g.chats@, peer_id)
        },
        CoreEvent::VkEvent(VkEvent::UserTyping { peer_id, user_id }) => g.current_peer_id == Some(peer_id) ==> nameable(g.users@, user_id),
        _ => true,
    }
}

/// The effect of one message on the desktop client.
pub open spec fn gui_update_done(old: GuiApp, new: GuiApp, msg: GuiMessage) -> bool {
    match msg {
        GuiMessage::TokenInputChanged(t) => new == (GuiApp { token_input: t, ..old }),
        GuiMessage::OpenAuthUrl => {
            &&& new == (GuiApp { tasks: new.tasks, ..old })
            &&& new.tasks@.len() == old.tasks@.len() + 1 && new.tasks@.drop_last() =~= old.tasks@
            &&& new.tasks@.last() matches GuiTask::OpenUrl(u) && u@ == crate::auth::auth_url()
        },
        GuiMessage::AuthUrlOpened(err) => gui_status_only(old, new, match err {
            Some(e) => "Failed to open browser: "@ + e@,
            None => "Opened OAuth URL. Paste redirect URL below."@,
        }),
        GuiMessage::LoginPressed => login_done(old, new),
        GuiMessage::TokenSaved(res) => gui_token_saved_done(old, new, res),
        GuiMessage::LoggedOut(res) => match res {
            Ok(_) => new == (GuiApp { auth: AuthManager { token: None, ..old.auth }, ..old }),
            Err(_) => new == old,
        },
        GuiMessage::CoreEvent(e) => gui_core_done(old, new, e),
        GuiMessage::ChatSelected(idx) => chat_selected_done(old, new, idx),
        GuiMessage::MessageInputChanged(t) => new == (GuiApp { message_input: t, ..old }),
        GuiMessage::MessageSelected(idx) => new == (GuiApp { selected_message: if idx < old.messages@.len() { idx } else { old.selected_message }, ..old }),
        GuiMessage::ReplyPressed(id) => new == (GuiApp { reply_to: Some(id), ..old }),
        GuiMessage::ForwardPressed(id) => {
            &&& new == (GuiApp {
                forward_source: Some(id),
                forward_target: None,
                forward_stage: Some(GuiForwardStage::SelectTarget),
                forward_comment: new.forward_comment,
                status: new.status,
                ..old
            })
            &&& new.forward_comment@.len() == 0
            &&& gui_status_is(new, "Select target chat to forward"@)
        },
        GuiMessage::EditPressed(id) => match crate::update_events::message_pos(old.messages@, id) {
            Some(p) => new == (GuiApp { editing_message: Some(id), message_input: new.message_input, ..old })
                && new.message_input@ == old.messages@[p].text@,
            None => new == old,
        },
        GuiMessage::DeletePressed(id) => new == (GuiApp { delete_prompt: Some(id), ..old }),
        GuiMessage::DeleteForMe(id) | GuiMessage::DeleteForAll(id) => {
            let for_all = msg is DeleteForAll;
            &&& new == (GuiApp { delete_prompt: None, tasks: new.tasks, ..old })
            &&& match old.current_peer_id {
                Some(peer) => command_sent(old, new, AsyncCommand::DeleteMessage { peer_id: peer, message_id: id, for_all }),
                None => new.tasks@ == old.tasks@,
            }
        },
        GuiMessage::CancelDelete => new == (GuiApp { delete_prompt: None, ..old }),
        GuiMessage::SendPressed => send_pressed_done(old, new),
        GuiMessage::CancelReply => new == (GuiApp { reply_to: None, ..old }),
        GuiMessage::CancelEdit => new == (GuiApp { editing_message: None, ..old }),
        GuiMessage::CancelForward => {
            &&& new == (GuiApp { forward_source: None, forward_target: None, forward_stage: None, forward_comment: new.forward_comment, ..old })
            &&& new.forward_comment@.len() == 0
        },
        GuiMessage::FontLoaded(ok) => if ok {
            new == (GuiApp { font_loaded: true, ..old })
        } else {
            gui_status_only(old, new, "Failed to load embedded font"@)
        },
        GuiMessage::SessionValidated { token, valid, error } => gui_session_done(old, new, token, valid, error),
        GuiMessage::ForwardCommentChanged(t) => new == (GuiApp { forward_comment: t, ..old }),
        GuiMessage::ForwardSubmit => gui_forward_submit_done(old, new),
        GuiMessage::Tick => new == old,
        GuiMessage::Error(e) => new == (GuiApp { status: Some(e), connection: ConnectionState::Disconnected, ..old }),
    }
}

/// What `gui_update` needs: a core event it can handle.
pub open spec fn gui_ready(g: GuiApp, msg: GuiMessage) -> bool {
    msg matches GuiMessage::CoreEvent(e) ==> gui_event_ok(g, e)
}

impl GuiApp {
    /// Handles a long-poll event.
    pub fn handle_vk_event(&mut self, event: VkEvent)
        requires
            gui_event_ok(*old(self), CoreEvent::VkEvent(event)),
        ensures
            gui_vk_done(*old(self), *final(self), event),
    {
        match event {
            VkEvent::NewMessage { message_id, peer_id, timestamp, text, from_id, .. } => {
                if self.current_peer_id == Some(peer_id) {
                    let from_name = self.get_user_name(from_id);
                    let me = match self.auth.user_id() {
                        Some(u) => u,
                        None => 0,
                    };
                    self.messages.push(ChatMessage {
                        id: message_id,
                        cmid: None,
                        from_id,
                        from_name,
                        text,
                        timestamp,
                        is_outgoing: from_id == me,
                        is_read: true,
                        is_edited: false,
                        is_pinned: false,
                        delivery: DeliveryStatus::Sent,
                        attachments: Vec::new(),
                        reply: None,
                        fwd_count: 0,
                        forwards: Vec::new(),
                    });
                    self.selected_message = self.messages.len() - 1;
                } else {
                    match find_chat(&self.chats, peer_id) {
                        Some(p) => {
                            let count = self.chats[p].unread_count + 1;
                            set_unread(&mut self.chats, p, count);
                        },
                        None => {},
                    }
                }
            },
            VkEvent::MessageRead { peer_id, message_id } => {
                match find_chat(&self.chats, peer_id) {
                    Some(p) => set_unread(&mut self.chats, p, 0),
                    None => {},
                }
                if self.current_peer_id == Some(peer_id) {
                    mark_read(&mut self.messages, true, if message_id > 0 { Some(message_id) } else { None });
                }
            },
            VkEvent::MessageEditedFromLongPoll { peer_id, message_id } => {
                if self.current_peer_id == Some(peer_id) {
                    self.send_command(AsyncCommand::FetchMessageById { message_id });
                    self.set_status("Message updated from web");
                }
            },
            VkEvent::MessageDeletedFromLongPoll { peer_id, message_id } => {
                if self.current_peer_id == Some(peer_id) {
                    match find_message(&self.messages, message_id) {
                        Some(pos) => {
                            self.messages.remove(pos);
                            if self.selected_message >= self.messages.len() && self.selected_message > 0 {
                                self.selected_message = self.selected_message - 1;
                            }
                            self.set_status("Message deleted from web");
                        },
                        None => {},
                    }
                }
            },
            VkEvent::UserTyping { peer_id, user_id } => {
                if self.current_peer_id == Some(peer_id) {
                    let mut text = self.get_user_name(user_id);
                    push_str(&mut text, " is typing...");
                    self.status = Some(text);
                }
            },
            VkEvent::ConnectionStatus(connected) => {
                if connected {
                    self.set_status("Connected to VK");
                } else {
                    self.set_status("Disconnected from VK");
                }
            },
        }
    }

    /// Handles an event from the core.
    pub fn handle_core_event(&mut self, event: CoreEvent)
        requires
            gui_event_ok(*old(self), event),
        ensures
            gui_core_done(*old(self), *final(self), event),
    {
        match event {
            CoreEvent::ConversationsLoaded { chats, profiles, total_count, has_more } => {
                self.chats = chats;
                add_profiles(&mut self.users, &profiles);
                self.chats_pagination.total_count = Some(total_count);
                self.chats_pagination.has_more = has_more;
                self.chats_pagination.is_loading = false;
                self.view = GuiView::Main;
                self.connection = ConnectionState::Connected;
                self.status = None;
            },
            CoreEvent::MessagesLoaded { peer_id, messages, profiles, total_count, has_more } => {
                if self.current_peer_id == Some(peer_id) {
                    self.messages = messages;
                    add_profiles(&mut self.users, &profiles);
                    match self.messages_pagination {
                        Some(p) => {
                            let mut q = p;
                            q.total_count = Some(total_count);
                            q.has_more = has_more;
                            q.is_loading = false;
                            self.messages_pagination = Some(q);
                        },
                        None => {},
                    }
                }
            },
            CoreEvent::MessageSent { .. } | CoreEvent::MessageEdited { .. } | CoreEvent::MessageDeleted { .. } => {
                match self.current_peer_id {
                    Some(peer_id) => self.send_command(AsyncCommand::LoadMessages { peer_id, offset: 0 }),
                    None => {},
                }
            },
            CoreEvent::MessageDetailsFetched { message_id, cmid: _, text, is_edited, attachments, reply, fwd_count, forwards } => {
                match find_message(&self.messages, message_id) {
                    Some(p) => {
                        let mut m = take_message(&mut self.messages, p);
                        let ghost m0 = m;
                        match text {
                            Some(t) => m.text = t,
                            None => {},
                        }
                        m.is_edited = is_edited;
                        match attachments {
                            Some(a) => m.attachments = a,
                            None => {},
                        }
                        if reply.is_some() {
                            m.reply = reply;
                        }
                        match fwd_count {
                            Some(c) => m.fwd_count = c,
                            None => {},
                        }
                        match forwards {
                            Some(f) => m.forwards = f,
                            None => {},
                        }
                        self.messages.insert(p, m);
                        assert(self.messages@ =~= old(self).messages@.update(p as int, m));
                    },
                    None => {},
                }
            },
            CoreEvent::Error(msg) => {
                self.status = Some(msg);
            },
            CoreEvent::SendFailed(msg) => {
                let mut t = string_of("Send failed: ");
                push_str(&mut t, msg.as_str());
                self.status = Some(t);
            },
            CoreEvent::VkEvent(e) => self.handle_vk_event(e),
            CoreEvent::SearchResultsLoaded { .. } => {},
        }
    }

    /// Applies one message to the desktop client.
    pub fn update(&mut self, msg: GuiMessage)
        requires
            gui_ready(*old(self), msg),
        ensures
            gui_update_done(*old(self), *final(self), msg),
    {
        match msg {
            GuiMessage::TokenInputChanged(t) => {
                self.token_input = t;
            },
            GuiMessage::OpenAuthUrl => {
                self.tasks.push(GuiTask::OpenUrl(AuthManager::get_auth_url()));
            },
            GuiMessage::AuthUrlOpened(err) => match err {
                Some(e) => {
                    let mut t = string_of("Failed to open browser: ");
                    push_str(&mut t, e.as_str());
                    self.status = Some(t);
                },
                None => self.set_status("Opened OAuth URL. Paste redirect URL below."),
            },
            GuiMessage::LoginPressed => self.login(),
            GuiMessage::LoggedOut(res) => match res {
                Ok(_) => {
                    self.auth.token = None;
                },
                Err(_) => {},
            },
            GuiMessage::TokenSaved(res) => match res {
                Ok(t) => {
                    let k = t.access_token.clone();
                    self.auth.token = Some(t);
                    self.token_input = k.clone();
                    self.connection = ConnectionState::Connecting;
                    self.set_status("Validating session...");
                    self.tasks.push(GuiTask::ValidateToken(k));
                },
                Err(e) => {
                    let mut t = string_of("Invalid redirect URL: ");
                    push_str(&mut t, e.as_str());
                    self.status = Some(t);
                },
            },
            GuiMessage::CoreEvent(e) => self.handle_core_event(e),
            GuiMessage::ChatSelected(idx) => self.select_chat(idx),
            GuiMessage::MessageInputChanged(t) => {
                self.message_input = t;
            },
            GuiMessage::MessageSelected(idx) => {
                if idx < self.messages.len() {
                    self.selected_message = idx;
                }
            },
            GuiMessage::ReplyPressed(id) => {
                self.reply_to = Some(id);
            },
            GuiMessage::ForwardPressed(id) => {
                self.forward_source = Some(id);
                self.forward_target = None;
                self.forward_stage = Some(GuiForwardStage::SelectTarget);
                self.forward_comment = String::new();
                self.set_status("Select target chat to forward");
            },
            GuiMessage::EditPressed(id) => match find_message(&self.messages, id) {
                Some(p) => {
                    self.editing_message = Some(id);
                    self.message_input = self.messages[p].text.clone();
                },
                None => {},
            },
            GuiMessage::DeletePressed(id) => {
                self.delete_prompt = Some(id);
            },
            GuiMessage::DeleteForMe(id) => {
                match self.current_peer_id {
                    Some(peer_id) => self.send_command(AsyncCommand::DeleteMessage { peer_id, message_id: id, for_all: false }),
                    None => {},
                }
                self.delete_prompt = None;
            },
            GuiMessage::DeleteForAll(id) => {
                match self.current_peer_id {
                    Some(peer_id) => self.send_command(AsyncCommand::DeleteMessage { peer_id, message_id: id, for_all: true }),
                    None => {},
                }
                self.delete_prompt = None;
            },
            GuiMessage::CancelDelete => {
                self.delete_prompt = None;
            },
            GuiMessage::SendPressed => self.send_pressed(),
            GuiMessage::CancelReply => {
                self.reply_to = None;
            },
            GuiMessage::CancelEdit => {
                self.editing_message = None;
            },
            GuiMessage::CancelForward => {
                self.forward_source = None;
                self.forward_target = None;
                self.forward_stage = None;
                self.forward_comment = String::new();
            },
            GuiMessage::FontLoaded(ok) => {
                if ok {
                    self.font_loaded = true;
                } else {
                    self.set_status("Failed to load embedded font");
                }
            },
            GuiMessage::SessionValidated { token, valid, error } => {
                if valid {
                    let ghost before = self.tasks@;
                    self.session_started = true;
                    self.tasks.push(GuiTask::StartSession(token));
                    self.send_command(AsyncCommand::LoadConversations { offset: 0 });
                    assert(self.tasks@ =~= before + seq![GuiTask::StartSession(token), GuiTask::Command(AsyncCommand::LoadConversations { offset: 0 })]);
                } else {
                    match error {
                        Some(err) => {
                            if is_auth_error(err.as_str()) {
                                self.tasks.push(GuiTask::Logout);
                                self.set_status("Session expired. Please login again.");
                            } else {
                                self.status = Some(err);
                            }
                            self.connection = ConnectionState::Disconnected;
                        },
                        None => {},
                    }
                }
            },
            GuiMessage::ForwardCommentChanged(t) => {
                self.forward_comment = t;
            },
            GuiMessage::ForwardSubmit => self.forward_submit(),
            GuiMessage::Tick => {},
            GuiMessage::Error(e) => {
                self.status = Some(e);
                self.connection = ConnectionState::Disconnected;
            },
        }
    }

    fn login(&mut self)
        ensures
            login_done(*old(self), *final(self)),
    {
        if chars_of(self.token_input.as_str()).len() == 0 {
            self.set_status("Please paste the redirect URL");
            return;
        }
        let input = crate::text::string_from_chars(trim_chars(chars_of(self.token_input.as_str()).as_slice()).as_slice());
        if looks_like_oauth_url(input.as_str()) {
            match parse_token_url(input.as_str()) {
                Ok(p) => {
                    self.tasks.push(GuiTask::SaveToken(p));
                },
                Err(e) => {
                    let mut t = string_of("Invalid redirect URL: ");
                    push_str(&mut t, e.message().as_str());
                    self.status = Some(t);
                },
            }
        } else {
            self.set_status("Please paste the full redirect URL");
        }
    }

    fn select_chat(&mut self, idx: usize)
        ensures
            chat_selected_done(*old(self), *final(self), idx),
    {
        self.selected_chat = idx;
        if idx < self.chats.len() {
            let peer_id = self.chats[idx].id;
            self.current_peer_id = Some(peer_id);
            self.messages = Vec::new();
            self.selected_message = 0;
            self.messages_pagination = Some(MessagesPagination::new(peer_id));
            self.send_command(AsyncCommand::LoadMessages { peer_id, offset: 0 });
            if self.forward_source.is_some() && self.forward_stage == Some(GuiForwardStage::SelectTarget) {
                self.forward_target = Some(peer_id);
                self.forward_stage = Some(GuiForwardStage::EnterComment);
                self.set_status("Enter forward comment");
            }
        }
    }

    fn send_pressed(&mut self)
        ensures
            send_pressed_done(*old(self), *final(self)),
    {
        match self.current_peer_id {
            Some(peer_id) => {
                let mut input = String::new();
                std::mem::swap(&mut input, &mut self.message_input);
                if chars_of(input.as_str()).len() > 0 {
                    match self.editing_message {
                        Some(message_id) => {
                            self.editing_message = None;
                            let cmid = match find_message(&self.messages, message_id) {
                                Some(p) => self.messages[p].cmid,
                                None => None,
                            };
                            self.send_command(AsyncCommand::EditMessage { peer_id, message_id, cmid, text: input });
                        },
                        None => match self.reply_to {
                            Some(reply_to) => {
                                self.reply_to = None;
                                self.send_command(AsyncCommand::SendReply { peer_id, reply_to, text: input });
                            },
                            None => {
                                self.send_command(AsyncCommand::SendMessage { peer_id, text: input });
                            },
                        },
                    }
                }
            },
            None => {},
        }
    }

    fn forward_submit(&mut self)
        ensures
            gui_forward_submit_done(*old(self), *final(self)),
    {
        match (self.forward_source, self.forward_target) {
            (Some(source_id), Some(peer_id)) => {
                let mut comment = String::new();
                std::mem::swap(&mut comment, &mut self.forward_comment);
                if trim_chars(chars_of(comment.as_str()).as_slice()).len() > 0 {
                    let mut ids: Vec<i64> = Vec::new();
                    ids.push(source_id);
                    assert(ids@ =~= seq![source_id]);
                    self.send_command(AsyncCommand::SendForward { peer_id, message_ids: ids, comment });
                    self.forward_source = None;
                    self.forward_target = None;
                    self.forward_stage = None;
                    self.set_status("Forwarded message");
                } else {
                    self.forward_comment = comment;
                    self.set_status("Comment is required");
                }
            },
            _ => {},
        }
    }
}


/// The line above the message input naming the message being answered
/// (`lead` is "Reply to" or "Editing"): its text cut to 30 characters, or
/// its id when it is not among the messages shown.
pub open spec fn prompt_line(messages: Seq<ChatMessage>, id: i64, lead: Seq<char>) -> Seq<char> {
    match message_pos(messages, id) {
        Some(p) => lead + ": "@ + truncated_text(messages[p].text@, 30),
        None => lead + " message #"@ + decimal(id as int),
    }
}

fn prompt_text(messages: &Vec<ChatMessage>, id: i64, lead: &str) -> (r: String)
    ensures
        r@ == prompt_line(messages@, id, lead@),
{
    let mut out = string_of(lead);
    match find_message(messages, id) {
        Some(p) => {
            push_str(&mut out, ": ");
            let t = truncate_text(messages[p].text.as_str(), 30);
            push_str(&mut out, t.as_str());
        },
        None => {
            push_str(&mut out, " message #");
            push_i64(&mut out, id);
        },
    }
    out
}

impl GuiApp {
    /// The reply indicator above the message input, when replying.
    pub fn reply_prompt(&self) -> (r: Option<String>)
        ensures
            match self.reply_to {
                Some(id) => r matches Some(t) && t@ == prompt_line(self.messages@, id, "Reply to"@),
                None => r is None,
            },
    {
        match self.reply_to {
            Some(id) => Some(prompt_text(&self.messages, id, "Reply to")),
            None => None,
        }
    }

    /// The edit indicator above the message input, when editing.
    pub fn edit_prompt(&self) -> (r: Option<String>)
        ensures
            match self.editing_message {
                Some(id) => r matches Some(t) && t@ == prompt_line(self.messages@, id, "Editing"@),
                None => r is None,
            },
    {
        match self.editing_message {
            Some(id) => Some(prompt_text(&self.messages, id, "Editing")),
            None => None,
        }
    }
}

} // verus!
