//! State of the terminal client (the Model of its update loop), the
//! messages that drive it and the background work it asks for.

use vstd::prelude::*;
use std::collections::HashMap;
use crate::text::{string_of, push_i64, decimal};
use crate::models::{AttachmentInfo, Chat, ChatMessage, ForwardItem, ReplyPreview, SearchResult};
use crate::api::{User, full_name_of};
use crate::auth::{AuthManager, ParsedToken, TokenData};
use crate::pagination::{ChatsPagination, MessagesPagination};
use crate::completion::{CompletionState, PathEntry};
use crate::events::VkEvent;

verus! {

broadcast use vstd::string::group_string_axioms, vstd::std_specs::hash::group_hash_axioms;

/// Current screen.
#[derive(Debug, Clone, Copy, PartialEq, Eq, Structural)]
pub enum Screen {
    Auth,
    Main,
}

/// Which panel is currently focused.
#[derive(Debug, Clone, Copy, PartialEq, Eq, Structural)]
pub enum Focus {
    ChatList,
    Messages,
    Input,
}

/// Vi-like input mode.
#[derive(Debug, Clone, Copy, PartialEq, Eq, Structural)]
pub enum Mode {
    Normal,
    Insert,
    Command,
}

/// The panel after `f` in the cycle ChatList → Messages → Input → ChatList.
pub open spec fn focus_after(f: Focus) -> Focus {
    match f {
        Focus::ChatList => Focus::Messages,
        Focus::Messages => Focus::Input,
        Focus::Input => Focus::ChatList,
    }
}

/// The panel before `f` in the cycle.
pub open spec fn focus_before(f: Focus) -> Focus {
    match f {
        Focus::ChatList => Focus::Input,
        Focus::Messages => Focus::ChatList,
        Focus::Input => Focus::Messages,
    }
}

impl Focus {
    /// The next panel (Tab).
    pub fn next(self) -> (r: Self)
        ensures
            r == focus_after(self),
    {
        match self {
            Focus::ChatList => Focus::Messages,
            Focus::Messages => Focus::Input,
            Focus::Input => Focus::ChatList,
        }
    }

    /// The previous panel (Shift+Tab).
    pub fn prev(self) -> (r: Self)
        ensures
            r == focus_before(self),
    {
        match self {
            Focus::ChatList => Focus::Input,
            Focus::Messages => Focus::ChatList,
            Focus::Input => Focus::Messages,
        }
    }
}

/// Moving to the next panel and back (or back and then forward) returns to
/// the panel one started from, and three steps in either direction go
/// round the whole cycle.
pub proof fn lemma_focus_cycle(f: Focus)
    ensures
        focus_before(focus_after(f)) == f,
        focus_after(focus_before(f)) == f,
        focus_after(focus_after(focus_after(f))) == f,
        focus_before(focus_before(focus_before(f))) == f,
        focus_after(f) != f,
{
}

/// Application running state.
#[derive(Debug, Clone, Copy, PartialEq, Eq, Structural)]
pub enum RunningState {
    Running,
    Done,
}

/// Work the update loop hands to the surrounding program.
#[derive(Debug)]
pub enum AsyncAction {
    ValidateSession,
    /// offset
    LoadConversations(u32),
    /// peer_id, offset
    LoadMessages(i64, u32),
    /// peer_id, message_id
    LoadMessagesAround(i64, i64),
    /// peer_id, start_message_id, offset, count
    LoadMessagesWithOffset(i64, i64, i32, u32),
    /// peer_id, text
    SendMessage(i64, String),
    /// peer_id, message_ids, comment
    SendForward(i64, Vec<i64>, String),
    /// peer_id, reply_to_msg_id, text
    SendReply(i64, i64, String),
    StartLongPoll,
    MarkAsRead(i64),
    /// peer_id, path
    SendPhoto(i64, String),
    /// peer_id, path
    SendDoc(i64, String),
    DownloadAttachments(Vec<AttachmentInfo>),
    /// peer_id, message_id, cmid, text
    EditMessage(i64, i64, Option<i64>, String),
    /// peer_id, message_id, delete_for_all
    DeleteMessage(i64, i64, bool),
    /// message_id - to get cmid after sending
    FetchMessageById(i64),
    /// query
    SearchMessages(String),
    /// Open the OAuth page in the browser; answered by `AuthUrlOpened`.
    OpenAuthUrl(String),
    /// Open a link in the browser; answered by `LinkOpened`.
    OpenLink(String),
    /// Store the pasted token; answered by `TokenSaved`.
    SaveToken(ParsedToken),
    /// Remove the stored token; answered by `LoggedOut`.
    Logout,
    /// Save the clipboard image to a file for `peer_id`; answered by `ClipboardImage`.
    ReadClipboardImage(i64),
    /// List a directory for path completion; answered by `PathsListed`.
    ListPaths { path: String, base: String },
}

/// Chat filter state for local fuzzy search.
#[derive(Debug)]
pub struct ChatFilter {
    pub query: String,
    pub cursor: usize,
    pub filtered_indices: Vec<usize>,
}

impl ChatFilter {
    /// An empty filter.
    pub fn new() -> (r: Self)
        ensures
            r.query@.len() == 0,
            r.cursor == 0,
            r.filtered_indices@.len() == 0,
    {
        ChatFilter { query: String::new(), cursor: 0, filtered_indices: Vec::new() }
    }
}

/// Global search state.
#[derive(Debug)]
pub struct GlobalSearch {
    pub query: String,
    pub cursor: usize,
    pub results: Vec<SearchResult>,
    pub selected: usize,
    pub is_loading: bool,
    pub total_count: i32,
}

impl GlobalSearch {
    /// An empty search.
    pub fn new() -> (r: Self)
        ensures
            r.query@.len() == 0,
            r.cursor == 0,
            r.results@.len() == 0,
            r.selected == 0,
            !r.is_loading,
            r.total_count == 0,
    {
        GlobalSearch { query: String::new(), cursor: 0, results: Vec::new(), selected: 0, is_loading: false, total_count: 0 }
    }
}

/// Stage of forwarding a message.
#[derive(Debug)]
pub enum ForwardStage {
    SelectTarget,
    EnterComment { peer_id: i64, title: String },
}

/// Forward modal state.
#[derive(Debug)]
pub struct ForwardState {
    pub source_message_id: i64,
    pub query: String,
    pub filtered: Vec<Chat>,
    pub selected: usize,
    pub comment: String,
    pub stage: ForwardStage,
}

/// Viewer for forwarded content.
#[derive(Debug)]
pub struct ForwardView {
    pub items: Vec<ForwardItem>,
    pub selected: usize,
}

/// Application state (the Model).
pub struct App {
    pub running_state: RunningState,
    pub screen: Screen,
    pub focus: Focus,
    pub mode: Mode,
    pub forward: Option<ForwardState>,
    pub auth: AuthManager,
    pub token_input: String,
    pub token_cursor: usize,
    /// Whether an API client exists for the stored token.
    pub has_client: bool,
    pub users: HashMap<i64, User>,
    pub current_user: Option<User>,
    pub chats: Vec<Chat>,
    pub selected_chat: usize,
    pub current_peer_id: Option<i64>,
    pub messages: Vec<ChatMessage>,
    pub messages_scroll: usize,
    pub target_message_id: Option<i64>,
    pub reply_to: Option<(i64, ReplyPreview)>,
    pub chat_filter: Option<ChatFilter>,
    pub global_search: Option<GlobalSearch>,
    pub chats_pagination: ChatsPagination,
    pub messages_pagination: Option<MessagesPagination>,
    pub input: String,
    pub input_cursor: usize,
    pub command_input: String,
    pub command_cursor: usize,
    pub status: Option<String>,
    pub is_loading: bool,
    pub editing_message: Option<usize>,
    pub show_help: bool,
    pub forward_view: Option<ForwardView>,
    pub completion_state: CompletionState,
    /// Background work requested and not yet taken by the program.
    pub actions: Vec<AsyncAction>,
}

/// The status line shows exactly `text`.
pub open spec fn status_is(app: App, text: Seq<char>) -> bool {
    app.status matches Some(s) && s@ == text
}

/// Counters that the update loop increments stay below the machine limit
/// (a cursor or selection at `usize::MAX` would overflow on the next step).
pub open spec fn within_limits(app: App) -> bool {
    &&& app.token_cursor < usize::MAX
    &&& app.input_cursor < usize::MAX
    &&& app.command_cursor < usize::MAX
    &&& app.selected_chat < usize::MAX
    &&& app.messages_scroll < usize::MAX
    &&& (app.chat_filter matches Some(f) ==> f.cursor < usize::MAX)
    &&& (app.global_search matches Some(g) ==> g.cursor < usize::MAX && g.selected < usize::MAX)
    &&& (app.forward matches Some(f) ==> f.selected < usize::MAX)
    &&& (app.forward_view matches Some(v) ==> v.selected < usize::MAX)
}

/// Sets the status line to `text`.
pub fn set_status(app: &mut App, text: &str)
    ensures
        status_is(*final(app), text@),
        *final(app) == (App { status: final(app).status, ..*old(app) }),
{
    app.status = Some(string_of(text));
}

/// Name shown for a user id: the cached profile's full name, else
/// "Group N" for a community or "User N".
pub open spec fn user_name(users: Map<i64, User>, id: i64) -> Seq<char> {
    if users.contains_key(id) {
        full_name_of(users[id])
    } else if id < 0 {
        "Group "@ + decimal(-(id as int))
    } else {
        "User "@ + decimal(id as int)
    }
}

/// `id` can be named without overflowing its negation.
pub open spec fn nameable(users: Map<i64, User>, id: i64) -> bool {
    users.contains_key(id) || id != i64::MIN
}

/// The chat at position `selected` of the visible list: through the filter's
/// indices when a filter is active.
pub open spec fn visible_chat(app: App) -> Option<Chat> {
    match app.chat_filter {
        Some(f) => if app.selected_chat < f.filtered_indices@.len() && f.filtered_indices@[app.selected_chat as int] < app.chats@.len() {
            Some(app.chats@[f.filtered_indices@[app.selected_chat as int] as int])
        } else {
            None
        },
        None => if app.selected_chat < app.chats@.len() { Some(app.chats@[app.selected_chat as int]) } else { None },
    }
}

/// A client that has done nothing yet: running, in normal mode on the chat
/// list, with every field, list, cursor and popup empty; only the screen,
/// the token, whether a session runs, the status and the queued work are
/// left to say.
pub open spec fn starts_fresh(r: App) -> bool {
    &&& r.running_state == RunningState::Running
    &&& r.focus == Focus::ChatList
    &&& r.mode == Mode::Normal
    &&& r.forward is None
    &&& r.token_input@.len() == 0 && r.token_cursor == 0
    &&& r.users@ == Map::<i64, User>::empty()
    &&& r.current_user is None
    &&& r.chats@.len() == 0 && r.selected_chat == 0
    &&& r.current_peer_id is None
    &&& r.messages@.len() == 0 && r.messages_scroll == 0
    &&& r.target_message_id is None && r.reply_to is None
    &&& r.chat_filter is None && r.global_search is None
    &&& r.chats_pagination == (ChatsPagination { offset: 0, total_count: None, is_loading: false, has_more: false })
    &&& r.messages_pagination is None
    &&& r.input@.len() == 0 && r.input_cursor == 0
    &&& r.command_input@.len() == 0 && r.command_cursor == 0
    &&& !r.is_loading && r.editing_message is None && !r.show_help && r.forward_view is None
    &&& r.completion_state is Inactive
}

impl App {
    /// A fresh client state on the authorization screen holding `auth`.
    pub fn with_auth(auth: AuthManager) -> (r: Self)
        ensures
            starts_fresh(r),
            r.screen == Screen::Auth,
            r.auth == auth,
            !r.has_client,
            r.status is None,
            r.actions@.len() == 0,
    {
        App {
            running_state: RunningState::Running,
            screen: Screen::Auth,
            focus: Focus::ChatList,
            mode: Mode::Normal,
            forward: None,
            auth,
            token_input: String::new(),
            token_cursor: 0,
            has_client: false,
            users: HashMap::new(),
            current_user: None,
            chats: Vec::new(),
            selected_chat: 0,
            current_peer_id: None,
            messages: Vec::new(),
            messages_scroll: 0,
            target_message_id: None,
            reply_to: None,
            chat_filter: None,
            global_search: None,
            chats_pagination: ChatsPagination::default(),
            messages_pagination: None,
            input: String::new(),
            input_cursor: 0,
            command_input: String::new(),
            command_cursor: 0,
            status: None,
            is_loading: false,
            editing_message: None,
            show_help: false,
            forward_view: None,
            completion_state: CompletionState::Inactive,
            actions: Vec::new(),
        }
    }

    /// Starts the client with the stored token (if any), at time `now`: an
    /// unexpired token restores the session on the main screen; for an
    /// expired one the removal of the stored token is requested, with a
    /// notice.
    pub fn new(auth: AuthManager, now: i64) -> (r: Self)
        ensures
            starts_fresh(r),
            match auth.token {
                Some(t) => if t.expires_at matches Some(e) && now >= e {
                    r.screen == Screen::Auth && !r.has_client && r.auth == auth
                        && status_is(r, "Session expired. Please authorize again."@)
                        && r.actions@ == seq![AsyncAction::Logout]
                } else {
                    r.screen == Screen::Main && r.has_client && r.auth == auth
                        && status_is(r, "Restoring session..."@) && r.actions@.len() == 0
                },
                None => r.screen == Screen::Auth && !r.has_client && r.auth == auth && r.status is None && r.actions@.len() == 0,
            },
    {
        let expired = match &auth.token {
            Some(t) => match t.expires_at {
                Some(e) => now >= e,
                None => false,
            },
            None => false,
        };
        let present = auth.token.is_some();
        let mut app = App::with_auth(auth);
        if present {
            if expired {
                app.actions.push(AsyncAction::Logout);
                app.screen = Screen::Auth;
                app.status = Some(string_of("Session expired. Please authorize again."));
                assert(app.actions@ == seq![AsyncAction::Logout]);
            } else {
                app.has_client = true;
                app.screen = Screen::Main;
                app.status = Some(string_of("Restoring session..."));
            }
        }
        app
    }

    /// The OAuth URL for display.
    pub fn auth_url(&self) -> (r: String)
        ensures
            r@ == crate::auth::auth_url(),
    {
        AuthManager::get_auth_url()
    }

    /// Whether the client keeps running.
    pub fn is_running(&self) -> (r: bool)
        ensures
            r == (self.running_state == RunningState::Running),
    {
        self.running_state == RunningState::Running
    }

    /// Queues background work.
    pub fn send_action(&mut self, action: AsyncAction)
        ensures
            final(self).actions@ == old(self).actions@.push(action),
            *final(self) == (App { actions: final(self).actions, ..*old(self) }),
    {
        self.actions.push(action);
    }

    /// Takes the queued background work, oldest first.
    pub fn take_actions(&mut self) -> (r: Vec<AsyncAction>)
        ensures
            r@ == old(self).actions@,
            final(self).actions@.len() == 0,
            *final(self) == (App { actions: final(self).actions, ..*old(self) }),
    {
        let mut out: Vec<AsyncAction> = Vec::new();
        std::mem::swap(&mut out, &mut self.actions);
        out
    }

    /// The highlighted chat, through the filter when one is active.
    pub fn current_chat(&self) -> (r: Option<&Chat>)
        ensures
            match visible_chat(*self) {
                Some(c) => r matches Some(x) && *x == c,
                None => r is None,
            },
    {
        match &self.chat_filter {
            Some(filter) => {
                if self.selected_chat < filter.filtered_indices.len() {
                    let idx = filter.filtered_indices[self.selected_chat];
                    if idx < self.chats.len() {
                        Some(&self.chats[idx])
                    } else {
                        None
                    }
                } else {
                    None
                }
            },
            None => {
                if self.selected_chat < self.chats.len() {
                    Some(&self.chats[self.selected_chat])
                } else {
                    None
                }
            },
        }
    }

    /// The name to show for a user id.
    pub fn get_user_name(&self, user_id: i64) -> (r: String)
        requires
            nameable(self.users@, user_id),
        ensures
            r@ == user_name(self.users@, user_id),
    {
        match self.users.get(&user_id) {
            Some(user) => user.full_name(),
            None => crate::mapper::fallback_name(user_id),
        }
    }

    /// The highlighted message.
    pub fn current_message(&self) -> (r: Option<&ChatMessage>)
        ensures
            self.messages_scroll < self.messages@.len() ==> (r matches Some(m) && *m == self.messages@[self.messages_scroll as int]),
            self.messages_scroll >= self.messages@.len() ==> r is None,
    {
        if self.messages_scroll < self.messages.len() {
            Some(&self.messages[self.messages_scroll])
        } else {
            None
        }
    }
}

/// Messages for the update loop.
#[derive(Debug)]
pub enum Message {
    Noop,
    Quit,
    OpenAuthUrl,
    FocusNext,
    FocusPrev,
    NavigateUp,
    NavigateDown,
    PageUp,
    PageDown,
    Select,
    Back,
    InputChar(char),
    InputBackspace,
    InputDeleteWord,
    InputSubmit,
    CommandChar(char),
    CommandBackspace,
    CommandDeleteWord,
    CommandSubmit,
    CompletionUp,
    CompletionDown,
    CompletionSelect,
    EnterNormalMode,
    EnterInsertMode,
    EnterCommandMode,
    GoToTop,
    GoToBottom,
    ReplyToMessage,
    ForwardMessage,
    DeleteMessage,
    EditMessage,
    YankMessage,
    PinMessage,
    OpenLink,
    DownloadAttachment,
    CancelReply,
    ViewForwarded,
    ForwardViewClose,
    ForwardViewUp,
    ForwardViewDown,
    ForwardCancel,
    ForwardMoveUp,
    ForwardMoveDown,
    ForwardQueryChar(char),
    ForwardQueryBackspace,
    ForwardQueryDeleteWord,
    ForwardSubmit,
    ForwardCommentChar(char),
    ForwardCommentBackspace,
    ForwardCommentDeleteWord,
    VkEvent(VkEvent),
    SessionValidated { valid: bool, error: Option<String> },
    ConversationsLoaded { chats: Vec<Chat>, profiles: Vec<User>, total_count: u32, has_more: bool },
    MessagesLoaded { peer_id: i64, messages: Vec<ChatMessage>, profiles: Vec<User>, total_count: u32, has_more: bool },
    MessageSent(i64, i64),
    MessageEdited(i64),
    MessageDeleted(i64),
    MessageDetailsFetched {
        message_id: i64,
        cmid: Option<i64>,
        text: Option<String>,
        is_edited: bool,
        attachments: Option<Vec<AttachmentInfo>>,
        reply: Option<ReplyPreview>,
        fwd_count: Option<usize>,
        forwards: Option<Vec<ForwardItem>>,
    },
    Error(String),
    SendFailed(String),
    StartSearch,
    ToggleHelp,
    ClosePopup,
    StartChatFilter,
    FilterChar(char),
    FilterBackspace,
    ClearFilter,
    StartGlobalSearch,
    GlobalSearchChar(char),
    GlobalSearchBackspace,
    ClearGlobalSearch,
    GlobalSearchUp,
    GlobalSearchDown,
    GlobalSearchSelect,
    SearchResultsLoaded { results: Vec<SearchResult>, total_count: i32 },
    /// The browser was asked to open the OAuth page; the error if it failed.
    AuthUrlOpened(Option<String>),
    /// The browser was asked to open a link; the error if it failed.
    LinkOpened(String, Option<String>),
    /// The pasted token was stored (or storing it failed).
    TokenSaved(Result<TokenData, String>),
    /// The stored token was removed (or removing it failed).
    LoggedOut(Result<(), String>),
    /// The clipboard image was saved to a file (or could not be read).
    ClipboardImage(i64, Result<String, String>),
    /// A directory listing for path completion: the listed directory, the
    /// file name prefix typed, and the entries found.
    PathsListed { base_path: String, prefix: String, entries: Vec<PathEntry> },
}

} // verus!
