//! The frontend-independent client state: the session, users, chats,
//! messages, pagination and search results.

use vstd::prelude::*;
use std::collections::HashMap;
use crate::api::User;
use crate::auth::AuthManager;
use crate::models::{Chat, ChatMessage, SearchResult};
use crate::pagination::{ChatsPagination, MessagesPagination};
use crate::app_state::{nameable, user_name};

verus! {

broadcast use vstd::std_specs::hash::group_hash_axioms;

/// Core application state shared between frontends. Whether an API client
/// is running is kept as `has_client`; the client itself lives with the
/// program.
pub struct CoreState {
    pub auth: AuthManager,
    pub has_client: bool,
    pub users: HashMap<i64, User>,
    pub current_user: Option<User>,
    pub chats: Vec<Chat>,
    pub selected_chat: usize,
    pub current_peer_id: Option<i64>,
    pub messages: Vec<ChatMessage>,
    pub selected_message: usize,
    pub target_message_id: Option<i64>,
    pub chats_pagination: ChatsPagination,
    pub messages_pagination: Option<MessagesPagination>,
    pub search_results: Vec<SearchResult>,
    pub search_total: i32,
}

/// A core state holding nothing yet but `auth` and whether a client runs.
pub open spec fn core_empty(r: CoreState, auth: AuthManager, has_client: bool) -> bool {
    &&& r.auth == auth && r.has_client == has_client
    &&& r.users@ == Map::<i64, User>::empty() && r.current_user is None
    &&& r.chats@.len() == 0 && r.selected_chat == 0 && r.current_peer_id is None
    &&& r.messages@.len() == 0 && r.selected_message == 0 && r.target_message_id is None
    &&& r.chats_pagination == (ChatsPagination { offset: 0, total_count: None, is_loading: false, has_more: false })
    &&& r.messages_pagination is None
    &&& r.search_results@.len() == 0 && r.search_total == 0
}

impl CoreState {
    fn empty(auth: AuthManager, has_client: bool) -> (r: Self)
        ensures
            core_empty(r, auth, has_client),
    {
        CoreState {
            auth,
            has_client,
            users: HashMap::new(),
            current_user: None,
            chats: Vec::new(),
            selected_chat: 0,
            current_peer_id: None,
            messages: Vec::new(),
            selected_message: 0,
            target_message_id: None,
            chats_pagination: ChatsPagination::default(),
            messages_pagination: None,
            search_results: Vec::new(),
            search_total: 0,
        }
    }

    /// A new core state with the stored token `auth` and no client.
    pub fn new(auth: AuthManager) -> (r: Self)
        ensures
            core_empty(r, auth, false),
    {
        CoreState::empty(auth, false)
    }

    /// A new core state with a running client.
    pub fn with_client(auth: AuthManager) -> (r: Self)
        ensures
            core_empty(r, auth, true),
    {
        CoreState::empty(auth, true)
    }

    /// The selected chat, if the selection is in the list.
    pub fn current_chat(&self) -> (r: Option<&Chat>)
        ensures
            self.selected_chat < self.chats@.len() ==> (r matches Some(c) && *c == self.chats@[self.selected_chat as int]),
            self.selected_chat >= self.chats@.len() ==> r is None,
    {
        if self.selected_chat < self.chats.len() {
            Some(&self.chats[self.selected_chat])
        } else {
            None
        }
    }

    /// The selected message, if the selection is in the list.
    pub fn current_message(&self) -> (r: Option<&ChatMessage>)
        ensures
            self.selected_message < self.messages@.len() ==> (r matches Some(m) && *m == self.messages@[self.selected_message as int]),
            self.selected_message >= self.messages@.len() ==> r is None,
    {
        if self.selected_message < self.messages.len() {
            Some(&self.messages[self.selected_message])
        } else {
            None
        }
    }

    /// The name to show for a user id.
    pub fn get_user_name(&self, user_id: i64) -> (r: String)
        requires
            nameable(self.users@, user_id),
        ensures
            r@ == user_name(self.users@, user_id),
    {
        match self.users.get(&user_id) {
            Some(user) => user.full_name(),
            None => crate::mapper::fallback_name(user_id),
        }
    }

    /// Whether a client runs.
    pub fn is_authenticated(&self) -> (r: bool)
        ensures
            r == self.has_client,
    {
        self.has_client
    }
}

} // verus!
