//! Turning API responses into what the client shows: a page of chats, a
//! page of a chat's history, search results and a message's details.

use vstd::prelude::*;
use crate::text::{string_of, push_i64, decimal};
use crate::models::{Chat, ChatMessage, ForwardItem, SearchResult};
use crate::api::{Conversation, ConversationItem, ConversationsResponse, Message as ApiMessage, MessagesHistoryResponse, SearchResponse, User, full_name_of};
use crate::mapper::{message_fits, reply_fits, attachments_fit, name_fits, find_user, find_user_index, message_ok, reply_ok, maps_history, map_history_message, map_attachments, maps_attachments, map_reply, maps_reply, map_forward_tree, maps_forward, attachments_ok, name_lookup_ok, attachment_ok, sizes_ok, size_score};
use crate::app_state::Message;

verus! {

broadcast use vstd::string::group_string_axioms;

/// A chat's title: its settings' title for a group chat, else the name of
/// the user it is with, else "Chat N".
pub open spec fn chat_title(item: ConversationItem, profiles: Seq<User>) -> Seq<char> {
    match item.conversation.chat_settings {
        Some(s) => s.title@,
        None => match find_user(profiles, item.conversation.peer.id) {
            Some(u) => full_name_of(u),
            None => "Chat "@ + decimal(item.conversation.peer.id as int),
        },
    }
}

/// Whether the peer's profile reports it online (any nonzero value).
pub open spec fn peer_online(peer: i64, profiles: Seq<User>) -> bool {
    match find_user(profiles, peer) {
        Some(u) => u.online matches Some(v) && v != 0,
        None => false,
    }
}

/// The chat-list entry for a conversation.
pub open spec fn chat_of(item: ConversationItem, profiles: Seq<User>, c: Chat) -> bool {
    &&& c.id == item.conversation.peer.id
    &&& c.title@ == chat_title(item, profiles)
    &&& c.last_message@ == item.last_message.text@
    &&& c.last_message_time == item.last_message.date
    &&& c.unread_count == match item.conversation.unread_count { Some(n) => n, None => 0 }
    &&& c.is_online == peer_online(item.conversation.peer.id, profiles)
}

fn title_of_chat(item: &ConversationItem, profiles: &[User]) -> (r: String)
    ensures
        r@ == chat_title(*item, profiles@),
{
    match &item.conversation.chat_settings {
        Some(s) => s.title.clone(),
        None => match find_user_index(profiles, item.conversation.peer.id) {
            Some(i) => profiles[i].full_name(),
            None => {
                let mut out = string_of("Chat ");
                push_i64(&mut out, item.conversation.peer.id);
                out
            },
        },
    }
}

fn online_of(peer: i64, profiles: &[User]) -> (r: bool)
    ensures
        r == peer_online(peer, profiles@),
{
    match find_user_index(profiles, peer) {
        Some(i) => match profiles[i].online {
            Some(v) => v != 0,
            None => false,
        },
        None => false,
    }
}

/// A page of the chat list.
pub struct ChatsPage {
    pub chats: Vec<Chat>,
    pub total_count: u32,
    pub has_more: bool,
}

/// The chat list page for a response to a request at `offset`: one entry
/// per conversation, the total as the API counts it, and whether chats lie
/// beyond this page.
pub fn chats_page(response: &ConversationsResponse, offset: u32) -> (r: ChatsPage)
    requires
        offset + response.items@.len() <= u32::MAX,
    ensures
        r.chats@.len() == response.items@.len(),
        forall|i: int| 0 <= i < response.items@.len() ==> chat_of(#[trigger] response.items@[i], response.profiles@, r.chats@[i]),
        r.total_count == response.count as u32,
        r.has_more == (offset + response.items@.len() < response.count as u32),
{
    let n = response.items.len();
    let mut chats: Vec<Chat> = Vec::new();
    let mut i: usize = 0;
    while i < n
        invariant
            n == response.items@.len(),
            i <= n,
            chats@.len() == i,
            forall|k: int| 0 <= k < i ==> chat_of(#[trigger] response.items@[k], response.profiles@, chats@[k]),
        decreases n - i,
    {
        let item = &response.items[i];
        chats.push(Chat {
            id: item.conversation.peer.id,
            title: title_of_chat(item, response.profiles.as_slice()),
            last_message: item.last_message.text.clone(),
            last_message_time: item.last_message.date,
            unread_count: match item.conversation.unread_count {
                Some(c) => c,
                None => 0,
            },
            is_online: online_of(item.conversation.peer.id, response.profiles.as_slice()),
        });
        i = i + 1;
    }
    let total = response.count as u32;
    let loaded = n as u32;
    ChatsPage { chats, total_count: total, has_more: offset + loaded < total }
}

/// Which part of a history was asked for: the latest messages from
/// `offset`, the messages around one message, or `count` messages from a
/// starting message.
#[derive(Debug, Clone, Copy, PartialEq, Eq, Structural)]
pub enum HistoryRequest {
    Latest { offset: u32 },
    Around,
    FromMessage { count: u32 },
}

/// A page of a chat's history.
pub struct HistoryPage {
    pub messages: Vec<ChatMessage>,
    pub total_count: u32,
    pub has_more: bool,
}

/// Every message of a response can be converted.
pub open spec fn history_ok(profiles: Seq<User>, items: Seq<ApiMessage>) -> bool {
    forall|i: int| 0 <= i < items.len() ==> message_ok(profiles, #[trigger] items[i]) && reply_ok(profiles, items[i])
}

/// The id of the last outgoing message the peer has read, from the first
/// conversation of the response (0 when unknown).
pub open spec fn out_read_of(convs: Seq<Conversation>) -> i64 {
    if convs.len() > 0 {
        match convs[0].out_read { Some(v) => v, None => 0 }
    } else {
        0
    }
}

/// Whether more history lies beyond a page of `loaded` messages.
pub open spec fn history_has_more(request: HistoryRequest, loaded: int, total: u32) -> bool {
    match request {
        HistoryRequest::Latest { offset } => offset + loaded < total,
        HistoryRequest::Around => true,
        HistoryRequest::FromMessage { count } => loaded == count,
    }
}

/// The history page for a response: the messages oldest first (the API
/// lists them newest first), converted with the peer's read mark.
pub fn history_page(response: &MessagesHistoryResponse, request: HistoryRequest) -> (r: HistoryPage)
    requires
        history_ok(response.profiles@, response.items@),
        response.items@.len() <= u32::MAX,
        request matches HistoryRequest::Latest { offset } ==> offset + response.items@.len() <= u32::MAX,
    ensures
        r.messages@.len() == response.items@.len(),
        forall|i: int| 0 <= i < response.items@.len() ==> maps_history(
            response.profiles@,
            #[trigger] response.items@[response.items@.len() - 1 - i],
            out_read_of(response.conversations@),
            r.messages@[i],
        ),
        r.total_count == response.count as u32,
        r.has_more == history_has_more(request, response.items@.len() as int, response.count as u32),
{
    let out_read = if response.conversations.len() > 0 {
        match response.conversations[0].out_read {
            Some(v) => v,
            None => 0,
        }
    } else {
        0
    };
    let n = response.items.len();
    let mut messages: Vec<ChatMessage> = Vec::new();
    let mut k: usize = 0;
    while k < n
        invariant
            n == response.items@.len(),
            k <= n,
            history_ok(response.profiles@, response.items@),
            out_read == out_read_of(response.conversations@),
            messages@.len() == k,
            forall|i: int| 0 <= i < k ==> maps_history(
                response.profiles@,
                #[trigger] response.items@[n - 1 - i],
                out_read,
                messages@[i],
            ),
        decreases n - k,
    {
        let j = n - 1 - k;
        assert(message_ok(response.profiles@, response.items@[j as int]));
        messages.push(map_history_message(response.profiles.as_slice(), &response.items[j], out_read));
        k = k + 1;
    }
    let total = response.count as u32;
    let loaded = n as u32;
    let has_more = match request {
        HistoryRequest::Latest { offset } => offset + loaded < total,
        HistoryRequest::Around => true,
        HistoryRequest::FromMessage { count } => loaded == count,
    };
    HistoryPage { messages, total_count: total, has_more }
}

/// The last conversation with peer `peer` (a later entry replaces an
/// earlier one).
pub open spec fn last_conversation(convs: Seq<Conversation>, peer: i64) -> Option<Conversation>
    decreases convs.len(),
{
    if convs.len() == 0 {
        None
    } else if convs.last().peer.id == peer {
        Some(convs.last())
    } else {
        last_conversation(convs.drop_last(), peer)
    }
}

/// The last profile with id `id`.
pub open spec fn last_user(users: Seq<User>, id: i64) -> Option<User>
    decreases users.len(),
{
    if users.len() == 0 {
        None
    } else if users.last().id == id {
        Some(users.last())
    } else {
        last_user(users.drop_last(), id)
    }
}

/// The chat a search hit was found in: the conversation's title for a group
/// chat, else the name of the user it is with, else "Chat N".
pub open spec fn hit_chat_title(resp: SearchResponse, peer: i64) -> Seq<char> {
    match last_conversation(resp.conversations@, peer) {
        Some(c) => match c.chat_settings {
            Some(s) => s.title@,
            None => match last_user(resp.profiles@, peer) {
                Some(u) => full_name_of(u),
                None => "Chat "@ + decimal(peer as int),
            },
        },
        None => "Chat "@ + decimal(peer as int),
    }
}

/// The sender of a search hit: the profile's name, else "User N".
pub open spec fn hit_from_name(resp: SearchResponse, from: i64) -> Seq<char> {
    match last_user(resp.profiles@, from) {
        Some(u) => full_name_of(u),
        None => "User "@ + decimal(from as int),
    }
}

/// `r` is the search result for hit `m`.
pub open spec fn hit_of(resp: SearchResponse, m: ApiMessage, r: SearchResult) -> bool {
    &&& r.message_id == m.id && r.peer_id == m.peer_id && r.from_id == m.from_id
    &&& r.from_name@ == hit_from_name(resp, m.from_id)
    &&& r.chat_title@ == hit_chat_title(resp, m.peer_id)
    &&& r.text@ == m.text@
    &&& r.timestamp == m.date
}

fn find_last_conversation(convs: &Vec<Conversation>, peer: i64) -> (r: Option<usize>)
    ensures
        r matches Some(i) ==> i < convs@.len() && last_conversation(convs@, peer) == Some(convs@[i as int]),
        r is None ==> last_conversation(convs@, peer) is None,
{
    let mut i: usize = convs.len();
    assert(convs@.take(i as int) == convs@);
    while i > 0
        invariant
            i <= convs@.len(),
            last_conversation(convs@, peer) == last_conversation(convs@.take(i as int), peer),
        decreases i,
    {
        assert(convs@.take(i as int).drop_last() == convs@.take(i - 1));
        if convs[i - 1].peer.id == peer {
            return Some(i - 1);
        }
        i = i - 1;
    }
    None
}

fn find_last_user(users: &Vec<User>, id: i64) -> (r: Option<usize>)
    ensures
        r matches Some(i) ==> i < users@.len() && last_user(users@, id) == Some(users@[i as int]),
        r is None ==> last_user(users@, id) is None,
{
    let mut i: usize = users.len();
    assert(users@.take(i as int) == users@);
    while i > 0
        invariant
            i <= users@.len(),
            last_user(users@, id) == last_user(users@.take(i as int), id),
        decreases i,
    {
        assert(users@.take(i as int).drop_last() == users@.take(i - 1));
        if users[i - 1].id == id {
            return Some(i - 1);
        }
        i = i - 1;
    }
    None
}

/// The search results for a response, one per hit, in order.
pub fn search_results(response: &SearchResponse) -> (r: Vec<SearchResult>)
    ensures
        r@.len() == response.items@.len(),
        forall|i: int| 0 <= i < response.items@.len() ==> hit_of(*response, #[trigger] response.items@[i], r@[i]),
{
    proof {
        assert(response.conversations@.take(response.conversations@.len() as int) == response.conversations@);
        assert(response.profiles@.take(response.profiles@.len() as int) == response.profiles@);
    }
    let n = response.items.len();
    let mut out: Vec<SearchResult> = Vec::new();
    let mut i: usize = 0;
    while i < n
        invariant
            n == response.items@.len(),
            i <= n,
            out@.len() == i,
            forall|k: int| 0 <= k < i ==> hit_of(*response, #[trigger] response.items@[k], out@[k]),
        decreases n - i,
    {
        let m = &response.items[i];
        let peer_id = m.peer_id;
        let from_id = m.from_id;
        let chat_title = match find_last_conversation(&response.conversations, peer_id) {
            Some(c) => match &response.conversations[c].chat_settings {
                Some(s) => s.title.clone(),
                None => match find_last_user(&response.profiles, peer_id) {
                    Some(u) => response.profiles[u].full_name(),
                    None => {
                        let mut t = string_of("Chat ");
                        push_i64(&mut t, peer_id);
                        t
                    },
                },
            },
            None => {
                let mut t = string_of("Chat ");
                push_i64(&mut t, peer_id);
                t
            },
        };
        let from_name = match find_last_user(&response.profiles, from_id) {
            Some(u) => response.profiles[u].full_name(),
            None => {
                let mut t = string_of("User ");
                push_i64(&mut t, from_id);
                t
            },
        };
        out.push(SearchResult {
            message_id: m.id,
            peer_id,
            from_id,
            from_name,
            chat_title,
            text: m.text.clone(),
            timestamp: m.date,
        });
        i = i + 1;
    }
    out
}

/// The details of a fetched message can be converted (no profiles are
/// used, so every sender id must be namable).
pub open spec fn details_ok(m: ApiMessage) -> bool {
    &&& attachments_ok(m.attachments@)
    &&& (m.reply_message matches Some(r) ==> name_lookup_ok(seq![], r.from_id) && attachments_ok(r.attachments@))
    &&& forall|i: int| 0 <= i < m.fwd_messages@.len() ==> message_ok(seq![], #[trigger] m.fwd_messages@[i])
}

/// `d` carries the details of fetched message `m`.
pub open spec fn details_of(m: ApiMessage, d: Message) -> bool {
    match d {
        Message::MessageDetailsFetched { message_id, cmid, text, is_edited, attachments, reply, fwd_count, forwards } => {
            &&& message_id == m.id && cmid == m.conversation_message_id
            &&& text is Some && text->0@ == m.text@
            &&& is_edited == m.update_time is Some
            &&& attachments is Some && maps_attachments(m.attachments@, attachments->0@)
            &&& match m.reply_message {
                Some(rm) => reply is Some && maps_reply(seq![], *rm, reply->0),
                None => reply is None,
            }
            &&& forwards is Some && forwards->0@.len() == m.fwd_messages@.len()
            &&& forall|i: int| 0 <= i < m.fwd_messages@.len() ==> maps_forward(seq![], #[trigger] m.fwd_messages@[i], forwards->0@[i])
            &&& fwd_count == Some(m.fwd_messages@.len() as usize)
        },
        _ => false,
    }
}

/// The details of the first fetched message, as the update loop takes them:
/// its cmid, text, edited flag, attachments, reply preview and forwarded
/// messages (converted without profiles); nothing for an empty response.
pub fn message_details(messages: &Vec<ApiMessage>) -> (r: Option<Message>)
    requires
        messages@.len() > 0 ==> details_ok(messages@[0]),
    ensures
        messages@.len() == 0 ==> r is None,
        messages@.len() > 0 ==> (r matches Some(d) && details_of(messages@[0], d)),
{
    if messages.len() == 0 {
        return None;
    }
    let m = &messages[0];
    let no_profiles: Vec<User> = Vec::new();
    assert(no_profiles@ == Seq::<User>::empty());
    let attachments = map_attachments(&m.attachments);
    let reply = match &m.reply_message {
        Some(rm) => Some(map_reply(no_profiles.as_slice(), rm)),
        None => None,
    };
    let n = m.fwd_messages.len();
    let mut forwards: Vec<ForwardItem> = Vec::new();
    let mut i: usize = 0;
    while i < n
        invariant
            n == m.fwd_messages@.len(),
            i <= n,
            no_profiles@ == Seq::<User>::empty(),
            details_ok(*m),
            forwards@.len() == i,
            forall|k: int| 0 <= k < i ==> maps_forward(seq![], #[trigger] m.fwd_messages@[k], forwards@[k]),
        decreases n - i,
    {
        assert(message_ok(seq![], m.fwd_messages@[i as int]));
        forwards.push(map_forward_tree(no_profiles.as_slice(), &m.fwd_messages[i]));
        i = i + 1;
    }
    let count = forwards.len();
    Some(Message::MessageDetailsFetched {
        message_id: m.id,
        cmid: m.conversation_message_id,
        text: Some(m.text.clone()),
        is_edited: m.update_time.is_some(),
        attachments: Some(attachments),
        reply,
        fwd_count: Some(count),
        forwards: Some(forwards),
    })
}

/// Whether every message of a history response can be converted.
pub fn history_fits(profiles: &Vec<User>, items: &Vec<ApiMessage>) -> (r: bool)
    ensures
        r == history_ok(profiles@, items@),
{
    let n = items.len();
    let mut i: usize = 0;
    while i < n
        invariant
            n == items@.len(),
            i <= n,
            forall|k: int| 0 <= k < i ==> message_ok(profiles@, #[trigger] items@[k]) && reply_ok(profiles@, items@[k]),
        decreases n - i,
    {
        if !message_fits(profiles.as_slice(), &items[i]) || !reply_fits(profiles.as_slice(), &items[i]) {
            return false;
        }
        i = i + 1;
    }
    true
}

/// Whether the first fetched message's details can be converted.
pub fn details_fit(messages: &Vec<ApiMessage>) -> (r: bool)
    ensures
        r == (messages@.len() > 0 ==> details_ok(messages@[0])),
{
    if messages.len() == 0 {
        return true;
    }
    let m = &messages[0];
    let none: Vec<User> = Vec::new();
    assert(none@ == Seq::<User>::empty());
    if !attachments_fit(&m.attachments) {
        return false;
    }
    match &m.reply_message {
        Some(rm) => {
            if !name_fits(none.as_slice(), rm.from_id) || !attachments_fit(&rm.attachments) {
                return false;
            }
        },
        None => {},
    }
    let n = m.fwd_messages.len();
    let mut i: usize = 0;
    while i < n
        invariant
            n == m.fwd_messages@.len(),
            i <= n,
            none@ == Seq::<User>::empty(),
            messages@.len() > 0,
            *m == messages@[0],
            attachments_ok(m.attachments@),
            m.reply_message matches Some(r) ==> name_lookup_ok(seq![], r.from_id) && attachments_ok(r.attachments@),
            forall|k: int| 0 <= k < i ==> message_ok(seq![], #[trigger] m.fwd_messages@[k]),
        decreases n - i,
    {
        if !message_fits(none.as_slice(), &m.fwd_messages[i]) {
            assert(!message_ok(seq![], m.fwd_messages@[i as int]));
            return false;
        }
        i = i + 1;
    }
    true
}

} // verus!
