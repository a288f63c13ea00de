//! Update-loop transitions for what background work and the long poll
//! report: session checks, loaded chats, sent/edited/deleted messages,
//! errors and live events.

use vstd::prelude::*;
use std::collections::HashMap;
use crate::text::{string_of, push_str, push_u64_digits, decimal};
use crate::models::{AttachmentInfo, Chat, ChatMessage, DeliveryStatus, ForwardItem, ReplyPreview};
use crate::api::User;
use crate::auth::AuthManager;
use crate::format::{is_auth_error, auth_error};
use crate::events::VkEvent;
use crate::pagination::ChatsPagination;
use crate::app_state::{App, Screen, Focus, Mode, AsyncAction, status_is, set_status, user_name, nameable};
use crate::update_command::status_only;
use crate::update_message::queued;

verus! {

broadcast use vstd::string::group_string_axioms, vstd::std_specs::hash::group_hash_axioms;

/// Position of the first message with id `id` at or after `i`.
pub open spec fn message_pos_from(ms: Seq<ChatMessage>, id: i64, i: int) -> Option<int>
    decreases ms.len() - i,
{
    if i < 0 || i >= ms.len() {
        None
    } else if ms[i].id == id {
        Some(i)
    } else {
        message_pos_from(ms, id, i + 1)
    }
}

/// Position of the first message with id `id`.
pub open spec fn message_pos(ms: Seq<ChatMessage>, id: i64) -> Option<int> {
    message_pos_from(ms, id, 0)
}

proof fn lemma_message_pos_bounds(ms: Seq<ChatMessage>, id: i64, i: int)
    ensures
        message_pos_from(ms, id, i) matches Some(p) ==> i <= p < ms.len() && ms[p].id == id,
    decreases ms.len() - i,
{
    if 0 <= i < ms.len() && ms[i].id != id {
        lemma_message_pos_bounds(ms, id, i + 1);
    }
}

/// Finds the first message with id `id`.
pub fn find_message(ms: &Vec<ChatMessage>, id: i64) -> (r: Option<usize>)
    ensures
        r matches Some(i) ==> message_pos(ms@, id) == Some(i as int) && i < ms@.len() && ms@[i as int].id == id,
        r is None ==> message_pos(ms@, id) is None,
{
    proof {
        lemma_message_pos_bounds(ms@, id, 0);
    }
    let n = ms.len();
    let mut i: usize = 0;
    while i < n
        invariant
            n == ms@.len(),
            i <= n,
            message_pos(ms@, id) == message_pos_from(ms@, id, i as int),
        decreases n - i,
    {
        if ms[i].id == id {
            return Some(i);
        }
        i = i + 1;
    }
    None
}

/// Position of the first chat with id `id` at or after `i`.
pub open spec fn chat_pos_from(cs: Seq<Chat>, id: i64, i: int) -> Option<int>
    decreases cs.len() - i,
{
    if i < 0 || i >= cs.len() {
        None
    } else if cs[i].id == id {
        Some(i)
    } else {
        chat_pos_from(cs, id, i + 1)
    }
}

/// Position of the first chat with id `id`.
pub open spec fn chat_pos(cs: Seq<Chat>, id: i64) -> Option<int> {
    chat_pos_from(cs, id, 0)
}

proof fn lemma_chat_pos_bounds(cs: Seq<Chat>, id: i64, i: int)
    ensures
        chat_pos_from(cs, id, i) matches Some(p) ==> i <= p < cs.len() && cs[p].id == id,
    decreases cs.len() - i,
{
    if 0 <= i < cs.len() && cs[i].id != id {
        lemma_chat_pos_bounds(cs, id, i + 1);
    }
}

/// The chat `peer` (if listed) can count one more unread message.
pub open spec fn unread_room(cs: Seq<Chat>, peer: i64) -> bool {
    match chat_pos(cs, peer) {
        Some(p) => cs[p].unread_count < u32::MAX,
        None => true,
    }
}

/// Whether the chat `peer` (if listed) can count one more unread message.
pub fn unread_room_check(cs: &Vec<Chat>, peer: i64) -> (r: bool)
    ensures
        r == unread_room(cs@, peer),
{
    match find_chat(cs, peer) {
        Some(p) => cs[p].unread_count < u32::MAX,
        None => true,
    }
}

/// Finds the first chat with id `id`.
pub fn find_chat(cs: &Vec<Chat>, id: i64) -> (r: Option<usize>)
    ensures
        r matches Some(i) ==> chat_pos(cs@, id) == Some(i as int) && i < cs@.len() && cs@[i as int].id == id,
        r is None ==> chat_pos(cs@, id) is None,
{
    proof {
        lemma_chat_pos_bounds(cs@, id, 0);
    }
    let n = cs.len();
    let mut i: usize = 0;
    while i < n
        invariant
            n == cs@.len(),
            i <= n,
            chat_pos(cs@, id) == chat_pos_from(cs@, id, i as int),
        decreases n - i,
    {
        if cs[i].id == id {
            return Some(i);
        }
        i = i + 1;
    }
    None
}

/// The chats with the unread counter of the first chat with id `peer` set
/// to `count`.
pub open spec fn with_unread(cs: Seq<Chat>, peer: i64, count: u32) -> Seq<Chat> {
    match chat_pos(cs, peer) {
        Some(p) => cs.update(p, Chat { unread_count: count, ..cs[p] }),
        None => cs,
    }
}

/// Sets the unread counter of the chat at `idx`.
pub(crate) fn set_unread(cs: &mut Vec<Chat>, idx: usize, count: u32)
    requires
        idx < old(cs)@.len(),
    ensures
        final(cs)@ == old(cs)@.update(idx as int, Chat { unread_count: count, ..old(cs)@[idx as int] }),
{
    let mut c = cs.remove(idx);
    c.unread_count = count;
    cs.insert(idx, c);
    assert(cs@ =~= old(cs)@.update(idx as int, Chat { unread_count: count, ..old(cs)@[idx as int] }));
}

/// Takes the message at `idx` out, leaving a placeholder-free list of the
/// same length once it is put back.
pub(crate) fn take_message(ms: &mut Vec<ChatMessage>, idx: usize) -> (m: ChatMessage)
    requires
        idx < old(ms)@.len(),
    ensures
        m == old(ms)@[idx as int],
        final(ms)@ == old(ms)@.remove(idx as int),
{
    ms.remove(idx)
}

/// A message as marked read: incoming messages when `outgoing` is false;
/// otherwise outgoing ones (up to id `up_to` when given), which also count
/// as delivered.
pub open spec fn read_marked(m: ChatMessage, outgoing: bool, up_to: Option<i64>) -> ChatMessage {
    if !outgoing {
        if !m.is_outgoing { ChatMessage { is_read: true, ..m } } else { m }
    } else if m.is_outgoing && match up_to { Some(u) => m.id <= u, None => true } {
        ChatMessage { is_read: true, delivery: DeliveryStatus::Sent, ..m }
    } else {
        m
    }
}

/// Marks messages read as `read_marked` says, keeping their order.
pub fn mark_read(ms: &mut Vec<ChatMessage>, outgoing: bool, up_to: Option<i64>)
    ensures
        final(ms)@.len() == old(ms)@.len(),
        forall|k: int| 0 <= k < old(ms)@.len() ==> #[trigger] final(ms)@[k] == read_marked(old(ms)@[k], outgoing, up_to),
{
    let ghost orig = ms@;
    let n = ms.len();
    let mut rev: Vec<ChatMessage> = Vec::new();
    while ms.len() > 0
        invariant
            n == orig.len(),
            ms@ == orig.take(ms@.len() as int),
            ms@.len() <= n,
            rev@.len() == n - ms@.len(),
            forall|k: int| 0 <= k < rev@.len() ==> #[trigger] rev@[k] == orig[n - 1 - k],
        decreases ms@.len(),
    {
        let m = ms.pop().unwrap();
        rev.push(m);
        assert(ms@ =~= orig.take(ms@.len() as int));
    }
    while rev.len() > 0
        invariant
            n == orig.len(),
            rev@.len() <= n,
            ms@.len() == n - rev@.len(),
            forall|k: int| 0 <= k < rev@.len() ==> #[trigger] rev@[k] == orig[n - 1 - k],
            forall|k: int| 0 <= k < ms@.len() ==> #[trigger] ms@[k] == read_marked(orig[k], outgoing, up_to),
        decreases rev@.len(),
    {
        let mut m = rev.pop().unwrap();
        if !outgoing {
            if !m.is_outgoing {
                m.is_read = true;
            }
        } else {
            let within = match up_to {
                Some(u) => m.id <= u,
                None => true,
            };
            if m.is_outgoing && within {
                m.is_read = true;
                m.delivery = DeliveryStatus::Sent;
            }
        }
        ms.push(m);
    }
}

/// The user cache with each profile stored under its id, later ones winning.
pub open spec fn with_profiles(users: Map<i64, User>, ps: Seq<User>) -> Map<i64, User>
    decreases ps.len(),
{
    if ps.len() == 0 {
        users
    } else {
        with_profiles(users, ps.drop_last()).insert(ps.last().id, ps.last())
    }
}

/// Stores each profile in the user cache.
pub fn add_profiles(users: &mut HashMap<i64, User>, profiles: &Vec<User>)
    ensures
        final(users)@ == with_profiles(old(users)@, profiles@),
{
    let n = profiles.len();
    let mut i: usize = 0;
    while i < n
        invariant
            n == profiles@.len(),
            i <= n,
            users@ == with_profiles(old(users)@, profiles@.take(i as int)),
        decreases n - i,
    {
        assert(profiles@.take(i + 1).drop_last() == profiles@.take(i as int));
        assert(profiles@.take(i + 1).last() == profiles@[i as int]);
        let u = profiles[i].clone();
        users.insert(u.id, u);
        i = i + 1;
    }
    assert(profiles@.take(n as int) == profiles@);
}

/// The session was signed out: the removal of the stored token is
/// requested (the token is dropped once it is gone, see `logged_out_done`)
/// and the authorization screen shown.
pub open spec fn signed_out(old: App, new: App) -> bool {
    &&& new.auth == old.auth
    &&& !new.has_client
    &&& new.screen == Screen::Auth
    &&& queued(old, new, AsyncAction::Logout)
}

fn sign_out(app: &mut App)
    ensures
        *final(app) == (App { has_client: false, screen: Screen::Auth, actions: final(app).actions, ..*old(app) }),
        signed_out(*old(app), *final(app)),
{
    app.has_client = false;
    app.screen = Screen::Auth;
    app.send_action(AsyncAction::Logout);
}

/// The answer to the startup session check: a valid session loads the
/// chats and starts the long poll; an authorization error signs out; any
/// other error is shown.
pub open spec fn session_validated_done(old: App, new: App, valid: bool, error: Option<String>) -> bool {
    if valid {
        &&& new == (App {
            status: new.status,
            is_loading: true,
            chats_pagination: ChatsPagination { is_loading: true, ..old.chats_pagination },
            actions: new.actions,
            ..old
        })
        &&& status_is(new, "Session validated"@)
        &&& new.actions@ == old.actions@ + seq![AsyncAction::LoadConversations(0), AsyncAction::StartLongPoll]
    } else {
        match error {
            Some(e) => if auth_error(e@) {
                &&& new == (App { auth: new.auth, has_client: false, screen: Screen::Auth, status: new.status, is_loading: false, actions: new.actions, ..old })
                &&& signed_out(old, new)
                &&& status_is(new, "Session expired. Please authorize again."@)
            } else {
                &&& new == (App { status: new.status, is_loading: false, ..old })
                &&& status_is(new, e@)
            },
            None => new == old,
        }
    }
}

/// Handles the session check.
pub fn on_session_validated(app: &mut App, valid: bool, error: Option<String>)
    ensures
        session_validated_done(*old(app), *final(app), valid, error),
{
    if valid {
        set_status(app, "Session validated");
        app.is_loading = true;
        app.chats_pagination.is_loading = true;
        let ghost before = app.actions@;
        app.send_action(AsyncAction::LoadConversations(0));
        app.send_action(AsyncAction::StartLongPoll);
        assert(app.actions@ =~= before + seq![AsyncAction::LoadConversations(0), AsyncAction::StartLongPoll]);
    } else {
        match error {
            Some(err) => {
                if is_auth_error(err.as_str()) {
                    sign_out(app);
                    set_status(app, "Session expired. Please authorize again.");
                } else {
                    app.status = Some(err);
                }
                app.is_loading = false;
            },
            None => {},
        }
    }
}

/// A page of chats arrived: the first page replaces the list, later ones
/// extend it; the pagination and the user cache follow.
pub open spec fn conversations_loaded_done(old: App, new: App, chats: Seq<Chat>, profiles: Seq<User>, total: u32, has_more: bool) -> bool {
    let list = if old.chats_pagination.offset == 0 { chats } else { old.chats@ + chats };
    &&& new == (App {
        is_loading: false,
        chats: new.chats,
        chats_pagination: ChatsPagination { offset: list.len() as u32, total_count: Some(total), has_more, is_loading: false },
        users: new.users,
        status: new.status,
        ..old
    })
    &&& new.chats@ == list
    &&& new.users@ == with_profiles(old.users@, profiles)
    &&& status_is(new, "Loaded "@ + decimal(list.len() as int) + " of "@ + decimal(total as int) + " conversations"@)
}

/// Handles a loaded page of chats.
pub fn on_conversations_loaded(app: &mut App, chats: Vec<Chat>, profiles: Vec<User>, total_count: u32, has_more: bool)
    ensures
        conversations_loaded_done(*old(app), *final(app), chats@, profiles@, total_count, has_more),
{
    app.is_loading = false;
    let mut chats = chats;
    if app.chats_pagination.offset == 0 {
        app.chats = chats;
    } else {
        app.chats.append(&mut chats);
    }
    let n = app.chats.len();
    app.chats_pagination.offset = n as u32;
    app.chats_pagination.total_count = Some(total_count);
    app.chats_pagination.has_more = has_more;
    app.chats_pagination.is_loading = false;
    add_profiles(&mut app.users, &profiles);
    let mut text = string_of("Loaded ");
    push_u64_digits(&mut text, n as u64);
    push_str(&mut text, " of ");
    push_u64_digits(&mut text, total_count as u64);
    push_str(&mut text, " conversations");
    app.status = Some(text);
}

/// The send of the newest message succeeded: a pending last message takes
/// the id and cmid and counts as sent; its details are fetched.
pub open spec fn message_sent_done(old: App, new: App, id: i64, cmid: i64) -> bool {
    &&& new == (App { messages: new.messages, actions: new.actions, ..old })
    &&& queued(old, new, AsyncAction::FetchMessageById(id))
    &&& new.messages@ == if old.messages@.len() > 0 && old.messages@.last().id == 0 {
        old.messages@.update(old.messages@.len() - 1, ChatMessage { id, cmid: Some(cmid), delivery: DeliveryStatus::Sent, ..old.messages@.last() })
    } else {
        old.messages@
    }
}

/// Handles a sent message.
pub fn on_message_sent(app: &mut App, id: i64, cmid: i64)
    ensures
        message_sent_done(*old(app), *final(app), id, cmid),
{
    let n = app.messages.len();
    if n > 0 && app.messages[n - 1].id == 0 {
        let mut m = app.messages.pop().unwrap();
        m.id = id;
        m.cmid = Some(cmid);
        m.delivery = DeliveryStatus::Sent;
        app.messages.push(m);
    }
    app.send_action(AsyncAction::FetchMessageById(id));
    assert(app.messages@ =~= (if old(app).messages@.len() > 0 && old(app).messages@.last().id == 0 {
        old(app).messages@.update(old(app).messages@.len() - 1, ChatMessage { id, cmid: Some(cmid), delivery: DeliveryStatus::Sent, ..old(app).messages@.last() })
    } else {
        old(app).messages@
    }));
}

/// An edit was saved: the message counts as sent and edited, and its
/// details are fetched.
pub open spec fn message_edited_done(old: App, new: App, id: i64) -> bool {
    &&& new == (App { status: new.status, editing_message: None, messages: new.messages, actions: new.actions, ..old })
    &&& status_is(new, "Message edited"@)
    &&& queued(old, new, AsyncAction::FetchMessageById(id))
    &&& new.messages@ == match message_pos(old.messages@, id) {
        Some(p) => old.messages@.update(p, ChatMessage { delivery: DeliveryStatus::Sent, is_edited: true, ..old.messages@[p] }),
        None => old.messages@,
    }
}

/// Handles a saved edit.
pub fn on_message_edited(app: &mut App, id: i64)
    ensures
        message_edited_done(*old(app), *final(app), id),
{
    set_status(app, "Message edited");
    app.editing_message = None;
    match find_message(&app.messages, id) {
        Some(p) => {
            let mut m = take_message(&mut app.messages, p);
            m.delivery = DeliveryStatus::Sent;
            m.is_edited = true;
            app.messages.insert(p, m);
            assert(app.messages@ =~= old(app).messages@.update(p as int, ChatMessage { delivery: DeliveryStatus::Sent, is_edited: true, ..old(app).messages@[p as int] }));
        },
        None => {},
    }
    app.send_action(AsyncAction::FetchMessageById(id));
}

/// The list without the first message with id `id`, and the highlight kept
/// within it.
pub open spec fn without_message(old: App, new: App, id: i64) -> bool {
    match message_pos(old.messages@, id) {
        Some(p) => {
            let rest = old.messages@.remove(p);
            &&& new.messages@ == rest
            &&& new.messages_scroll == if old.messages_scroll >= rest.len() && old.messages_scroll > 0 {
                (old.messages_scroll - 1) as usize
            } else {
                old.messages_scroll
            }
        },
        None => new.messages == old.messages && new.messages_scroll == old.messages_scroll,
    }
}

/// Removes the first message with id `id`; returns whether one was found.
fn remove_message(app: &mut App, id: i64) -> (found: bool)
    ensures
        found == message_pos(old(app).messages@, id) is Some,
        *final(app) == (App { messages: final(app).messages, messages_scroll: final(app).messages_scroll, ..*old(app) }),
        without_message(*old(app), *final(app), id),
{
    match find_message(&app.messages, id) {
        Some(p) => {
            app.messages.remove(p);
            if app.messages_scroll >= app.messages.len() && app.messages_scroll > 0 {
                app.messages_scroll = app.messages_scroll - 1;
            }
            true
        },
        None => false,
    }
}

/// A delete was carried out.
pub open spec fn message_deleted_done(old: App, new: App, id: i64) -> bool {
    &&& new == (App { status: new.status, messages: new.messages, messages_scroll: new.messages_scroll, ..old })
    &&& status_is(new, "Message deleted"@)
    &&& without_message(old, new, id)
}

/// Handles a delete.
pub fn on_message_deleted(app: &mut App, id: i64)
    ensures
        message_deleted_done(*old(app), *final(app), id),
{
    set_status(app, "Message deleted");
    remove_message(app, id);
}

/// The fetched details of message `id` that came with a value replace its
/// own (the edited flag is only ever set).
pub open spec fn details_applied(
    m: ChatMessage,
    cmid: Option<i64>,
    text: Option<String>,
    is_edited: bool,
    attachments: Option<Vec<AttachmentInfo>>,
    reply: Option<ReplyPreview>,
    fwd_count: Option<usize>,
    forwards: Option<Vec<ForwardItem>>,
) -> ChatMessage {
    ChatMessage {
        cmid: if cmid is Some { cmid } else { m.cmid },
        text: match text { Some(t) => t, None => m.text },
        is_edited: is_edited || m.is_edited,
        attachments: match attachments { Some(a) => a, None => m.attachments },
        reply: if reply is Some { reply } else { m.reply },
        fwd_count: match fwd_count { Some(c) => c, None => m.fwd_count },
        forwards: match forwards { Some(f) => f, None => m.forwards },
        ..m
    }
}

/// Fills in fetched details of the first message with id `id`.
pub fn on_message_details(
    app: &mut App,
    id: i64,
    cmid: Option<i64>,
    text: Option<String>,
    is_edited: bool,
    attachments: Option<Vec<AttachmentInfo>>,
    reply: Option<ReplyPreview>,
    fwd_count: Option<usize>,
    forwards: Option<Vec<ForwardItem>>,
)
    ensures
        *final(app) == (App { messages: final(app).messages, ..*old(app) }),
        final(app).messages@ == match message_pos(old(app).messages@, id) {
            Some(p) => old(app).messages@.update(p, details_applied(old(app).messages@[p], cmid, text, is_edited, attachments, reply, fwd_count, forwards)),
            None => old(app).messages@,
        },
{
    match find_message(&app.messages, id) {
        Some(p) => {
            let mut m = take_message(&mut app.messages, p);
            let ghost m0 = m;
            if cmid.is_some() {
                m.cmid = cmid;
            }
            match text {
                Some(t) => m.text = t,
                None => {},
            }
            if is_edited {
                m.is_edited = true;
            }
            match attachments {
                Some(a) => m.attachments = a,
                None => {},
            }
            if reply.is_some() {
                m.reply = reply;
            }
            match fwd_count {
                Some(c) => m.fwd_count = c,
                None => {},
            }
            match forwards {
                Some(f) => m.forwards = f,
                None => {},
            }
            assert(m == details_applied(m0, cmid, text, is_edited, attachments, reply, fwd_count, forwards));
            app.messages.insert(p, m);
            assert(app.messages@ =~= old(app).messages@.update(p as int, details_applied(old(app).messages@[p as int], cmid, text, is_edited, attachments, reply, fwd_count, forwards)));
        },
        None => {},
    }
}

/// An error from background work: an authorization error signs out and
/// resets the client to the authorization screen; any other is shown.
pub open spec fn error_done(old: App, new: App, err: Seq<char>) -> bool {
    if auth_error(err) {
        &&& new == (App {
            is_loading: false,
            auth: new.auth,
            has_client: false,
            screen: Screen::Auth,
            focus: Focus::ChatList,
            mode: Mode::Insert,
            chats: new.chats,
            messages: new.messages,
            current_peer_id: None,
            status: new.status,
            actions: new.actions,
            ..old
        })
        &&& signed_out(old, new)
        &&& new.chats@.len() == 0 && new.messages@.len() == 0
        &&& status_is(new, "Authorization failed. Please re-authenticate."@)
    } else {
        &&& new == (App { is_loading: false, status: new.status, ..old })
        &&& status_is(new, "Error: "@ + err)
    }
}

/// Handles an error.
pub fn on_error(app: &mut App, err: String)
    ensures
        error_done(*old(app), *final(app), err@),
{
    app.is_loading = false;
    if is_auth_error(err.as_str()) {
        sign_out(app);
        app.focus = Focus::ChatList;
        app.mode = Mode::Insert;
        app.chats = Vec::new();
        app.messages = Vec::new();
        app.current_peer_id = None;
        set_status(app, "Authorization failed. Please re-authenticate.");
    } else {
        let mut text = string_of("Error: ");
        push_str(&mut text, err.as_str());
        app.status = Some(text);
    }
}

/// A send failed: a pending last message is marked failed.
pub open spec fn send_failed_done(old: App, new: App, err: Seq<char>) -> bool {
    &&& new == (App { is_loading: false, messages: new.messages, status: new.status, ..old })
    &&& status_is(new, "Failed to send: "@ + err)
    &&& new.messages@ == if old.messages@.len() > 0 && old.messages@.last().delivery == DeliveryStatus::Pending {
        old.messages@.update(old.messages@.len() - 1, ChatMessage { delivery: DeliveryStatus::Failed, ..old.messages@.last() })
    } else {
        old.messages@
    }
}

/// Handles a failed send.
pub fn on_send_failed(app: &mut App, err: String)
    ensures
        send_failed_done(*old(app), *final(app), err@),
{
    app.is_loading = false;
    let n = app.messages.len();
    if n > 0 && app.messages[n - 1].delivery == DeliveryStatus::Pending {
        let mut m = app.messages.pop().unwrap();
        m.delivery = DeliveryStatus::Failed;
        app.messages.push(m);
    }
    assert(app.messages@ =~= (if old(app).messages@.len() > 0 && old(app).messages@.last().delivery == DeliveryStatus::Pending {
        old(app).messages@.update(old(app).messages@.len() - 1, ChatMessage { delivery: DeliveryStatus::Failed, ..old(app).messages@.last() })
    } else {
        old(app).messages@
    }));
    let mut text = string_of("Failed to send: ");
    push_str(&mut text, err.as_str());
    app.status = Some(text);
}

/// What a long-poll event needs to be handled: a name for a sender or a
/// typing user that the cache lacks.
pub open spec fn event_ok(app: App, event: VkEvent) -> bool {
    match event {
        VkEvent::NewMessage { peer_id, from_id, .. } => if app.current_peer_id == Some(peer_id) {
            nameable(app.users@, from_id) && app.messages@.len() < usize::MAX
        } else {
            unread_room(app.chats@, peer_id)
        },
        VkEvent::UserTyping { peer_id, user_id } => app.current_peer_id == Some(peer_id) ==> nameable(app.users@, user_id),
        _ => true,
    }
}

/// The message shown for a new message in the open chat.
pub open spec fn live_message(m: ChatMessage, app: App, id: i64, timestamp: i64, text: Seq<char>, from_id: i64, is_outgoing: bool) -> bool {
    &&& m.id == id && m.cmid is None && m.from_id == from_id
    &&& m.from_name@ == user_name(app.users@, from_id)
    &&& m.text@ == text && m.timestamp == timestamp
    &&& m.is_outgoing == is_outgoing && m.is_read && !m.is_edited && !m.is_pinned
    &&& m.delivery == DeliveryStatus::Sent
    &&& m.attachments@.len() == 0 && m.reply is None && m.fwd_count == 0 && m.forwards@.len() == 0
}

/// A long-poll event: a new message in the open chat is shown (and the chat
/// marked read), elsewhere it counts as unread; reads mark messages read;
/// edits are fetched; deletions remove the message; typing and connection
/// changes are shown.
pub open spec fn vk_event_done(old: App, new: App, event: VkEvent) -> bool {
    match event {
        VkEvent::NewMessage { message_id, peer_id, timestamp, text, from_id, is_outgoing } => {
            if old.current_peer_id == Some(peer_id) {
                &&& new == (App { messages: new.messages, messages_scroll: (new.messages@.len() - 1) as usize, actions: new.actions, ..old })
                &&& new.messages@.len() == old.messages@.len() + 1
                &&& new.messages@.drop_last() =~= old.messages@
                &&& live_message(new.messages@.last(), old, message_id, timestamp, text@, from_id, is_outgoing)
                &&& queued(old, new, AsyncAction::MarkAsRead(peer_id))
            } else {
                &&& new == (App { chats: new.chats, ..old })
                &&& new.chats@ == match chat_pos(old.chats@, peer_id) {
                    Some(p) => with_unread(old.chats@, peer_id, (old.chats@[p].unread_count + 1) as u32),
                    None => old.chats@,
                }
            }
        },
        VkEvent::MessageRead { peer_id, message_id } => {
            &&& new == (App { chats: new.chats, messages: new.messages, ..old })
            &&& new.chats@ == with_unread(old.chats@, peer_id, 0)
            &&& if old.current_peer_id == Some(peer_id) {
                &&& new.messages@.len() == old.messages@.len()
                &&& forall|k: int| 0 <= k < old.messages@.len() ==> #[trigger] new.messages@[k] == read_marked(
                    old.messages@[k], true, if message_id > 0 { Some(message_id) } else { None })
            } else {
                new.messages == old.messages
            }
        },
        VkEvent::MessageEditedFromLongPoll { peer_id, message_id } => {
            if old.current_peer_id == Some(peer_id) {
                &&& new == (App { status: new.status, actions: new.actions, ..old })
                &&& queued(old, new, AsyncAction::FetchMessageById(message_id))
                &&& status_is(new, "Message updated from web"@)
            } else {
                new == old
            }
        },
        VkEvent::MessageDeletedFromLongPoll { peer_id, message_id } => {
            if old.current_peer_id == Some(peer_id) && message_pos(old.messages@, message_id) is Some {
                &&& new == (App { status: new.status, messages: new.messages, messages_scroll: new.messages_scroll, ..old })
                &&& without_message(old, new, message_id)
                &&& status_is(new, "Message deleted from web"@)
            } else {
                new == old
            }
        },
        VkEvent::UserTyping { peer_id, user_id } => {
            if old.current_peer_id == Some(peer_id) {
                status_only(old, new, user_name(old.users@, user_id) + " is typing..."@)
            } else {
                new == old
            }
        },
        VkEvent::ConnectionStatus(connected) => {
            status_only(old, new, if connected { "Connected to VK"@ } else { "Disconnected from VK"@ })
        },
    }
}

/// Handles a long-poll event.
pub fn on_vk_event(app: &mut App, event: VkEvent)
    requires
        event_ok(*old(app), event),
    ensures
        vk_event_done(*old(app), *final(app), event),
{
    match event {
        VkEvent::NewMessage { message_id, peer_id, timestamp, text, from_id, is_outgoing } => {
            if app.current_peer_id == Some(peer_id) {
                let from_name = app.get_user_name(from_id);
                app.messages.push(ChatMessage {
                    id: message_id,
                    cmid: None,
                    from_id,
                    from_name,
                    text,
                    timestamp,
                    is_outgoing,
                    is_read: true,
                    is_edited: false,
                    is_pinned: false,
                    delivery: DeliveryStatus::Sent,
                    attachments: Vec::new(),
                    reply: None,
                    fwd_count: 0,
                    forwards: Vec::new(),
                });
                app.messages_scroll = app.messages.len() - 1;
                app.send_action(AsyncAction::MarkAsRead(peer_id));
            } else {
                match find_chat(&app.chats, peer_id) {
                    Some(p) => {
                        let count = app.chats[p].unread_count + 1;
                        set_unread(&mut app.chats, p, count);
                    },
                    None => {},
                }
            }
        },
        VkEvent::MessageRead { peer_id, message_id } => {
            match find_chat(&app.chats, peer_id) {
                Some(p) => set_unread(&mut app.chats, p, 0),
                None => {},
            }
            if app.current_peer_id == Some(peer_id) {
                mark_read(&mut app.messages, true, if message_id > 0 { Some(message_id) } else { None });
            }
        },
        VkEvent::MessageEditedFromLongPoll { peer_id, message_id } => {
            if app.current_peer_id == Some(peer_id) {
                app.send_action(AsyncAction::FetchMessageById(message_id));
                set_status(app, "Message updated from web");
            }
        },
        VkEvent::MessageDeletedFromLongPoll { peer_id, message_id } => {
            if app.current_peer_id == Some(peer_id) {
                if remove_message(app, message_id) {
                    set_status(app, "Message deleted from web");
                }
            }
        },
        VkEvent::UserTyping { peer_id, user_id } => {
            if app.current_peer_id == Some(peer_id) {
                let mut text = app.get_user_name(user_id);
                push_str(&mut text, " is typing...");
                app.status = Some(text);
            }
        },
        VkEvent::ConnectionStatus(connected) => {
            if connected {
                set_status(app, "Connected to VK");
            } else {
                set_status(app, "Disconnected from VK");
            }
        },
    }
}


/// The outcome of removing the stored token: once it is gone the token is
/// dropped; if it could not be removed the token is kept.
pub open spec fn logged_out_done(old: App, new: App, result: Result<(), String>) -> bool {
    match result {
        Ok(_) => new == (App { auth: AuthManager { token: None, ..old.auth }, ..old }),
        Err(_) => new == old,
    }
}

/// Handles the outcome of removing the stored token.
pub fn on_logged_out(app: &mut App, result: Result<(), String>)
    ensures
        logged_out_done(*old(app), *final(app), result),
{
    match result {
        Ok(_) => {
            app.auth.token = None;
        },
        Err(_) => {},
    }
}

} // verus!
