//! The long-poll connection as a state machine: which request comes next,
//! how failures are retried (with a doubling pause of at most 30 seconds)
//! and which notices the client is sent.

use vstd::prelude::*;
use crate::text::{string_of, push_str};
use crate::api::LongPollServer;
use crate::events::VkEvent;
use crate::app_state::Message;
use crate::upload::{Json, str_field, str_field_of};
use crate::auth::{parse_i64, parse_i64_spec};
use crate::text::chars_of;

verus! {

broadcast use vstd::string::group_string_axioms;

/// Where the connection stands.
#[derive(Debug, Clone, Copy, PartialEq, Eq, Structural)]
pub enum PollPhase {
    /// Fetching the first server.
    Starting,
    /// Waiting for updates.
    Polling,
    /// Fetching a new server after the server asked for one.
    Reconnecting,
    /// Pausing after a failed reconnect; polling follows.
    PauseThenPoll,
    /// Pausing after a failed poll; a new server is fetched next.
    PauseThenFetch,
    /// Fetching a new server after a failed poll.
    Recovering,
    /// Given up: the first server could not be had.
    Stopped,
}

/// The long-poll connection: the server in use, the pause before the next
/// retry after a failed poll, and the phase.
#[derive(Debug)]
pub struct LongPoll {
    pub server: Option<LongPollServer>,
    pub backoff_secs: u64,
    pub phase: PollPhase,
}

/// A reply of the long-poll server: the new `ts`, the failure code, and
/// whether it carries updates.
#[derive(Debug)]
pub struct PollReply {
    pub ts: Option<String>,
    pub failed: Option<i32>,
    pub has_updates: bool,
}

/// What happened: a server was fetched (or not), a poll returned (or
/// failed), or a pause ended.
#[derive(Debug)]
pub enum PollEvent {
    Server(Result<LongPollServer, String>),
    Reply(Result<PollReply, String>),
    Woke,
}

/// What to do next.
#[derive(Debug, Clone, Copy, PartialEq, Eq, Structural)]
pub enum PollAction {
    FetchServer,
    Poll,
    /// Pause for this many seconds.
    Sleep(u64),
    Stop,
}

/// The outcome of one step: the next action, the notices for the client,
/// and whether the reply's updates are to be delivered.
#[derive(Debug)]
pub struct PollStep {
    pub action: PollAction,
    pub notices: Vec<Message>,
    pub deliver_updates: bool,
}

/// A well-formed connection: the pause lies between 1 and 30 seconds, and
/// a server is held in every phase after the first fetch.
pub open spec fn poll_wf(p: LongPoll) -> bool {
    &&& 1 <= p.backoff_secs <= 30
    &&& (p.phase != PollPhase::Starting && p.phase != PollPhase::Stopped) ==> p.server is Some
}

/// The request a phase waits on.
pub open spec fn waiting_action(phase: PollPhase, backoff: u64) -> PollAction {
    match phase {
        PollPhase::Starting | PollPhase::Reconnecting | PollPhase::Recovering => PollAction::FetchServer,
        PollPhase::Polling => PollAction::Poll,
        PollPhase::PauseThenPoll | PollPhase::PauseThenFetch => PollAction::Sleep(backoff),
        PollPhase::Stopped => PollAction::Stop,
    }
}

/// The server with a new `ts`.
pub open spec fn with_ts(s: Option<LongPollServer>, ts: Option<String>) -> Option<LongPollServer> {
    match (s, ts) {
        (Some(srv), Some(t)) => Some(LongPollServer { ts: t, ..srv }),
        _ => s,
    }
}

/// The connection status notice.
pub open spec fn status_notice(connected: bool) -> Message {
    Message::VkEvent(VkEvent::ConnectionStatus(connected))
}

/// One step of the connection: `new` and `out` follow from `old` and `e`.
pub open spec fn poll_stepped(old: LongPoll, e: PollEvent, new: LongPoll, out: PollStep) -> bool {
    match (old.phase, e) {
        (PollPhase::Starting, PollEvent::Server(Ok(s))) => {
            &&& new == (LongPoll { server: Some(s), phase: PollPhase::Polling, ..old })
            &&& out.action == PollAction::Poll && !out.deliver_updates
            &&& out.notices@ == seq![status_notice(true)]
        },
        (PollPhase::Starting, PollEvent::Server(Err(err))) => {
            &&& new == (LongPoll { phase: PollPhase::Stopped, ..old })
            &&& out.action == PollAction::Stop && !out.deliver_updates
            &&& out.notices@.len() == 1
            &&& out.notices@[0] matches Message::Error(t) && t@ == "Long Poll error: "@ + err@
        },
        (PollPhase::Polling, PollEvent::Reply(Ok(r))) => {
            &&& out.notices@.len() == 0
            &&& match r.failed {
                Some(code) => {
                    &&& !out.deliver_updates
                    &&& if code == 1 {
                        new == (LongPoll { server: with_ts(old.server, r.ts), ..old }) && out.action == PollAction::Poll
                    } else if 2 <= code <= 4 {
                        new == (LongPoll { phase: PollPhase::Reconnecting, ..old }) && out.action == PollAction::FetchServer
                    } else {
                        new == old && out.action == PollAction::Poll
                    }
                },
                None => {
                    &&& new == (LongPoll { server: with_ts(old.server, r.ts), backoff_secs: 1, ..old })
                    &&& out.action == PollAction::Poll
                    &&& out.deliver_updates == r.has_updates
                },
            }
        },
        (PollPhase::Polling, PollEvent::Reply(Err(err))) => {
            &&& new == (LongPoll {
                backoff_secs: if 2 * old.backoff_secs <= 30 { (2 * old.backoff_secs) as u64 } else { 30 },
                phase: PollPhase::PauseThenFetch,
                ..old
            })
            &&& out.action == PollAction::Sleep(old.backoff_secs) && !out.deliver_updates
            &&& out.notices@.len() == 2 && out.notices@[0] == status_notice(false)
            &&& out.notices@[1] matches Message::Error(t) && t@ == "Long Poll error: "@ + err@
        },
        (PollPhase::Reconnecting, PollEvent::Server(Ok(s))) => {
            &&& new == (LongPoll { server: Some(s), phase: PollPhase::Polling, ..old })
            &&& out.action == PollAction::Poll && !out.deliver_updates && out.notices@.len() == 0
        },
        (PollPhase::Reconnecting, PollEvent::Server(Err(err))) => {
            &&& new == (LongPoll { phase: PollPhase::PauseThenPoll, ..old })
            &&& out.action == PollAction::Sleep(5) && !out.deliver_updates
            &&& out.notices@.len() == 1
            &&& out.notices@[0] matches Message::Error(t) && t@ == "Long Poll reconnect error: "@ + err@
        },
        (PollPhase::PauseThenPoll, PollEvent::Woke) => {
            &&& new == (LongPoll { phase: PollPhase::Polling, ..old })
            &&& out.action == PollAction::Poll && !out.deliver_updates && out.notices@.len() == 0
        },
        (PollPhase::PauseThenFetch, PollEvent::Woke) => {
            &&& new == (LongPoll { phase: PollPhase::Recovering, ..old })
            &&& out.action == PollAction::FetchServer && !out.deliver_updates && out.notices@.len() == 0
        },
        (PollPhase::Recovering, PollEvent::Server(Ok(s))) => {
            &&& new == (LongPoll { server: Some(s), backoff_secs: 1, phase: PollPhase::Polling })
            &&& out.action == PollAction::Poll && !out.deliver_updates
            &&& out.notices@ == seq![status_notice(true)]
        },
        (PollPhase::Recovering, PollEvent::Server(Err(_))) => {
            &&& new == (LongPoll { phase: PollPhase::Polling, ..old })
            &&& out.action == PollAction::Poll && !out.deliver_updates && out.notices@.len() == 0
        },
        _ => {
            &&& new == old
            &&& out.action == waiting_action(old.phase, old.backoff_secs) && !out.deliver_updates && out.notices@.len() == 0
        },
    }
}

fn error_notice(prefix: &str, err: &String) -> (m: Message)
    ensures
        m matches Message::Error(t) && t@ == prefix@ + err@,
{
    let mut t = string_of(prefix);
    push_str(&mut t, err.as_str());
    Message::Error(t)
}

fn quiet(action: PollAction) -> (r: PollStep)
    ensures
        r.action == action && !r.deliver_updates && r.notices@.len() == 0,
{
    PollStep { action, notices: Vec::new(), deliver_updates: false }
}

impl LongPoll {
    /// A connection that first fetches a server.
    pub fn new() -> (r: (LongPoll, PollAction))
        ensures
            r.0 == (LongPoll { server: None, backoff_secs: 1, phase: PollPhase::Starting }),
            r.1 == PollAction::FetchServer,
            poll_wf(r.0),
    {
        (LongPoll { server: None, backoff_secs: 1, phase: PollPhase::Starting }, PollAction::FetchServer)
    }

    /// Whether the connection is well formed (see `poll_wf`); what `new`
    /// returns and `step` keeps is.
    pub fn is_well_formed(&self) -> (r: bool)
        ensures
            r == poll_wf(*self),
    {
        let pause_ok = 1 <= self.backoff_secs && self.backoff_secs <= 30;
        let fetched = match self.phase {
            PollPhase::Starting | PollPhase::Stopped => true,
            _ => self.server.is_some(),
        };
        pause_ok && fetched
    }

    /// Takes one event and says what to do next.
    pub fn step(&mut self, event: PollEvent) -> (out: PollStep)
        requires
            poll_wf(*old(self)),
        ensures
            poll_stepped(*old(self), event, *final(self), out),
            poll_wf(*final(self)),
    {
        let phase = self.phase;
        match event {
            PollEvent::Server(Ok(s)) => {
                if phase == PollPhase::Starting || phase == PollPhase::Recovering {
                    let mut notices: Vec<Message> = Vec::new();
                    notices.push(Message::VkEvent(VkEvent::ConnectionStatus(true)));
                    assert(notices@ == seq![status_notice(true)]);
                    self.server = Some(s);
                    if phase == PollPhase::Recovering {
                        self.backoff_secs = 1;
                    }
                    self.phase = PollPhase::Polling;
                    PollStep { action: PollAction::Poll, notices, deliver_updates: false }
                } else if phase == PollPhase::Reconnecting {
                    self.server = Some(s);
                    self.phase = PollPhase::Polling;
                    quiet(PollAction::Poll)
                } else {
                    quiet(self.waiting())
                }
            },
            PollEvent::Server(Err(err)) => {
                if phase == PollPhase::Starting {
                    let mut notices: Vec<Message> = Vec::new();
                    notices.push(error_notice("Long Poll error: ", &err));
                    self.phase = PollPhase::Stopped;
                    PollStep { action: PollAction::Stop, notices, deliver_updates: false }
                } else if phase == PollPhase::Reconnecting {
                    let mut notices: Vec<Message> = Vec::new();
                    notices.push(error_notice("Long Poll reconnect error: ", &err));
                    self.phase = PollPhase::PauseThenPoll;
                    PollStep { action: PollAction::Sleep(5), notices, deliver_updates: false }
                } else if phase == PollPhase::Recovering {
                    self.phase = PollPhase::Polling;
                    quiet(PollAction::Poll)
                } else {
                    quiet(self.waiting())
                }
            },
            PollEvent::Reply(Ok(r)) => {
                if phase != PollPhase::Polling {
                    return quiet(self.waiting());
                }
                match r.failed {
                    Some(code) => {
                        if code == 1 {
                            self.set_ts(r.ts);
                            quiet(PollAction::Poll)
                        } else if 2 <= code && code <= 4 {
                            self.phase = PollPhase::Reconnecting;
                            quiet(PollAction::FetchServer)
                        } else {
                            quiet(PollAction::Poll)
                        }
                    },
                    None => {
                        self.set_ts(r.ts);
                        self.backoff_secs = 1;
                        PollStep { action: PollAction::Poll, notices: Vec::new(), deliver_updates: r.has_updates }
                    },
                }
            },
            PollEvent::Reply(Err(err)) => {
                if phase != PollPhase::Polling {
                    return quiet(self.waiting());
                }
                let mut notices: Vec<Message> = Vec::new();
                notices.push(Message::VkEvent(VkEvent::ConnectionStatus(false)));
                notices.push(error_notice("Long Poll error: ", &err));
                let pause = self.backoff_secs;
                self.backoff_secs = if pause * 2 <= 30 { pause * 2 } else { 30 };
                self.phase = PollPhase::PauseThenFetch;
                PollStep { action: PollAction::Sleep(pause), notices, deliver_updates: false }
            },
            PollEvent::Woke => {
                if phase == PollPhase::PauseThenPoll {
                    self.phase = PollPhase::Polling;
                    quiet(PollAction::Poll)
                } else if phase == PollPhase::PauseThenFetch {
                    self.phase = PollPhase::Recovering;
                    quiet(PollAction::FetchServer)
                } else {
                    quiet(self.waiting())
                }
            },
        }
    }

    /// The request the current phase waits on.
    pub fn waiting(&self) -> (r: PollAction)
        ensures
            r == waiting_action(self.phase, self.backoff_secs),
    {
        match self.phase {
            PollPhase::Starting | PollPhase::Reconnecting | PollPhase::Recovering => PollAction::FetchServer,
            PollPhase::Polling => PollAction::Poll,
            PollPhase::PauseThenPoll | PollPhase::PauseThenFetch => PollAction::Sleep(self.backoff_secs),
            PollPhase::Stopped => PollAction::Stop,
        }
    }

    fn set_ts(&mut self, ts: Option<String>)
        ensures
            *final(self) == (LongPoll { server: with_ts(old(self).server, ts), ..*old(self) }),
    {
        match ts {
            Some(t) => match self.server.take() {
                Some(mut srv) => {
                    srv.ts = t;
                    self.server = Some(srv);
                },
                None => {},
            },
            None => {},
        }
    }
}


/// The integer at position `i` of an update.
pub open spec fn int_at(items: Seq<Json>, i: int) -> Option<i64> {
    if 0 <= i < items.len() {
        match items[i] {
            Json::Number(Some(n)) => Some(n),
            _ => None,
        }
    } else {
        None
    }
}

/// The text at position `i` of an update, empty when there is none.
pub open spec fn text_at(items: Seq<Json>, i: int) -> Seq<char> {
    if 0 <= i < items.len() {
        match items[i] {
            Json::Str(s) => s@,
            _ => seq![],
        }
    } else {
        seq![]
    }
}

/// The user named by the `from` member of the object at position `i`.
pub open spec fn from_at(items: Seq<Json>, i: int) -> Option<i64> {
    if 0 <= i < items.len() {
        match str_field(items[i], "from"@) {
            Some(t) => match parse_i64_spec(t) {
                Some(v) => Some(v as i64),
                None => None,
            },
            None => None,
        }
    } else {
        None
    }
}

/// The sender of a new message: the `from` of its extra fields or of its
/// attachments object (set in group chats), else the peer itself.
pub open spec fn sender_of(items: Seq<Json>, peer: i64) -> i64 {
    match from_at(items, 6) {
        Some(f) => f,
        None => match from_at(items, 7) {
            Some(f) => f,
            None => peer,
        },
    }
}

/// The first user of the typing list at position `i`.
pub open spec fn first_user_at(items: Seq<Json>, i: int) -> Option<i64> {
    if 0 <= i < items.len() {
        match items[i] {
            Json::Array(us) => int_at(us@, 0),
            _ => None,
        }
    } else {
        None
    }
}

/// Flag bit of an outgoing message.
pub open spec fn outgoing_flag(flags: i64) -> bool {
    (flags & 2) != 0
}

/// Flag bits of a message deleted (for oneself, or for everyone).
pub open spec fn deleted_flag(flags: i64) -> bool {
    (flags & 128) != 0 || (flags & 131072) != 0
}

/// The client event a long-poll update denotes. An update is an array
/// `[code, ...]` (Long Poll version 3): 4 a new message
/// `[4, id, flags, peer, time, text, extra, attachments]`, 5 an edit
/// `[5, id, flags, peer]`, 2 flags set on `[2, id, flags, peer]` (a deletion
/// when they mark it deleted), 6 and 7 the peer's or one's own reading up to
/// `[_, peer, id]`, 63 typing in `[63, peer, [users]]`, 61 typing in a dialog
/// `[61, user]`; anything else, or a malformed update, is no event.
pub open spec fn update_event(u: Json, e: Option<VkEvent>) -> bool {
    match u {
        Json::Array(a) => {
            let items = a@;
            match int_at(items, 0) {
                Some(code) => if code == 4 {
                    match (int_at(items, 1), int_at(items, 2), int_at(items, 3), int_at(items, 4)) {
                        (Some(id), Some(flags), Some(peer), Some(ts)) => e matches Some(
                            VkEvent::NewMessage { message_id, peer_id, timestamp, text, from_id, is_outgoing },
                        ) && message_id == id && peer_id == peer && timestamp == ts && text@ == text_at(items, 5)
                            && from_id == sender_of(items, peer) && is_outgoing == outgoing_flag(flags),
                        _ => e is None,
                    }
                } else if code == 5 {
                    match (int_at(items, 1), int_at(items, 3)) {
                        (Some(id), Some(peer)) => e == Some(VkEvent::MessageEditedFromLongPoll { peer_id: peer, message_id: id }),
                        _ => e is None,
                    }
                } else if code == 2 {
                    match (int_at(items, 1), int_at(items, 2), int_at(items, 3)) {
                        (Some(id), Some(flags), Some(peer)) => if deleted_flag(flags) {
                            e == Some(VkEvent::MessageDeletedFromLongPoll { peer_id: peer, message_id: id })
                        } else {
                            e is None
                        },
                        _ => e is None,
                    }
                } else if code == 6 || code == 7 {
                    match (int_at(items, 1), int_at(items, 2)) {
                        (Some(peer), Some(id)) => e == Some(VkEvent::MessageRead { peer_id: peer, message_id: id }),
                        _ => e is None,
                    }
                } else if code == 63 {
                    match (int_at(items, 1), first_user_at(items, 2)) {
                        (Some(peer), Some(user)) => e == Some(VkEvent::UserTyping { peer_id: peer, user_id: user }),
                        _ => e is None,
                    }
                } else if code == 61 {
                    match int_at(items, 1) {
                        Some(user) => e == Some(VkEvent::UserTyping { peer_id: user, user_id: user }),
                        None => e is None,
                    }
                } else {
                    e is None
                },
                None => e is None,
            }
        },
        _ => e is None,
    }
}

fn int_item(items: &Vec<Json>, i: usize) -> (r: Option<i64>)
    ensures
        r == int_at(items@, i as int),
{
    if i < items.len() {
        match &items[i] {
            Json::Number(Some(n)) => Some(*n),
            _ => None,
        }
    } else {
        None
    }
}

fn text_item(items: &Vec<Json>, i: usize) -> (r: String)
    ensures
        r@ == text_at(items@, i as int),
{
    if i < items.len() {
        match &items[i] {
            Json::Str(s) => s.clone(),
            _ => String::new(),
        }
    } else {
        String::new()
    }
}

fn from_item(items: &Vec<Json>, i: usize) -> (r: Option<i64>)
    ensures
        r == from_at(items@, i as int),
{
    if i < items.len() {
        match str_field_of(&items[i], "from") {
            Some(t) => parse_i64(chars_of(t.as_str()).as_slice()),
            None => None,
        }
    } else {
        None
    }
}

/// The client event of one long-poll update, if it denotes one.
pub fn event_from_update(update: &Json) -> (r: Option<VkEvent>)
    ensures
        update_event(*update, r),
{
    let items = match update {
        Json::Array(a) => a,
        _ => {
            return None;
        },
    };
    let code = match int_item(items, 0) {
        Some(c) => c,
        None => {
            return None;
        },
    };
    if code == 4 {
        match (int_item(items, 1), int_item(items, 2), int_item(items, 3), int_item(items, 4)) {
            (Some(id), Some(flags), Some(peer), Some(ts)) => {
                let from_id = match from_item(items, 6) {
                    Some(f) => f,
                    None => match from_item(items, 7) {
                        Some(f) => f,
                        None => peer,
                    },
                };
                Some(VkEvent::NewMessage {
                    message_id: id,
                    peer_id: peer,
                    timestamp: ts,
                    text: text_item(items, 5),
                    from_id,
                    is_outgoing: (flags & 2) != 0,
                })
            },
            _ => None,
        }
    } else if code == 5 {
        match (int_item(items, 1), int_item(items, 3)) {
            (Some(id), Some(peer)) => Some(VkEvent::MessageEditedFromLongPoll { peer_id: peer, message_id: id }),
            _ => None,
        }
    } else if code == 2 {
        match (int_item(items, 1), int_item(items, 2), int_item(items, 3)) {
            (Some(id), Some(flags), Some(peer)) => if (flags & 128) != 0 || (flags & 131072) != 0 {
                Some(VkEvent::MessageDeletedFromLongPoll { peer_id: peer, message_id: id })
            } else {
                None
            },
            _ => None,
        }
    } else if code == 6 || code == 7 {
        match (int_item(items, 1), int_item(items, 2)) {
            (Some(peer), Some(id)) => Some(VkEvent::MessageRead { peer_id: peer, message_id: id }),
            _ => None,
        }
    } else if code == 63 {
        let user = if 2 < items.len() {
            match &items[2] {
                Json::Array(us) => int_item(us, 0),
                _ => None,
            }
        } else {
            None
        };
        match (int_item(items, 1), user) {
            (Some(peer), Some(u)) => Some(VkEvent::UserTyping { peer_id: peer, user_id: u }),
            _ => None,
        }
    } else if code == 61 {
        match int_item(items, 1) {
            Some(u) => Some(VkEvent::UserTyping { peer_id: u, user_id: u }),
            None => None,
        }
    } else {
        None
    }
}

} // verus!
