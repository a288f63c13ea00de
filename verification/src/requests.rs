//! The VK API requests the client makes: method names and parameters, the
//! envelope every request carries, and reading the envelope and the reply
//! of `messages.send`.

use vstd::prelude::*;
use crate::text::{string_of, push_str, push_i64, push_u64_digits, decimal, chars_of};
use crate::api::{SentMessage, VkError, LongPollServer, generate_random_id, ActivityType};
use crate::upload::{Json, json_get};

verus! {

broadcast use vstd::string::group_string_axioms;

/// The API version the client speaks.
pub const API_VERSION: &'static str = "5.199";

/// Where API methods are called.
pub const API_URL: &'static str = "https://api.vk.com/method";

/// A request: the method and its parameters, in order.
pub struct Request {
    pub method: String,
    pub params: Vec<(String, String)>,
}

/// The parameters as character sequences.
pub open spec fn params_view(ps: Seq<(String, String)>) -> Seq<(Seq<char>, Seq<char>)> {
    ps.map_values(|p: (String, String)| (p.0@, p.1@))
}

/// `r` calls `method` with `params`.
pub open spec fn is_request(r: Request, method: Seq<char>, params: Seq<(Seq<char>, Seq<char>)>) -> bool {
    r.method@ == method && params_view(r.params@) == params
}

struct Builder {
    params: Vec<(String, String)>,
}

impl Builder {
    fn new() -> (b: Builder)
        ensures
            params_view(b.params@) == Seq::<(Seq<char>, Seq<char>)>::empty(),
    {
        Builder { params: Vec::new() }
    }

    fn add(&mut self, key: &str, value: String)
        ensures
            params_view(final(self).params@) == params_view(old(self).params@).push((key@, value@)),
    {
        self.params.push((string_of(key), value));
        assert(params_view(self.params@) =~= params_view(old(self).params@).push((key@, value@)));
    }

    fn finish(self, method: &str) -> (r: Request)
        ensures
            r.method@ == method@,
            r.params == self.params,
    {
        Request { method: string_of(method), params: self.params }
    }
}

fn int_text(n: i64) -> (r: String)
    ensures
        r@ == decimal(n as int),
{
    let mut s = String::new();
    push_i64(&mut s, n);
    s
}

fn nat_text(n: u64) -> (r: String)
    ensures
        r@ == decimal(n as int),
{
    let mut s = String::new();
    push_u64_digits(&mut s, n);
    s
}

/// Ids written in decimal and separated by commas.
pub open spec fn joined_ids(ids: Seq<i64>) -> Seq<char>
    decreases ids.len(),
{
    if ids.len() == 0 {
        seq![]
    } else if ids.len() == 1 {
        decimal(ids[0] as int)
    } else {
        joined_ids(ids.drop_last()) + ","@ + decimal(ids.last() as int)
    }
}

/// Writes ids separated by commas.
pub fn join_ids(ids: &[i64]) -> (r: String)
    ensures
        r@ == joined_ids(ids@),
{
    let mut out = String::new();
    let n = ids.len();
    let mut i: usize = 0;
    while i < n
        invariant
            n == ids@.len(),
            i <= n,
            out@ == joined_ids(ids@.take(i as int)),
        decreases n - i,
    {
        assert(ids@.take(i + 1).drop_last() == ids@.take(i as int));
        assert(ids@.take(i + 1).last() == ids@[i as int]);
        if i > 0 {
            push_str(&mut out, ",");
        }
        push_i64(&mut out, ids[i]);
        i = i + 1;
    }
    assert(ids@.take(n as int) == ids@);
    out
}

/// `messages.getConversations` for a page of chats.
pub fn conversations_request(offset: u32, count: u32) -> (r: Request)
    ensures
        is_request(r, "messages.getConversations"@, seq![
            ("offset"@, decimal(offset as int)),
            ("count"@, decimal(count as int)),
            ("extended"@, "1"@),
        ]),
{
    let mut b = Builder::new();
    b.add("offset", nat_text(offset as u64));
    b.add("count", nat_text(count as u64));
    b.add("extended", string_of("1"));
    assert(params_view(b.params@) =~= seq![
            ("offset"@, decimal(offset as int)),
            ("count"@, decimal(count as int)),
            ("extended"@, "1"@),
        ]);
    b.finish("messages.getConversations")
}

/// `messages.getHistory` for a page of a chat's history.
pub fn history_request(peer_id: i64, offset: u32, count: u32) -> (r: Request)
    ensures
        is_request(r, "messages.getHistory"@, seq![
            ("peer_id"@, decimal(peer_id as int)),
            ("offset"@, decimal(offset as int)),
            ("count"@, decimal(count as int)),
            ("extended"@, "1"@),
        ]),
{
    let mut b = Builder::new();
    b.add("peer_id", int_text(peer_id));
    b.add("offset", nat_text(offset as u64));
    b.add("count", nat_text(count as u64));
    b.add("extended", string_of("1"));
    assert(params_view(b.params@) =~= seq![
            ("peer_id"@, decimal(peer_id as int)),
            ("offset"@, decimal(offset as int)),
            ("count"@, decimal(count as int)),
            ("extended"@, "1"@),
        ]);
    b.finish("messages.getHistory")
}

/// `messages.getHistory` for a page of `count` messages reaching `offset`
/// messages from `start_message_id` (a negative offset reaches past it,
/// towards newer messages).
pub fn history_from_request(peer_id: i64, start_message_id: i64, offset: i32, count: u32) -> (r: Request)
    ensures
        is_request(r, "messages.getHistory"@, seq![
            ("peer_id"@, decimal(peer_id as int)),
            ("start_message_id"@, decimal(start_message_id as int)),
            ("offset"@, decimal(offset as int)),
            ("count"@, decimal(count as int)),
            ("extended"@, "1"@),
        ]),
{
    let mut b = Builder::new();
    b.add("peer_id", int_text(peer_id));
    b.add("start_message_id", int_text(start_message_id));
    b.add("offset", int_text(offset as i64));
    b.add("count", nat_text(count as u64));
    b.add("extended", string_of("1"));
    assert(params_view(b.params@) =~= seq![
            ("peer_id"@, decimal(peer_id as int)),
            ("start_message_id"@, decimal(start_message_id as int)),
            ("offset"@, decimal(offset as int)),
            ("count"@, decimal(count as int)),
            ("extended"@, "1"@),
        ]);
    b.finish("messages.getHistory")
}

/// `messages.getHistory` for `count` messages centred on `message_id`.
pub fn history_around_request(peer_id: i64, message_id: i64, count: u32) -> (r: Request)
    requires
        count <= i32::MAX,
    ensures
        is_request(r, "messages.getHistory"@, seq![
            ("peer_id"@, decimal(peer_id as int)),
            ("start_message_id"@, decimal(message_id as int)),
            ("offset"@, decimal(-((count / 2) as int))),
            ("count"@, decimal(count as int)),
            ("extended"@, "1"@),
        ]),
{
    let half = (count / 2) as i32;
    history_from_request(peer_id, message_id, -half, count)
}

/// The parameters of `messages.send`: the peer, the text when not empty, the
/// reply target, the forwarded ids, the attachment, and the random id.
pub open spec fn send_params(peer: i64, message: Seq<char>, reply_to: Option<i64>, forward: Option<Seq<i64>>, attachment: Option<Seq<char>>, random_id: i64) -> Seq<(Seq<char>, Seq<char>)> {
    seq![("peer_id"@, decimal(peer as int))]
        + (if message.len() > 0 { seq![("message"@, message)] } else { seq![] })
        + (match reply_to { Some(r) => seq![("reply_to"@, decimal(r as int))], None => seq![] })
        + (match forward { Some(f) => seq![("forward_messages"@, joined_ids(f))], None => seq![] })
        + (match attachment { Some(a) => seq![("attachment"@, a)], None => seq![] })
        + seq![("random_id"@, decimal(random_id as int))]
}

/// Optional ids as a sequence.
pub open spec fn ids_view(f: Option<&[i64]>) -> Option<Seq<i64>> {
    match f { Some(x) => Some(x@), None => None }
}

/// Optional text as a sequence.
pub open spec fn text_view(a: Option<&str>) -> Option<Seq<char>> {
    match a { Some(x) => Some(x@), None => None }
}

/// `messages.send` with a given random id.
pub fn send_request_with(peer_id: i64, message: &str, reply_to: Option<i64>, forward: Option<&[i64]>, attachment: Option<&str>, random_id: i64) -> (r: Request)
    ensures
        is_request(r, "messages.send"@, send_params(
            peer_id,
            message@,
            reply_to,
            ids_view(forward),
            text_view(attachment),
            random_id,
        )),
{
    let mut b = Builder::new();
    let ghost p0 = params_view(b.params@);
    b.add("peer_id", int_text(peer_id));
    let ghost p1 = params_view(b.params@);
    if chars_of(message).len() > 0 {
        b.add("message", string_of(message));
    }
    let ghost p2 = params_view(b.params@);
    match reply_to {
        Some(r) => b.add("reply_to", int_text(r)),
        None => {},
    }
    let ghost p3 = params_view(b.params@);
    match forward {
        Some(f) => b.add("forward_messages", join_ids(f)),
        None => {},
    }
    let ghost p4 = params_view(b.params@);
    match attachment {
        Some(a) => b.add("attachment", string_of(a)),
        None => {},
    }
    let ghost p5 = params_view(b.params@);
    b.add("random_id", int_text(random_id));
    assert(params_view(b.params@) =~= send_params(
        peer_id,
        message@,
        reply_to,
        ids_view(forward),
        text_view(attachment),
        random_id,
    ));
    assert(params_view(b.params@) =~= send_params(
            peer_id,
            message@,
            reply_to,
            ids_view(forward),
            text_view(attachment),
            random_id,
        ));
    b.finish("messages.send")
}

/// `messages.send` with a fresh random id.
pub fn send_request(peer_id: i64, message: &str, reply_to: Option<i64>, forward: Option<&[i64]>, attachment: Option<&str>) -> (r: Request)
    ensures
        exists|id: i64| 1 <= id <= u32::MAX && #[trigger] is_request(r, "messages.send"@, send_params(
            peer_id,
            message@,
            reply_to,
            ids_view(forward),
            text_view(attachment),
            id,
        )),
{
    let id = generate_random_id();
    send_request_with(peer_id, message, reply_to, forward, attachment, id)
}

/// `messages.edit`: the message by cmid when known (the API wants one of the
/// two ids), the new text, and forwards and snippets kept.
pub fn edit_request(peer_id: i64, message_id: i64, cmid: Option<i64>, message: &str) -> (r: Request)
    ensures
        is_request(r, "messages.edit"@, seq![
            ("peer_id"@, decimal(peer_id as int)),
            match cmid { Some(c) => ("cmid"@, decimal(c as int)), None => ("message_id"@, decimal(message_id as int)) },
            ("message"@, message@),
            ("keep_forward_messages"@, "1"@),
            ("keep_snippets"@, "1"@),
        ]),
{
    let mut b = Builder::new();
    b.add("peer_id", int_text(peer_id));
    match cmid {
        Some(c) => b.add("cmid", int_text(c)),
        None => b.add("message_id", int_text(message_id)),
    }
    b.add("message", string_of(message));
    b.add("keep_forward_messages", string_of("1"));
    b.add("keep_snippets", string_of("1"));
    assert(params_view(b.params@) =~= seq![
            ("peer_id"@, decimal(peer_id as int)),
            match cmid { Some(c) => ("cmid"@, decimal(c as int)), None => ("message_id"@, decimal(message_id as int)) },
            ("message"@, message@),
            ("keep_forward_messages"@, "1"@),
            ("keep_snippets"@, "1"@),
        ]);
    b.finish("messages.edit")
}

/// `messages.delete`, for everyone when asked.
pub fn delete_request(message_ids: &[i64], delete_for_all: bool) -> (r: Request)
    ensures
        is_request(r, "messages.delete"@, seq![("message_ids"@, joined_ids(message_ids@))]
            + if delete_for_all { seq![("delete_for_all"@, "1"@)] } else { seq![] }),
{
    let mut b = Builder::new();
    b.add("message_ids", join_ids(message_ids));
    if delete_for_all {
        b.add("delete_for_all", string_of("1"));
    }
    assert(params_view(b.params@) =~= seq![("message_ids"@, joined_ids(message_ids@))]
            + if delete_for_all { seq![("delete_for_all"@, "1"@)] } else { seq![] });
    b.finish("messages.delete")
}

/// `messages.getById`.
pub fn get_by_id_request(message_ids: &[i64]) -> (r: Request)
    ensures
        is_request(r, "messages.getById"@, seq![("message_ids"@, joined_ids(message_ids@))]),
{
    let mut b = Builder::new();
    b.add("message_ids", join_ids(message_ids));
    assert(params_view(b.params@) =~= seq![("message_ids"@, joined_ids(message_ids@))]);
    b.finish("messages.getById")
}

/// `messages.search`, within one chat when given.
pub fn search_request(query: &str, peer_id: Option<i64>, count: u32) -> (r: Request)
    ensures
        is_request(r, "messages.search"@, seq![("q"@, query@), ("count"@, decimal(count as int))]
            + match peer_id { Some(p) => seq![("peer_id"@, decimal(p as int))], None => seq![] }),
{
    let mut b = Builder::new();
    b.add("q", string_of(query));
    b.add("count", nat_text(count as u64));
    match peer_id {
        Some(p) => b.add("peer_id", int_text(p)),
        None => {},
    }
    assert(params_view(b.params@) =~= seq![("q"@, query@), ("count"@, decimal(count as int))]
            + match peer_id { Some(p) => seq![("peer_id"@, decimal(p as int))], None => seq![] });
    b.finish("messages.search")
}

/// `messages.markAsRead`.
pub fn mark_as_read_request(peer_id: i64) -> (r: Request)
    ensures
        is_request(r, "messages.markAsRead"@, seq![("peer_id"@, decimal(peer_id as int))]),
{
    let mut b = Builder::new();
    b.add("peer_id", int_text(peer_id));
    assert(params_view(b.params@) =~= seq![("peer_id"@, decimal(peer_id as int))]);
    b.finish("messages.markAsRead")
}

/// `messages.getLongPollServer` (long poll version 3).
pub fn long_poll_server_request() -> (r: Request)
    ensures
        is_request(r, "messages.getLongPollServer"@, seq![("lp_version"@, "3"@)]),
{
    let mut b = Builder::new();
    b.add("lp_version", string_of("3"));
    assert(params_view(b.params@) =~= seq![("lp_version"@, "3"@)]);
    b.finish("messages.getLongPollServer")
}

/// `account.getProfileInfo` (used to check a token).
pub fn profile_info_request() -> (r: Request)
    ensures
        is_request(r, "account.getProfileInfo"@, seq![]),
{
    Builder::new().finish("account.getProfileInfo")
}

/// `photos.getMessagesUploadServer` for a chat.
pub fn photo_upload_server_request(peer_id: i64) -> (r: Request)
    ensures
        is_request(r, "photos.getMessagesUploadServer"@, seq![("peer_id"@, decimal(peer_id as int))]),
{
    let mut b = Builder::new();
    b.add("peer_id", int_text(peer_id));
    assert(params_view(b.params@) =~= seq![("peer_id"@, decimal(peer_id as int))]);
    b.finish("photos.getMessagesUploadServer")
}

/// `docs.getMessagesUploadServer` for a chat.
pub fn doc_upload_server_request(peer_id: i64) -> (r: Request)
    ensures
        is_request(r, "docs.getMessagesUploadServer"@, seq![("type"@, "doc"@), ("peer_id"@, decimal(peer_id as int))]),
{
    let mut b = Builder::new();
    b.add("type", string_of("doc"));
    b.add("peer_id", int_text(peer_id));
    assert(params_view(b.params@) =~= seq![("type"@, "doc"@), ("peer_id"@, decimal(peer_id as int))]);
    b.finish("docs.getMessagesUploadServer")
}

/// The long-poll request URL for a server (wait 25 s, mode 234, version 3).
pub fn poll_url(server: &LongPollServer) -> (r: String)
    ensures
        r@ == "https://"@ + server.server@ + "?act=a_check&key="@ + server.key@ + "&ts="@ + server.ts@
            + "&wait=25&mode=234&version=3"@,
{
    let mut u = string_of("https://");
    push_str(&mut u, server.server.as_str());
    push_str(&mut u, "?act=a_check&key=");
    push_str(&mut u, server.key.as_str());
    push_str(&mut u, "&ts=");
    push_str(&mut u, server.ts.as_str());
    push_str(&mut u, "&wait=25&mode=234&version=3");
    u
}

/// The URL of an API method.
pub fn method_url(method: &str) -> (r: String)
    ensures
        r@ == API_URL@ + "/"@ + method@,
{
    let mut u = string_of(API_URL);
    push_str(&mut u, "/");
    push_str(&mut u, method);
    u
}

/// The form a request is posted as: its parameters, the access token and
/// the API version.
pub fn request_form(r: &Request, access_token: &str) -> (f: Vec<(String, String)>)
    ensures
        params_view(f@) == params_view(r.params@) + seq![("access_token"@, access_token@), ("v"@, API_VERSION@)],
{
    let mut out: Vec<(String, String)> = Vec::new();
    let n = r.params.len();
    let mut i: usize = 0;
    while i < n
        invariant
            n == r.params@.len(),
            i <= n,
            params_view(out@) == params_view(r.params@.take(i as int)),
        decreases n - i,
    {
        let k = string_of(r.params[i].0.as_str());
        let v = string_of(r.params[i].1.as_str());
        out.push((k, v));
        assert(params_view(r.params@.take(i + 1)) =~= params_view(r.params@.take(i as int)).push((r.params@[i as int].0@, r.params@[i as int].1@)));
        i = i + 1;
        assert(params_view(out@) =~= params_view(r.params@.take(i as int)));
    }
    assert(r.params@.take(n as int) == r.params@);
    let ghost before = params_view(out@);
    out.push((string_of("access_token"), string_of(access_token)));
    out.push((string_of("v"), string_of(API_VERSION)));
    assert(params_view(out@) =~= before + seq![("access_token"@, access_token@), ("v"@, API_VERSION@)]);
    out
}

/// The outcome of an API reply's envelope: its error, else whether it
/// carried a response.
pub open spec fn envelope_error(error: Option<VkError>, has_response: bool) -> Option<Seq<char>> {
    match error {
        Some(e) => Some("VK API error "@ + decimal(e.error_code as int) + ": "@ + e.error_msg@),
        None => if has_response { None } else { Some("Empty response from VK API"@) },
    }
}

/// Checks an API reply's envelope: the error it reports, or an empty reply.
pub fn check_envelope(error: &Option<VkError>, has_response: bool) -> (r: Result<(), String>)
    ensures
        match envelope_error(*error, has_response) {
            Some(t) => r matches Err(e) && e@ == t,
            None => r is Ok,
        },
{
    match error {
        Some(e) => {
            let mut t = string_of("VK API error ");
            push_i64(&mut t, e.error_code as i64);
            push_str(&mut t, ": ");
            push_str(&mut t, e.error_msg.as_str());
            Err(t)
        },
        None => {
            if has_response {
                Ok(())
            } else {
                Err(string_of("Empty response from VK API"))
            }
        },
    }
}

/// The sent message a `messages.send` reply describes: an object with
/// `message_id` (required) and `cmid` (0 when missing), or a bare id.
pub open spec fn sent_of(v: Json) -> Result<(i64, i64), Seq<char>> {
    match v {
        Json::Object(_) => match json_get(v, "message_id"@) {
            Some(Json::Number(Some(id))) => Ok((id, match json_get(v, "cmid"@) {
                Some(Json::Number(Some(c))) => c,
                _ => 0,
            })),
            _ => Err("messages.send response missing message_id"@),
        },
        Json::Number(Some(id)) => Ok((id, 0)),
        _ => Err("Unexpected messages.send response shape: "@),
    }
}

/// Reads a `messages.send` reply; `shown` is the reply's text for the error
/// about an unexpected shape.
pub fn sent_message_of(v: &Json, shown: &str) -> (r: Result<SentMessage, String>)
    ensures
        match sent_of(*v) {
            Ok((id, cmid)) => r matches Ok(s) && s.message_id == id && s.conversation_message_id == cmid,
            Err(t) => r matches Err(e) && e@ == if v is Object { t } else { t + shown@ },
        },
{
    match v {
        Json::Object(_) => match crate::upload::get(v, "message_id") {
            Some(Json::Number(Some(id))) => {
                let cmid = match crate::upload::get(v, "cmid") {
                    Some(Json::Number(Some(c))) => *c,
                    _ => 0,
                };
                Ok(SentMessage { message_id: *id, conversation_message_id: cmid })
            },
            _ => Err(string_of("messages.send response missing message_id")),
        },
        Json::Number(Some(id)) => Ok(SentMessage { message_id: *id, conversation_message_id: 0 }),
        _ => {
            let mut t = string_of("Unexpected messages.send response shape: ");
            push_str(&mut t, shown);
            Err(t)
        },
    }
}

/// The attachment reference `photo{owner_id}_{id}` of the first saved photo.
pub fn photo_attachment_ref(saved: &Vec<crate::api::SavedPhoto>) -> (r: Result<String, String>)
    ensures
        saved@.len() > 0 ==> (r matches Ok(s) && s@ == "photo"@ + decimal(saved@[0].owner_id as int) + "_"@ + decimal(saved@[0].id as int)),
        saved@.len() == 0 ==> (r matches Err(e) && e@ == "No saved photo returned"@),
{
    if saved.len() == 0 {
        return Err(string_of("No saved photo returned"));
    }
    let mut s = string_of("photo");
    push_i64(&mut s, saved[0].owner_id);
    push_str(&mut s, "_");
    push_i64(&mut s, saved[0].id);
    Ok(s)
}


/// A request without parameters.
fn bare(method: &str) -> (r: Request)
    ensures
        is_request(r, method@, seq![]),
{
    Builder::new().finish(method)
}

/// `friends.get`: the friends of `user_id` (one's own without it), closest first.
pub fn friends_request(user_id: Option<i64>) -> (r: Request)
    ensures
        is_request(r, "friends.get"@, match user_id { Some(u) => seq![("user_id"@, decimal(u as int))], None => seq![] }
            + seq![("fields"@, "photo_50,photo_100,online,last_seen,screen_name"@), ("order"@, "hints"@)]),
{
    let mut b = Builder::new();
    match user_id {
        Some(u) => b.add("user_id", int_text(u)),
        None => {},
    }
    b.add("fields", string_of("photo_50,photo_100,online,last_seen,screen_name"));
    b.add("order", string_of("hints"));
    let r = b.finish("friends.get");
    assert(params_view(r.params@) =~= match user_id { Some(u) => seq![("user_id"@, decimal(u as int))], None => seq![] }
        + seq![("fields"@, "photo_50,photo_100,online,last_seen,screen_name"@), ("order"@, "hints"@)]);
    r
}

/// `friends.getOnline`.
pub fn friends_online_request() -> (r: Request)
    ensures
        is_request(r, "friends.getOnline"@, seq![]),
{
    bare("friends.getOnline")
}

/// `friends.search` among one's friends.
pub fn friends_search_request(query: &str) -> (r: Request)
    ensures
        is_request(r, "friends.search"@, seq![("q"@, query@), ("fields"@, "photo_50,photo_100,online,screen_name"@)]),
{
    let mut b = Builder::new();
    b.add("q", string_of(query));
    b.add("fields", string_of("photo_50,photo_100,online,screen_name"));
    let r = b.finish("friends.search");
    assert(params_view(r.params@) =~= seq![("q"@, query@), ("fields"@, "photo_50,photo_100,online,screen_name"@)]);
    r
}

/// `friends.getRecent`: the `count` friends added last.
pub fn recent_friends_request(count: u32) -> (r: Request)
    ensures
        is_request(r, "friends.getRecent"@, seq![("count"@, decimal(count as int))]),
{
    let mut b = Builder::new();
    b.add("count", nat_text(count as u64));
    let r = b.finish("friends.getRecent");
    assert(params_view(r.params@) =~= seq![("count"@, decimal(count as int))]);
    r
}

/// `users.get` for the given users.
pub fn users_request(user_ids: &[i64]) -> (r: Request)
    ensures
        is_request(r, "users.get"@, seq![
            ("user_ids"@, joined_ids(user_ids@)),
            ("fields"@, "photo_50,photo_100,online,last_seen,screen_name,verified"@),
        ]),
{
    let mut b = Builder::new();
    b.add("user_ids", join_ids(user_ids));
    b.add("fields", string_of("photo_50,photo_100,online,last_seen,screen_name,verified"));
    let r = b.finish("users.get");
    assert(params_view(r.params@) =~= seq![
            ("user_ids"@, joined_ids(user_ids@)),
            ("fields"@, "photo_50,photo_100,online,last_seen,screen_name,verified"@),
        ]);
    r
}

/// `users.search`.
pub fn users_search_request(query: &str, count: u32) -> (r: Request)
    ensures
        is_request(r, "users.search"@, seq![
            ("q"@, query@),
            ("count"@, decimal(count as int)),
            ("fields"@, "photo_50,photo_100,online,screen_name"@),
        ]),
{
    let mut b = Builder::new();
    b.add("q", string_of(query));
    b.add("count", nat_text(count as u64));
    b.add("fields", string_of("photo_50,photo_100,online,screen_name"));
    let r = b.finish("users.search");
    assert(params_view(r.params@) =~= seq![
            ("q"@, query@),
            ("count"@, decimal(count as int)),
            ("fields"@, "photo_50,photo_100,online,screen_name"@),
        ]);
    r
}

/// `users.getSubscriptions` (ids only).
pub fn subscriptions_request(user_id: i64) -> (r: Request)
    ensures
        is_request(r, "users.getSubscriptions"@, seq![("user_id"@, decimal(user_id as int)), ("extended"@, "0"@)]),
{
    let mut b = Builder::new();
    b.add("user_id", int_text(user_id));
    b.add("extended", string_of("0"));
    let r = b.finish("users.getSubscriptions");
    assert(params_view(r.params@) =~= seq![("user_id"@, decimal(user_id as int)), ("extended"@, "0"@)]);
    r
}

/// `account.getCounters` for messages, friends, notifications and groups.
pub fn counters_request() -> (r: Request)
    ensures
        is_request(r, "account.getCounters"@, seq![("filter"@, "messages,friends,notifications,groups"@)]),
{
    let mut b = Builder::new();
    b.add("filter", string_of("messages,friends,notifications,groups"));
    let r = b.finish("account.getCounters");
    assert(params_view(r.params@) =~= seq![("filter"@, "messages,friends,notifications,groups"@)]);
    r
}

/// `account.setOnline`.
pub fn set_online_request() -> (r: Request)
    ensures
        is_request(r, "account.setOnline"@, seq![]),
{
    bare("account.setOnline")
}

/// `account.setOffline`.
pub fn set_offline_request() -> (r: Request)
    ensures
        is_request(r, "account.setOffline"@, seq![]),
{
    bare("account.setOffline")
}

/// `messages.getConversationsById` for the given peers.
pub fn conversations_by_id_request(peer_ids: &[i64]) -> (r: Request)
    ensures
        is_request(r, "messages.getConversationsById"@, seq![("peer_ids"@, joined_ids(peer_ids@))]),
{
    let mut b = Builder::new();
    b.add("peer_ids", join_ids(peer_ids));
    let r = b.finish("messages.getConversationsById");
    assert(params_view(r.params@) =~= seq![("peer_ids"@, joined_ids(peer_ids@))]);
    r
}

/// `messages.getByConversationMessageId` in one chat.
pub fn by_cmid_request(peer_id: i64, cmids: &[i64]) -> (r: Request)
    ensures
        is_request(r, "messages.getByConversationMessageId"@, seq![
            ("peer_id"@, decimal(peer_id as int)),
            ("conversation_message_ids"@, joined_ids(cmids@)),
        ]),
{
    let mut b = Builder::new();
    b.add("peer_id", int_text(peer_id));
    b.add("conversation_message_ids", join_ids(cmids));
    let r = b.finish("messages.getByConversationMessageId");
    assert(params_view(r.params@) =~= seq![
            ("peer_id"@, decimal(peer_id as int)),
            ("conversation_message_ids"@, joined_ids(cmids@)),
        ]);
    r
}

/// `messages.searchConversations`.
pub fn search_conversations_request(query: &str, count: u32) -> (r: Request)
    ensures
        is_request(r, "messages.searchConversations"@, seq![("q"@, query@), ("count"@, decimal(count as int))]),
{
    let mut b = Builder::new();
    b.add("q", string_of(query));
    b.add("count", nat_text(count as u64));
    let r = b.finish("messages.searchConversations");
    assert(params_view(r.params@) =~= seq![("q"@, query@), ("count"@, decimal(count as int))]);
    r
}

/// `messages.pin` of the message with conversation id `cmid`.
pub fn pin_request(peer_id: i64, cmid: i64) -> (r: Request)
    ensures
        is_request(r, "messages.pin"@, seq![("peer_id"@, decimal(peer_id as int)), ("conversation_message_id"@, decimal(cmid as int))]),
{
    let mut b = Builder::new();
    b.add("peer_id", int_text(peer_id));
    b.add("conversation_message_id", int_text(cmid));
    let r = b.finish("messages.pin");
    assert(params_view(r.params@) =~= seq![("peer_id"@, decimal(peer_id as int)), ("conversation_message_id"@, decimal(cmid as int))]);
    r
}

/// `messages.unpin`.
pub fn unpin_request(peer_id: i64) -> (r: Request)
    ensures
        is_request(r, "messages.unpin"@, seq![("peer_id"@, decimal(peer_id as int))]),
{
    let mut b = Builder::new();
    b.add("peer_id", int_text(peer_id));
    let r = b.finish("messages.unpin");
    assert(params_view(r.params@) =~= seq![("peer_id"@, decimal(peer_id as int))]);
    r
}

/// The API name of an activity.
pub open spec fn activity_name(a: ActivityType) -> Seq<char> {
    match a {
        ActivityType::Typing => "typing"@,
        ActivityType::AudioMessage => "audiomessage"@,
    }
}

/// `messages.setActivity`: typing or recording in a chat.
pub fn activity_request(peer_id: i64, activity: ActivityType) -> (r: Request)
    ensures
        is_request(r, "messages.setActivity"@, seq![("peer_id"@, decimal(peer_id as int)), ("type"@, activity_name(activity))]),
{
    let mut b = Builder::new();
    b.add("peer_id", int_text(peer_id));
    b.add("type", string_of(activity.as_str()));
    let r = b.finish("messages.setActivity");
    assert(params_view(r.params@) =~= seq![("peer_id"@, decimal(peer_id as int)), ("type"@, activity_name(activity))]);
    r
}

/// `messages.sendReaction`.
pub fn reaction_request(peer_id: i64, cmid: i64, reaction_id: i64) -> (r: Request)
    ensures
        is_request(r, "messages.sendReaction"@, seq![
            ("peer_id"@, decimal(peer_id as int)),
            ("cmid"@, decimal(cmid as int)),
            ("reaction_id"@, decimal(reaction_id as int)),
        ]),
{
    let mut b = Builder::new();
    b.add("peer_id", int_text(peer_id));
    b.add("cmid", int_text(cmid));
    b.add("reaction_id", int_text(reaction_id));
    let r = b.finish("messages.sendReaction");
    assert(params_view(r.params@) =~= seq![
            ("peer_id"@, decimal(peer_id as int)),
            ("cmid"@, decimal(cmid as int)),
            ("reaction_id"@, decimal(reaction_id as int)),
        ]);
    r
}

/// `messages.getReactionsAssets`.
pub fn reactions_assets_request() -> (r: Request)
    ensures
        is_request(r, "messages.getReactionsAssets"@, seq![]),
{
    bare("messages.getReactionsAssets")
}

/// `messages.getLongPollHistory` since `ts` (and `pts` when known).
pub fn long_poll_history_request(ts: &str, pts: Option<i64>) -> (r: Request)
    ensures
        is_request(r, "messages.getLongPollHistory"@, seq![("ts"@, ts@)]
            + match pts { Some(p) => seq![("pts"@, decimal(p as int))], None => seq![] }
            + seq![("lp_version"@, "3"@)]),
{
    let mut b = Builder::new();
    b.add("ts", string_of(ts));
    match pts {
        Some(p) => b.add("pts", int_text(p)),
        None => {},
    }
    b.add("lp_version", string_of("3"));
    let r = b.finish("messages.getLongPollHistory");
    assert(params_view(r.params@) =~= seq![("ts"@, ts@)]
        + match pts { Some(p) => seq![("pts"@, decimal(p as int))], None => seq![] }
        + seq![("lp_version"@, "3"@)]);
    r
}

} // verus!
