use vk_client::api::{LongPollServer, SavedPhoto, VkError};
use vk_client::events::VkEvent;
use vk_client::longpoll::event_from_update;
use vk_client::requests::{history_around_request, history_from_request, friends_request, users_request, pin_request, activity_request, long_poll_history_request, counters_request};
use vk_client::api::ActivityType;
use vk_client::longpoll::{LongPoll, PollAction, PollEvent, PollPhase, PollReply};
use vk_client::requests::{
    check_envelope, conversations_request, delete_request, history_request, join_ids, long_poll_server_request,
    mark_as_read_request, method_url, photo_attachment_ref, poll_url, request_form, search_request, send_request,
    send_request_with, sent_message_of,
};
use vk_client::upload::{doc_save_params, doc_upload_file, extract_doc_attachment, get, multipart_body, Json};

fn pairs(r: &[(String, String)]) -> Vec<(&str, &str)> {
    r.iter().map(|(k, v)| (k.as_str(), v.as_str())).collect()
}

fn obj(entries: Vec<(&str, Json)>) -> Json {
    Json::Object(entries.into_iter().map(|(k, v)| (k.to_string(), v)).collect())
}

fn server() -> LongPollServer {
    LongPollServer { key: String::from("k"), server: String::from("lp.vk.com/nim1"), ts: String::from("100") }
}

#[test]
fn requests_carry_their_parameters() {
    let r = conversations_request(40, 20);
    assert_eq!(r.method, "messages.getConversations");
    assert_eq!(pairs(&r.params)[..2], [("offset", "40"), ("count", "20")]);
    let r = history_request(-12, 0, 50);
    assert_eq!(r.method, "messages.getHistory");
    assert_eq!(pairs(&r.params)[0], ("peer_id", "-12"));
    let r = mark_as_read_request(7);
    assert_eq!(pairs(&r.params), vec![("peer_id", "7")]);
    let r = long_poll_server_request();
    assert_eq!(pairs(&r.params), vec![("lp_version", "3")]);
    let r = delete_request(&[1, 2, 3], true);
    assert_eq!(pairs(&r.params), vec![("message_ids", "1,2,3"), ("delete_for_all", "1")]);
    let r = search_request("hi", None, 5);
    assert_eq!(pairs(&r.params), vec![("q", "hi"), ("count", "5")]);
}

#[test]
fn send_request_fields() {
    let r = send_request_with(9, "hello", Some(4), Some(&[5, 6]), None, 1234);
    assert_eq!(r.method, "messages.send");
    let p = pairs(&r.params);
    assert!(p.contains(&("peer_id", "9")));
    assert!(p.contains(&("message", "hello")));
    assert!(p.contains(&("random_id", "1234")));
    assert!(p.contains(&("reply_to", "4")));
    assert!(p.contains(&("forward_messages", "5,6")));
    let r = send_request(9, "x", None, None, Some("photo1_2"));
    let p = pairs(&r.params);
    assert!(p.contains(&("attachment", "photo1_2")));
    let id: i64 = p.iter().find(|(k, _)| *k == "random_id").unwrap().1.parse().unwrap();
    assert!(id >= 1 && id <= u32::MAX as i64);
}

#[test]
fn ids_and_urls() {
    assert_eq!(join_ids(&[]), "");
    assert_eq!(join_ids(&[-1, 20]), "-1,20");
    assert_eq!(method_url("users.get"), "https://api.vk.com/method/users.get");
    assert_eq!(poll_url(&server()), "https://lp.vk.com/nim1?act=a_check&key=k&ts=100&wait=25&mode=234&version=3");
    let form = request_form(&mark_as_read_request(3), "tok");
    assert_eq!(pairs(&form), vec![("peer_id", "3"), ("access_token", "tok"), ("v", "5.199")]);
}

#[test]
fn envelope_errors() {
    let e = Some(VkError { error_code: 5, error_msg: String::from("User authorization failed") });
    assert_eq!(check_envelope(&e, false), Err(String::from("VK API error 5: User authorization failed")));
    assert_eq!(check_envelope(&None, false), Err(String::from("Empty response from VK API")));
    assert_eq!(check_envelope(&None, true), Ok(()));
}

#[test]
fn sent_message_shapes() {
    let v = obj(vec![("message_id", Json::Number(Some(11))), ("cmid", Json::Number(Some(3)))]);
    let s = sent_message_of(&v, "{..}").unwrap();
    assert_eq!((s.message_id, s.conversation_message_id), (11, 3));
    let s = sent_message_of(&Json::Number(Some(12)), "12").unwrap();
    assert_eq!((s.message_id, s.conversation_message_id), (12, 0));
    let e = sent_message_of(&obj(vec![]), "{}").unwrap_err();
    assert_eq!(e, "messages.send response missing message_id");
    let e = sent_message_of(&Json::Str(String::from("x")), "\"x\"").unwrap_err();
    assert_eq!(e, "Unexpected messages.send response shape: \"x\"");
}

#[test]
fn photo_reference() {
    assert_eq!(photo_attachment_ref(&vec![SavedPhoto { id: 5, owner_id: -3 }]), Ok(String::from("photo-3_5")));
    assert_eq!(photo_attachment_ref(&vec![]), Err(String::from("No saved photo returned")));
}

#[test]
fn json_lookup() {
    let v = obj(vec![("a", Json::Bool(true)), ("a", Json::Null)]);
    assert!(matches!(get(&v, "a"), Some(Json::Bool(true))));
    assert!(get(&v, "b").is_none());
    assert!(get(&Json::Null, "a").is_none());
}

#[test]
fn doc_attachment_forms() {
    let doc = obj(vec![("id", Json::Number(Some(2))), ("owner_id", Json::Number(Some(1)))]);
    let wrapped = obj(vec![("response", obj(vec![("type", Json::Str(String::from("doc"))), ("doc", doc)]))]);
    assert_eq!(extract_doc_attachment(&wrapped, "r"), Ok(String::from("doc1_2")));
    let arr = Json::Array(vec![obj(vec![("id", Json::Number(Some(9))), ("owner_id", Json::Number(Some(8)))])]);
    assert_eq!(extract_doc_attachment(&arr, "r"), Ok(String::from("doc8_9")));
    assert_eq!(
        extract_doc_attachment(&obj(vec![]), "{}"),
        Err(String::from("Could not find doc id in docs.save response: {}"))
    );
}

#[test]
fn doc_upload_replies() {
    let ok = obj(vec![("file", Json::Str(String::from("F")))]);
    assert_eq!(doc_upload_file(&ok, "b"), Ok(String::from("F")));
    let err = obj(vec![("error", Json::Str(String::from("bad"))), ("error_descr", Json::Str(String::from("why")))]);
    assert_eq!(doc_upload_file(&err, "b"), Err(String::from("Upload error from VK: bad (why)")));
    let err = obj(vec![("error", Json::Str(String::from("bad"))), ("error_descr", Json::Str(String::new()))]);
    assert_eq!(doc_upload_file(&err, "b"), Err(String::from("Upload error from VK: bad")));
    assert_eq!(doc_upload_file(&obj(vec![]), "{}"), Err(String::from("Upload response missing file id; body: {}")));
}

#[test]
fn multipart_layout() {
    let body = multipart_body("B", "file", "a.txt", "text/plain", b"xy");
    let expected = b"--B\r\nContent-Disposition: form-data; name=\"file\"; filename=\"a.txt\"\r\nContent-Type: text/plain\r\n\r\nxy\r\n--B--\r\n";
    assert_eq!(body, expected.to_vec());
}

#[test]
fn doc_save_parameters() {
    let p = doc_save_params(String::from("F"), "/tmp/report.pdf");
    assert_eq!(pairs(&p), vec![("file", "F"), ("title", "report.pdf")]);
}

#[test]
fn long_poll_happy_path() {
    let (mut lp, first) = LongPoll::new();
    assert_eq!(first, PollAction::FetchServer);
    assert!(lp.is_well_formed());
    let out = lp.step(PollEvent::Server(Ok(server())));
    assert_eq!(out.action, PollAction::Poll);
    assert_eq!(out.notices.len(), 1);
    let out = lp.step(PollEvent::Reply(Ok(PollReply { ts: Some(String::from("101")), failed: None, has_updates: true })));
    assert_eq!(out.action, PollAction::Poll);
    assert!(out.deliver_updates);
    assert_eq!(lp.server.as_ref().unwrap().ts, "101");
}

#[test]
fn long_poll_backoff_doubles_and_caps() {
    let (mut lp, _) = LongPoll::new();
    lp.step(PollEvent::Server(Ok(server())));
    let mut pauses = Vec::new();
    for _ in 0..7 {
        let out = lp.step(PollEvent::Reply(Err(String::from("timeout"))));
        match out.action {
            PollAction::Sleep(s) => pauses.push(s),
            other => panic!("unexpected {:?}", other),
        }
        assert_eq!(lp.step(PollEvent::Woke).action, PollAction::FetchServer);
        // the server cannot be had; polling goes on with the old one
        assert_eq!(lp.step(PollEvent::Server(Err(String::from("down")))).action, PollAction::Poll);
    }
    assert_eq!(pauses, vec![1, 2, 4, 8, 16, 30, 30]);
    // a good reply resets the pause
    lp.step(PollEvent::Reply(Ok(PollReply { ts: None, failed: None, has_updates: false })));
    assert_eq!(lp.backoff_secs, 1);
}

#[test]
fn long_poll_server_refresh() {
    let (mut lp, _) = LongPoll::new();
    lp.step(PollEvent::Server(Ok(server())));
    let out = lp.step(PollEvent::Reply(Ok(PollReply { ts: None, failed: Some(2), has_updates: false })));
    assert_eq!(out.action, PollAction::FetchServer);
    assert_eq!(lp.phase, PollPhase::Reconnecting);
    let out = lp.step(PollEvent::Server(Err(String::from("x"))));
    assert_eq!(out.action, PollAction::Sleep(5));
    assert_eq!(lp.step(PollEvent::Woke).action, PollAction::Poll);
}

#[test]
fn long_poll_first_fetch_failure_stops() {
    let (mut lp, _) = LongPoll::new();
    let out = lp.step(PollEvent::Server(Err(String::from("no net"))));
    assert_eq!(out.action, PollAction::Stop);
    assert_eq!(lp.phase, PollPhase::Stopped);
}

fn arr(items: Vec<Json>) -> Json {
    Json::Array(items)
}

fn n(v: i64) -> Json {
    Json::Number(Some(v))
}

#[test]
fn long_poll_updates_become_events() {
    let u = arr(vec![n(4), n(77), n(3), n(2000000001), n(1700000000), Json::Str(String::from("hey")), obj(vec![("from", Json::Str(String::from("15")))])]);
    match event_from_update(&u) {
        Some(VkEvent::NewMessage { message_id, peer_id, timestamp, text, from_id, is_outgoing }) => {
            assert_eq!((message_id, peer_id, timestamp, from_id), (77, 2000000001, 1700000000, 15));
            assert_eq!(text, "hey");
            assert!(is_outgoing);
        }
        other => panic!("unexpected {:?}", other),
    }
    let u = arr(vec![n(4), n(78), n(1), n(5), n(1), Json::Str(String::from("x"))]);
    assert!(matches!(event_from_update(&u), Some(VkEvent::NewMessage { from_id: 5, is_outgoing: false, .. })));
    assert!(matches!(event_from_update(&arr(vec![n(5), n(9), n(0), n(5)])), Some(VkEvent::MessageEditedFromLongPoll { peer_id: 5, message_id: 9 })));
    assert!(matches!(event_from_update(&arr(vec![n(2), n(9), n(128), n(5)])), Some(VkEvent::MessageDeletedFromLongPoll { peer_id: 5, message_id: 9 })));
    assert!(event_from_update(&arr(vec![n(2), n(9), n(1), n(5)])).is_none());
    assert!(matches!(event_from_update(&arr(vec![n(7), n(5), n(40)])), Some(VkEvent::MessageRead { peer_id: 5, message_id: 40 })));
    assert!(matches!(event_from_update(&arr(vec![n(63), n(5), arr(vec![n(8)])])), Some(VkEvent::UserTyping { peer_id: 5, user_id: 8 })));
    assert!(event_from_update(&arr(vec![n(4), n(1)])).is_none());
    assert!(event_from_update(&Json::Null).is_none());
    assert!(event_from_update(&arr(vec![n(80), n(1)])).is_none());
}

#[test]
fn history_requests_around_a_message() {
    let r = history_around_request(5, 100, 50);
    assert_eq!(
        pairs(&r.params),
        vec![("peer_id", "5"), ("start_message_id", "100"), ("offset", "-25"), ("count", "50"), ("extended", "1")]
    );
    let r = history_from_request(5, 7, 3, 10);
    assert_eq!(pairs(&r.params)[2], ("offset", "3"));
}

#[test]
fn more_request_builders() {
    let r = friends_request(None);
    assert_eq!(r.method, "friends.get");
    assert_eq!(pairs(&r.params), vec![("fields", "photo_50,photo_100,online,last_seen,screen_name"), ("order", "hints")]);
    assert_eq!(pairs(&friends_request(Some(4)).params)[0], ("user_id", "4"));
    assert_eq!(pairs(&users_request(&[1, 2]).params)[0], ("user_ids", "1,2"));
    assert_eq!(pairs(&pin_request(3, 9).params), vec![("peer_id", "3"), ("conversation_message_id", "9")]);
    assert_eq!(pairs(&activity_request(3, ActivityType::Typing).params), vec![("peer_id", "3"), ("type", "typing")]);
    assert_eq!(pairs(&long_poll_history_request("55", Some(7)).params), vec![("ts", "55"), ("pts", "7"), ("lp_version", "3")]);
    assert_eq!(counters_request().method, "account.getCounters");
}
