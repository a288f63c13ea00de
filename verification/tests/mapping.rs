use vk_client::api::{
    Attachment, AudioFields, Conversation, ConversationItem, ConversationsResponse, Doc, Message as ApiMessage,
    MessagesHistoryResponse, Peer, Photo, PhotoSize, StickerImage, User, ChatSettings,
};
use vk_client::mapper::{fallback_name, get_name, map_attachment, map_history_message};
use vk_client::models::AttachmentKind;
use vk_client::pages::{chats_page, history_page, HistoryRequest};

fn user(id: i64, first: &str, last: &str, online: Option<i32>) -> User {
    User {
        id,
        first_name: first.to_string(),
        last_name: last.to_string(),
        photo_50: None,
        photo_100: None,
        online,
        screen_name: None,
    }
}

fn att(kind: &str) -> Attachment {
    Attachment { attachment_type: kind.to_string(), photo: None, doc: None, link: None, audio: None, sticker_images: None }
}

fn api_msg(id: i64, from: i64, text: &str) -> ApiMessage {
    ApiMessage {
        id,
        from_id: from,
        peer_id: from,
        date: 100 + id,
        text: text.to_string(),
        out: None,
        read_state: Some(1),
        attachments: Vec::new(),
        conversation_message_id: Some(id * 10),
        fwd_messages: Vec::new(),
        reply_message: None,
        update_time: None,
    }
}

fn conversation(peer: i64, unread: Option<u32>, title: Option<&str>) -> Conversation {
    Conversation {
        peer: Peer { id: peer, peer_type: String::from("user"), local_id: None },
        unread_count: unread,
        chat_settings: title.map(|t| ChatSettings { title: t.to_string(), members_count: None, photo: None }),
        can_write: None,
        in_read: None,
        out_read: Some(5),
    }
}

#[test]
fn names() {
    let profiles = vec![user(1, "Ann", "Lee", None)];
    assert_eq!(get_name(&profiles, 1), "Ann Lee");
    assert_eq!(get_name(&profiles, 2), "User 2");
    assert_eq!(get_name(&profiles, -3), "Group 3");
    assert_eq!(fallback_name(7), "User 7");
}

#[test]
fn photo_takes_largest_size() {
    let mut a = att("photo");
    a.photo = Some(Photo {
        id: 1,
        owner_id: 1,
        sizes: vec![
            PhotoSize { url: Some(String::from("s")), width: Some(10), height: Some(10) },
            PhotoSize { url: Some(String::from("l")), width: Some(100), height: Some(50) },
            PhotoSize { url: Some(String::from("m")), width: Some(50), height: Some(50) },
        ],
    });
    let info = map_attachment(&a);
    assert!(matches!(info.kind, AttachmentKind::Photo));
    assert_eq!(info.title, "Photo");
    assert_eq!(info.url.as_deref(), Some("l"));
}

#[test]
fn other_attachment_kinds() {
    let mut d = att("doc");
    d.doc = Some(Doc { id: 1, owner_id: 2, title: None, url: Some(String::from("u")), size: Some(10), extension: Some(String::from("pdf")) });
    let info = map_attachment(&d);
    assert!(matches!(info.kind, AttachmentKind::Doc));
    assert_eq!(info.title, "Document");
    assert_eq!(info.size, Some(10));
    assert_eq!(info.subtitle.as_deref(), Some("pdf"));
    let mut au = att("audio");
    au.audio = Some(AudioFields { artist: Some(String::from("Band")), title: Some(String::from("Song")) });
    assert_eq!(map_attachment(&au).title, "Band — Song");
    let mut st = att("sticker");
    st.sticker_images = Some(vec![
        StickerImage { url: Some(String::from("a")), width: Some(64) },
        StickerImage { url: Some(String::from("b")), width: Some(128) },
    ]);
    let info = map_attachment(&st);
    assert_eq!(info.title, "Sticker");
    assert_eq!(info.url.as_deref(), Some("b"));
    let info = map_attachment(&att("wall"));
    assert!(matches!(info.kind, AttachmentKind::Other(ref k) if k == "wall"));
}

#[test]
fn history_message_mapping() {
    let profiles = vec![user(5, "Bob", "Ray", Some(1))];
    let mut m = api_msg(3, 5, "hi");
    m.out = Some(1);
    let c = map_history_message(&profiles, &m, 3);
    assert_eq!(c.from_name, "Bob Ray");
    assert!(c.is_outgoing);
    assert!(c.is_read);
    assert_eq!(c.cmid, Some(30));
    let c = map_history_message(&profiles, &m, 2);
    assert!(!c.is_read);
}

#[test]
fn chat_list_page() {
    let resp = ConversationsResponse {
        count: 3,
        items: vec![
            ConversationItem { conversation: conversation(5, Some(2), None), last_message: api_msg(1, 5, "hey") },
            ConversationItem { conversation: conversation(2000000001, None, Some("Team")), last_message: api_msg(2, 5, "yo") },
        ],
        profiles: vec![user(5, "Bob", "Ray", Some(1))],
        groups: Vec::new(),
    };
    let page = chats_page(&resp, 0);
    assert_eq!(page.chats.len(), 2);
    assert_eq!(page.chats[0].title, "Bob Ray");
    assert!(page.chats[0].is_online);
    assert_eq!(page.chats[0].unread_count, 2);
    assert_eq!(page.chats[1].title, "Team");
    assert_eq!(page.chats[1].unread_count, 0);
    assert_eq!(page.total_count, 3);
    assert!(page.has_more);
    assert!(!chats_page(&resp, 1).has_more);
}

#[test]
fn history_page_of_latest() {
    let resp = MessagesHistoryResponse {
        count: 2,
        items: vec![api_msg(2, 5, "b"), api_msg(1, 5, "a")],
        profiles: vec![user(5, "Bob", "Ray", None)],
        groups: Vec::new(),
        conversations: vec![conversation(5, None, None)],
    };
    let page = history_page(&resp, HistoryRequest::Latest { offset: 0 });
    assert_eq!(page.messages.len(), 2);
    // shown oldest first
    assert_eq!(page.messages[0].id, 1);
    assert_eq!(page.messages[1].id, 2);
    assert_eq!(page.total_count, 2);
    assert!(!page.has_more);
}
