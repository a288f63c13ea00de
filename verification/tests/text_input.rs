use vk_client::auth::{parse_token_url, token_data_at, AuthManager, TokenData, TokenUrlError};
use vk_client::format::{
    extract_first_url, format_timestamp_at, forward_filter, is_auth_error, looks_like_oauth_url,
    parse_send_command, truncate_str, truncate_text, SendCommand,
};
use vk_client::input::{char_at, char_to_byte_index, delete_word, insert_char_at, remove_char_at, utf8_len, visual_width};
use vk_client::models::Chat;

fn chat(id: i64, title: &str) -> Chat {
    Chat {
        id,
        title: title.to_string(),
        last_message: String::new(),
        last_message_time: 0,
        unread_count: 0,
        is_online: false,
    }
}

#[test]
fn utf8_lengths() {
    assert_eq!(utf8_len('a'), 1);
    assert_eq!(utf8_len('я'), 2);
    assert_eq!(utf8_len('€'), 3);
    assert_eq!(utf8_len('😀'), 4);
}

#[test]
fn byte_index_of_chars() {
    assert_eq!(char_to_byte_index("привет", 0), 0);
    assert_eq!(char_to_byte_index("привет", 2), 4);
    assert_eq!(char_to_byte_index("привет", 10), 12);
    assert_eq!(char_to_byte_index("ab", 1), 1);
}

#[test]
fn insert_then_remove_restores() {
    let mut s = String::from("hllo");
    insert_char_at(&mut s, 1, 'e');
    assert_eq!(s, "hello");
    assert_eq!(remove_char_at(&mut s, 1), Some('e'));
    assert_eq!(s, "hllo");
    assert_eq!(remove_char_at(&mut s, 10), None);
    assert_eq!(s, "hllo");
}

#[test]
fn insert_past_end_appends() {
    let mut s = String::from("ab");
    insert_char_at(&mut s, 7, 'ц');
    assert_eq!(s, "abц");
}

#[test]
fn char_lookup() {
    assert_eq!(char_at("мир", 1), Some('и'));
    assert_eq!(char_at("мир", 3), None);
}

#[test]
fn delete_word_removes_previous_word() {
    let mut s = String::from("hello big world");
    let mut cursor = 15usize;
    delete_word(&mut s, &mut cursor);
    assert_eq!(s, "hello big ");
    assert_eq!(cursor, 10);
    delete_word(&mut s, &mut cursor);
    assert_eq!(s, "hello ");
    assert_eq!(cursor, 6);
}

#[test]
fn delete_word_mid_text() {
    let mut s = String::from("one two three");
    let mut cursor = 7usize;
    delete_word(&mut s, &mut cursor);
    assert_eq!(s, "one  three");
    assert_eq!(cursor, 4);
}

#[test]
fn visual_widths() {
    assert_eq!(visual_width("abc", 2), 2);
    assert_eq!(visual_width("日本", 2), 4);
    assert_eq!(visual_width("abc", 10), 3);
}

#[test]
fn truncation() {
    assert_eq!(truncate_str("hello world", 8), "hello...");
    assert_eq!(truncate_str("hi", 8), "hi");
    assert_eq!(truncate_str("hello", 2), "...");
    assert_eq!(truncate_text("hello world", 5), "hello...");
    assert_eq!(truncate_text("hello", 5), "hello");
}

#[test]
fn auth_error_detection() {
    assert!(is_auth_error("VK API error 5: User authorization failed: invalid session"));
    assert!(is_auth_error("USER AUTHORIZATION FAILED"));
    assert!(!is_auth_error("Too many requests"));
}

#[test]
fn oauth_url_detection() {
    assert!(looks_like_oauth_url("https://oauth.vk.com/blank.html#access_token=x"));
    assert!(looks_like_oauth_url("foo access_token=abc"));
    assert!(!looks_like_oauth_url("vk1.a.abcdef"));
}

#[test]
fn first_url_in_text() {
    assert_eq!(
        extract_first_url("see https://example.com/x), ok"),
        Some("https://example.com/x".to_string())
    );
    assert_eq!(extract_first_url("no links here"), None);
    assert_eq!(extract_first_url("(https://example.com)"), None);
    assert_eq!(extract_first_url("a http://a.b b https://c.d"), Some("http://a.b".to_string()));
}

#[test]
fn send_commands() {
    assert!(matches!(parse_send_command("/sendfile /tmp/a.txt"), Some(SendCommand::File(p)) if p == "/tmp/a.txt"));
    assert!(matches!(parse_send_command("  /sendimg pic.png  "), Some(SendCommand::Image(p)) if p == "pic.png"));
    assert!(matches!(parse_send_command("/sendimg --clipboard"), Some(SendCommand::ImageClipboard)));
    assert!(parse_send_command("/sendfile ").is_none());
    assert!(parse_send_command("hello").is_none());
}

#[test]
fn forward_targets_filter() {
    let chats = vec![chat(100, "Alice"), chat(200, "Bob"), chat(1234, "Team")];
    assert_eq!(forward_filter(&chats, "  ").len(), 3);
    let r = forward_filter(&chats, "ALI");
    assert_eq!(r.len(), 1);
    assert_eq!(r[0].id, 100);
    let r = forward_filter(&chats, "23");
    assert_eq!(r.len(), 1);
    assert_eq!(r[0].id, 1234);
}

#[test]
fn timestamps() {
    // 3 hours ago, at 10:05 UTC.
    let ts = 10 * 3600 + 5 * 60;
    assert_eq!(format_timestamp_at(ts, (ts + 3 * 3600) as u64), "10:05");
    assert_eq!(format_timestamp_at(ts, (ts + 50 * 3600) as u64), "2d ago");
    assert_eq!(format_timestamp_at(100, 50), "");
}

#[test]
fn token_url_parsing() {
    let t = parse_token_url("https://oauth.vk.com/blank.html#access_token=abc123&expires_in=86400&user_id=42").unwrap();
    assert_eq!(t.access_token, "abc123");
    assert_eq!(t.user_id, 42);
    assert_eq!(t.expires_in, Some(86400));
    let t = parse_token_url("https://oauth.vk.com/blank.html#access_token=x&expires_in=0&user_id=7").unwrap();
    assert_eq!(t.expires_in, Some(0));
    let t = parse_token_url("#user_id=-5&access_token=tok").unwrap();
    assert_eq!(t.user_id, -5);
    assert_eq!(t.expires_in, None);
}

#[test]
fn token_url_errors() {
    assert_eq!(parse_token_url("https://oauth.vk.com/blank.html").err(), Some(TokenUrlError::NoFragment));
    assert_eq!(parse_token_url("x#user_id=1").err(), Some(TokenUrlError::NoAccessToken));
    assert_eq!(parse_token_url("x#access_token=a&user_id=abc").err(), Some(TokenUrlError::NoUserId));
    assert_eq!(TokenUrlError::NoFragment.message(), "No fragment in URL (expected #access_token=...)");
    assert_eq!(TokenUrlError::NoUserId.message(), "No user_id in URL");
}

#[test]
fn token_lifetime() {
    let t = parse_token_url("x#access_token=a&user_id=1&expires_in=100").unwrap();
    let d = token_data_at(t, 1000);
    assert_eq!(d.expires_at, Some(1100));
    assert_eq!(d.user_id, 1);
}

#[test]
fn auth_manager_accessors() {
    let m = AuthManager {
        config_path: String::from("/tmp/x"),
        token: Some(TokenData { access_token: String::from("t"), user_id: 9, expires_at: None }),
    };
    assert!(m.is_authenticated());
    assert_eq!(m.access_token(), Some("t"));
    assert_eq!(m.user_id(), Some(9));
    assert!(AuthManager::get_auth_url().starts_with("https://oauth.vk.com/authorize?client_id=6287487"));
    let e = AuthManager { config_path: String::new(), token: None };
    assert!(!e.is_authenticated());
    assert_eq!(e.user_id(), None);
}
