use vk_client::models::Chat;
use vk_client::search::{filter_chats, filter_chats_guarded, fuzzy_match};

fn chat(id: i64, title: &str) -> Chat {
    Chat {
        id,
        title: title.to_string(),
        last_message: String::new(),
        last_message_time: 0,
        unread_count: 0,
        is_online: false,
    }
}

#[test]
fn test_fuzzy_match_basic() {
    assert!(fuzzy_match("hello world", "hlo").is_some());
    assert!(fuzzy_match("hello world", "hw").is_some());
    assert!(fuzzy_match("hello world", "hew").is_some());
    assert!(fuzzy_match("hello world", "xyz").is_none());
}

#[test]
fn test_fuzzy_match_empty() {
    assert_eq!(fuzzy_match("hello", ""), Some(0));
}

#[test]
fn test_fuzzy_match_case_insensitive() {
    assert!(fuzzy_match("Hello World", "hlo").is_some());
    assert!(fuzzy_match("HELLO", "hel").is_some());
}

#[test]
fn test_fuzzy_match_scoring() {
    let score1 = fuzzy_match("hello world", "hel").unwrap();
    let score2 = fuzzy_match("hello world", "hw").unwrap();
    // Consecutive matches should score higher
    assert!(score1 > score2);
}

#[test]
fn fuzzy_exact_scores() {
    // h: start of word (15) + 1; e and l: consecutive (10) + 1 each.
    assert_eq!(fuzzy_match("hello world", "hel"), Some(38));
    // h: 16; w: start of word after a space (15) + 1, not consecutive.
    assert_eq!(fuzzy_match("hello world", "hw"), Some(32));
    // '_' and '-' also start words.
    assert_eq!(fuzzy_match("a_b", "b"), Some(16));
    assert_eq!(fuzzy_match("a-b", "ab"), Some(32));
    assert_eq!(fuzzy_match("xab", "b"), Some(1));
}

#[test]
fn fuzzy_order_matters() {
    assert!(fuzzy_match("abc", "ca").is_none());
    assert!(fuzzy_match("", "a").is_none());
    assert_eq!(fuzzy_match("", ""), Some(0));
}

#[test]
fn filter_empty_query_keeps_all() {
    let chats = vec![chat(1, "Alice"), chat(2, "Bob"), chat(3, "Carol")];
    assert_eq!(filter_chats(&chats, ""), vec![0, 1, 2]);
}

#[test]
fn filter_ranks_by_score_then_position() {
    let chats = vec![
        chat(1, "xbob"),
        chat(2, "Bob"),
        chat(3, "Alice"),
        chat(4, "bob smith"),
    ];
    // "Bob" and "bob smith" score 38, "xbob" scores 23; "Alice" does not match.
    assert_eq!(filter_chats(&chats, "bob"), vec![1, 3, 0]);
}

#[test]
fn filter_guarded_matches_plain_filter() {
    let chats = vec![chat(1, "Work"), chat(2, "Family"), chat(3, "Worms")];
    assert_eq!(filter_chats_guarded(&chats, "wor"), Some(vec![0, 2]));
}
