use vk_client::completion::{
    determine_completion_state, filepath_completion, generate_subcommand_completions, generate_suggestions,
    CompletionState, CompletionStep, PathEntry,
};
use vk_client::models::{AttachmentInfo, AttachmentKind, Chat, ChatMessage, DeliveryStatus, ForwardItem, ReplyPreview};
use vk_client::forwards::{flatten_forwards, flatten_forwards_checked, forwards_len, forwards_len_checked};
use vk_client::screen::{
    auth_status_tone, chat_list_heading, first_pinned, forward_comment_title, forward_query_line, indented,
    message_time_at, render_message, results_title, Content, Piece, Tone, auth_url_line,
};

fn text_of(line: &[Piece]) -> String {
    line.iter()
        .map(|p| match &p.content {
            Content::Text(t) => t.clone(),
            Content::SizeKb(_) => String::new(),
        })
        .collect()
}

fn msg(text: &str) -> ChatMessage {
    ChatMessage {
        id: 1,
        cmid: None,
        from_id: 2,
        from_name: String::from("Ann"),
        text: text.to_string(),
        timestamp: 0,
        is_outgoing: true,
        is_read: true,
        is_edited: false,
        is_pinned: false,
        delivery: DeliveryStatus::Sent,
        attachments: Vec::new(),
        reply: None,
        fwd_count: 0,
        forwards: Vec::new(),
    }
}

fn fwd(from: &str, text: &str, nested: Vec<ForwardItem>) -> ForwardItem {
    ForwardItem { from: from.to_string(), text: text.to_string(), attachments: Vec::new(), nested }
}

fn entry(name: &str, is_dir: bool) -> PathEntry {
    PathEntry { name: name.to_string(), full_path: format!("./{}", name), is_dir }
}

#[test]
fn suggestions_for_prefix() {
    assert_eq!(generate_suggestions("").len(), 11);
    let s = generate_suggestions("q");
    assert_eq!(s.len(), 1);
    assert_eq!(s[0].command, "quit");
    let s = generate_suggestions("ph");
    assert_eq!(s.len(), 1);
    assert_eq!(s[0].command, "attach photo");
    assert!(generate_suggestions("zzz").is_empty());
}

#[test]
fn subcommands_of_attach() {
    match generate_subcommand_completions("attach", "d") {
        CompletionState::Subcommands { command, options, selected } => {
            assert_eq!(command, "attach");
            assert_eq!(options.len(), 1);
            assert_eq!(options[0].name, "doc");
            assert_eq!(selected, 0);
        }
        other => panic!("unexpected {:?}", other),
    }
    assert!(matches!(generate_subcommand_completions("quit", ""), CompletionState::Inactive));
}

#[test]
fn completion_steps() {
    match determine_completion_state(":qu") {
        CompletionStep::Ready(CompletionState::Commands { suggestions, .. }) => assert_eq!(suggestions[0].command, "quit"),
        other => panic!("unexpected {:?}", other),
    }
    assert!(matches!(determine_completion_state(":quit"), CompletionStep::Ready(CompletionState::Inactive)));
    match determine_completion_state(":attach photo ~/pi") {
        CompletionStep::ListPaths { path, base } => {
            assert_eq!(path, "~/pi");
            assert_eq!(base, ".");
        }
        other => panic!("unexpected {:?}", other),
    }
}

#[test]
fn path_entries_sorted_dirs_first() {
    let listing = vec![entry("b.txt", false), entry("docs", true), entry("a.txt", false), entry(".hidden", false)];
    match filepath_completion(String::from("."), "", listing) {
        CompletionState::FilePaths { entries, selected, .. } => {
            let names: Vec<&str> = entries.iter().map(|e| e.name.as_str()).collect();
            assert_eq!(names, vec!["docs", "a.txt", "b.txt"]);
            assert_eq!(selected, 0);
        }
        other => panic!("unexpected {:?}", other),
    }
}

#[test]
fn forwarded_tree_flattens() {
    let items = vec![fwd("A", "one", vec![fwd("B", "two", vec![])]), fwd("C", "three", vec![])];
    assert_eq!(forwards_len(&items), 3);
    let lines = flatten_forwards(&items, 0);
    assert_eq!(lines.len(), 3);
    assert_eq!(lines[0].0, 0);
    assert_eq!(lines[1].0, 1);
    assert_eq!(lines[2].0, 0);
    assert_eq!(lines[1].1, flatten_forwards_checked(&items, 0).unwrap()[1].1);
    assert_eq!(forwards_len_checked(&items), Some(3));
    assert!(flatten_forwards_checked(&items, usize::MAX - 1).is_none());
}

#[test]
fn message_rendering() {
    let lines = render_message(&msg("hello"), String::from("12:00"));
    assert!(!lines.is_empty());
    let main = text_of(&lines[0]);
    assert!(main.contains("12:00"));
    assert!(main.contains("hello"));
    let mut m = msg("see file");
    m.reply = Some(ReplyPreview { from: String::from("Bob"), text: String::from("question"), attachments: Vec::new() });
    m.attachments = vec![AttachmentInfo {
        kind: AttachmentKind::Doc,
        title: String::from("report.pdf"),
        url: None,
        size: Some(2048),
        subtitle: None,
    }];
    let lines = render_message(&m, String::from("09:30"));
    assert!(lines.len() >= 3);
    assert!(text_of(&lines[0]).contains("question"));
    assert!(lines.iter().any(|l| text_of(l).contains("report.pdf")));
}

#[test]
fn small_labels() {
    assert_eq!(chat_list_heading(true), " Chats (loading...) ");
    assert_eq!(chat_list_heading(false), " Chats ");
    assert_eq!(forward_query_line("bo"), "Search: bo");
    assert_eq!(forward_comment_title("Bob"), " Forward to Bob ");
    assert_eq!(indented(2, "x"), "    x");
    assert_eq!(results_title(0, 4), " Results (1/4) ");
    assert_eq!(auth_status_tone("Error: bad"), Tone::Red);
    assert_eq!(auth_status_tone("ok"), Tone::Green);
}

#[test]
fn pinned_lookup() {
    let mut a = msg("a");
    let mut b = msg("b");
    b.is_pinned = true;
    a.id = 1;
    b.id = 2;
    assert_eq!(first_pinned(&vec![a, b]), Some(1));
    assert_eq!(first_pinned(&vec![msg("x")]), None);
}

#[test]
fn time_labels() {
    let t = message_time_at(3600 * 5 + 60 * 7, 3600 * 6);
    assert_eq!(t, "05:07");
    let _ = Chat {
        id: 0,
        title: String::new(),
        last_message: String::new(),
        last_message_time: 0,
        unread_count: 0,
        is_online: false,
    };
}

#[test]
fn auth_url_line_widths() {
    assert_eq!(auth_url_line("ab", 4), "ab");
    assert_eq!(auth_url_line("abcdefghij", 8), "abc...");
    assert_eq!(auth_url_line("abcdef", 8), "abcdef");
}

#[test]
fn leading_colon_is_ignored() {
    match (determine_completion_state(":he"), determine_completion_state("he")) {
        (
            CompletionStep::Ready(CompletionState::Commands { suggestions: a, .. }),
            CompletionStep::Ready(CompletionState::Commands { suggestions: b, .. }),
        ) => {
            let a: Vec<&str> = a.iter().map(|s| s.command.as_str()).collect();
            let b: Vec<&str> = b.iter().map(|s| s.command.as_str()).collect();
            assert_eq!(a, b);
            assert_eq!(a, vec!["help"]);
        }
        other => panic!("unexpected {:?}", other),
    }
}

#[test]
fn suggestions_are_an_ordered_filter() {
    let all: Vec<String> = generate_suggestions("").into_iter().map(|s| s.command).collect();
    let got: Vec<String> = generate_suggestions("D").into_iter().map(|s| s.command).collect();
    let want: Vec<String> = all
        .into_iter()
        .filter(|c| c.starts_with('d') || c.split_whitespace().any(|w| w.starts_with('d')))
        .collect();
    assert_eq!(got, want);
    assert_eq!(got, vec!["attach doc", "download"]);
}
