use vk_client::app_state::{App, AsyncAction, Focus, ForwardStage, Message, Mode, RunningState, Screen};
use vk_client::auth::{AuthManager, TokenData};
use vk_client::events::VkEvent;
use vk_client::keys::{KeyCode, KeyPress};
use vk_client::models::{Chat, ChatMessage, DeliveryStatus};
use vk_client::update::{update, update_ready_check};
use vk_client::update_command::handle_command;

fn no_token() -> AuthManager {
    AuthManager { config_path: String::from("/tmp/token.json"), token: None }
}

fn token(expires_at: Option<i64>) -> AuthManager {
    AuthManager {
        config_path: String::from("/tmp/token.json"),
        token: Some(TokenData { access_token: String::from("tok"), user_id: 1, expires_at }),
    }
}

fn chat(id: i64, title: &str, unread: u32) -> Chat {
    Chat {
        id,
        title: title.to_string(),
        last_message: String::new(),
        last_message_time: 0,
        unread_count: unread,
        is_online: false,
    }
}

fn message(id: i64, text: &str) -> ChatMessage {
    ChatMessage {
        id,
        cmid: Some(id),
        from_id: 5,
        from_name: String::from("Bob"),
        text: text.to_string(),
        timestamp: 1000 + id,
        is_outgoing: false,
        is_read: false,
        is_edited: false,
        is_pinned: false,
        delivery: DeliveryStatus::Sent,
        attachments: Vec::new(),
        reply: None,
        fwd_count: 0,
        forwards: Vec::new(),
    }
}

fn step(app: &mut App, msg: Message) -> Option<Message> {
    assert!(update_ready_check(app, &msg));
    update(app, msg, 5000)
}

fn main_app() -> App {
    let mut app = App::new(token(None), 0);
    app.chats = vec![chat(10, "Alice", 2), chat(20, "Bob", 0)];
    app
}

#[test]
fn startup_with_valid_token_restores_session() {
    let app = App::new(token(Some(100)), 50);
    assert_eq!(app.screen, Screen::Main);
    assert!(app.has_client);
    assert_eq!(app.status.as_deref(), Some("Restoring session..."));
}

#[test]
fn startup_with_expired_token_logs_out() {
    let mut app = App::new(token(Some(100)), 100);
    assert_eq!(app.screen, Screen::Auth);
    assert!(!app.has_client);
    assert_eq!(app.status.as_deref(), Some("Session expired. Please authorize again."));
    let actions = app.take_actions();
    assert_eq!(actions.len(), 1);
    assert!(matches!(actions[0], AsyncAction::Logout));
    // the token stays while its file could not be removed
    step(&mut app, Message::LoggedOut(Err(String::from("permission denied"))));
    assert!(app.auth.token.is_some());
    step(&mut app, Message::LoggedOut(Ok(())));
    assert!(app.auth.token.is_none());
}

#[test]
fn login_flow() {
    let mut app = App::new(no_token(), 0);
    assert_eq!(app.screen, Screen::Auth);
    for c in "x#access_token=abc&user_id=77".chars() {
        let msg = Message::from_auth_key_event(KeyPress { code: KeyCode::Char(c), control: false });
        assert!(step(&mut app, msg).is_none());
    }
    assert_eq!(app.token_input, "x#access_token=abc&user_id=77");
    // Enter on the authorization screen is handed back as a selection.
    let enter = Message::from_auth_key_event(KeyPress { code: KeyCode::Enter, control: false });
    let next = step(&mut app, enter);
    assert!(matches!(next, Some(Message::Select)));
    assert!(step(&mut app, next.unwrap()).is_none());
    let actions = app.take_actions();
    assert_eq!(actions.len(), 1);
    match &actions[0] {
        AsyncAction::SaveToken(p) => {
            assert_eq!(p.access_token, "abc");
            assert_eq!(p.user_id, 77);
            assert_eq!(p.expires_in, None);
        }
        other => panic!("unexpected action {:?}", other),
    }
    let saved = TokenData { access_token: String::from("abc"), user_id: 77, expires_at: None };
    step(&mut app, Message::TokenSaved(Ok(saved)));
    assert_eq!(app.screen, Screen::Main);
    assert!(app.has_client);
    assert_eq!(app.status.as_deref(), Some("Authenticated successfully"));
    let actions = app.take_actions();
    assert_eq!(actions.len(), 2);
    assert!(matches!(actions[0], AsyncAction::LoadConversations(0)));
    assert!(matches!(actions[1], AsyncAction::StartLongPoll));
}

#[test]
fn bad_token_url_is_reported() {
    let mut app = App::new(no_token(), 0);
    step(&mut app, Message::InputChar('z'));
    step(&mut app, Message::Select);
    assert_eq!(app.status.as_deref(), Some("Failed to parse token from URL"));
    assert!(app.take_actions().is_empty());
}

#[test]
fn quit_stops_the_client() {
    let mut app = main_app();
    let msg = Message::from_key_event(KeyPress { code: KeyCode::Char('q'), control: true }, Mode::Insert, Focus::Input, false);
    assert!(matches!(msg, Message::Quit));
    step(&mut app, msg);
    assert_eq!(app.running_state, RunningState::Done);
    assert!(!app.is_running());
}

#[test]
fn focus_cycles_and_returns() {
    let mut app = main_app();
    assert_eq!(app.focus, Focus::ChatList);
    step(&mut app, Message::FocusNext);
    assert_eq!(app.focus, Focus::Messages);
    step(&mut app, Message::FocusNext);
    assert_eq!(app.focus, Focus::Input);
    step(&mut app, Message::FocusNext);
    assert_eq!(app.focus, Focus::ChatList);
    step(&mut app, Message::FocusPrev);
    assert_eq!(app.focus, Focus::Input);
}

#[test]
fn navigation_in_chat_list() {
    let mut app = main_app();
    step(&mut app, Message::NavigateDown);
    assert_eq!(app.selected_chat, 1);
    step(&mut app, Message::NavigateDown);
    assert_eq!(app.selected_chat, 1);
    step(&mut app, Message::NavigateUp);
    assert_eq!(app.selected_chat, 0);
    step(&mut app, Message::NavigateUp);
    assert_eq!(app.selected_chat, 0);
}

#[test]
fn opening_a_chat_requests_history() {
    let mut app = main_app();
    app.take_actions();
    step(&mut app, Message::Select);
    assert_eq!(app.current_peer_id, Some(10));
    assert_eq!(app.focus, Focus::Messages);
    assert_eq!(app.status.as_deref(), Some("Loading chat: Alice"));
    let actions = app.take_actions();
    assert_eq!(actions.len(), 2);
    assert!(matches!(actions[0], AsyncAction::LoadMessages(10, 0)));
    assert!(matches!(actions[1], AsyncAction::MarkAsRead(10)));
}

#[test]
fn loaded_page_is_shown_and_read() {
    let mut app = main_app();
    step(&mut app, Message::Select);
    step(
        &mut app,
        Message::MessagesLoaded {
            peer_id: 10,
            messages: vec![message(1, "a"), message(2, "b")],
            profiles: Vec::new(),
            total_count: 2,
            has_more: false,
        },
    );
    assert_eq!(app.messages.len(), 2);
    assert_eq!(app.messages_scroll, 1);
    assert!(app.messages.iter().all(|m| m.is_read));
    assert_eq!(app.chats[0].unread_count, 0);
    // An overlapping newer page adds only the new message.
    step(
        &mut app,
        Message::MessagesLoaded {
            peer_id: 10,
            messages: vec![message(2, "b"), message(3, "c")],
            profiles: Vec::new(),
            total_count: 3,
            has_more: false,
        },
    );
    let ids: Vec<i64> = app.messages.iter().map(|m| m.id).collect();
    assert_eq!(ids, vec![1, 2, 3]);
    assert_eq!(app.messages_scroll, 1);
}

#[test]
fn typing_and_sending_a_message() {
    let mut app = main_app();
    step(&mut app, Message::Select);
    step(&mut app, Message::FocusNext);
    assert_eq!(app.focus, Focus::Input);
    step(&mut app, Message::EnterInsertMode);
    assert_eq!(app.mode, Mode::Insert);
    step(&mut app, Message::InputChar('h'));
    step(&mut app, Message::InputChar('i'));
    step(&mut app, Message::InputChar('!'));
    step(&mut app, Message::InputBackspace);
    assert_eq!(app.input, "hi");
    app.take_actions();
    step(&mut app, Message::InputSubmit);
    assert_eq!(app.input, "");
    assert_eq!(app.status.as_deref(), Some("Sending..."));
    // a plain message is shown once the server confirms it
    assert!(app.messages.is_empty());
    assert_eq!(app.mode, Mode::Normal);
    let actions = app.take_actions();
    assert_eq!(actions.len(), 1);
    match &actions[0] {
        AsyncAction::SendMessage(peer, text) => {
            assert_eq!(*peer, 10);
            assert_eq!(text, "hi");
        }
        other => panic!("unexpected action {:?}", other),
    }
}

#[test]
fn submit_without_chat() {
    let mut app = main_app();
    app.focus = Focus::Input;
    step(&mut app, Message::InputChar('x'));
    step(&mut app, Message::InputSubmit);
    assert_eq!(app.status.as_deref(), Some("No chat selected"));
}

#[test]
fn new_message_event_in_other_chat_counts_unread() {
    let mut app = main_app();
    step(
        &mut app,
        Message::VkEvent(VkEvent::NewMessage {
            message_id: 99,
            peer_id: 20,
            timestamp: 2000,
            text: String::from("yo"),
            from_id: 20,
            is_outgoing: false,
        }),
    );
    let bob = app.chats.iter().find(|c| c.id == 20).unwrap();
    assert_eq!(bob.unread_count, 1);
}

#[test]
fn help_toggles() {
    let mut app = main_app();
    step(&mut app, Message::ToggleHelp);
    assert!(app.show_help);
    let msg = Message::from_key_event(KeyPress { code: KeyCode::Esc, control: false }, Mode::Normal, Focus::ChatList, true);
    assert!(matches!(msg, Message::ClosePopup));
    step(&mut app, msg);
    assert!(!app.show_help);
}

#[test]
fn command_mode_quit() {
    let mut app = main_app();
    step(&mut app, Message::EnterCommandMode);
    assert_eq!(app.mode, Mode::Command);
    step(&mut app, Message::CommandChar('q'));
    // the first Enter takes the offered command, the second runs it
    step(&mut app, Message::CommandSubmit);
    assert_eq!(app.command_input, "quit ");
    assert_eq!(app.running_state, RunningState::Running);
    step(&mut app, Message::CommandSubmit);
    assert_eq!(app.running_state, RunningState::Done);
}

#[test]
fn key_bindings() {
    let k = |c: char| KeyPress { code: KeyCode::Char(c), control: false };
    assert!(matches!(Message::from_key_event(k('j'), Mode::Normal, Focus::ChatList, false), Message::NavigateDown));
    assert!(matches!(Message::from_key_event(k('r'), Mode::Normal, Focus::Messages, false), Message::ReplyToMessage));
    assert!(matches!(Message::from_key_event(k('j'), Mode::Insert, Focus::Input, false), Message::InputChar('j')));
    assert!(matches!(Message::from_key_event(k(':'), Mode::Normal, Focus::Messages, false), Message::EnterCommandMode));
    assert!(matches!(
        Message::from_key_event(KeyPress { code: KeyCode::Char('w'), control: true }, Mode::Insert, Focus::Input, false),
        Message::InputDeleteWord
    ));
    assert!(matches!(
        Message::from_auth_key_event(KeyPress { code: KeyCode::Char('o'), control: true }),
        Message::OpenAuthUrl
    ));
}

#[test]
fn replying_shows_a_pending_copy() {
    let mut app = main_app();
    step(&mut app, Message::Select);
    step(
        &mut app,
        Message::MessagesLoaded {
            peer_id: 10,
            messages: vec![message(1, "question")],
            profiles: Vec::new(),
            total_count: 1,
            has_more: false,
        },
    );
    step(&mut app, Message::ReplyToMessage);
    assert_eq!(app.mode, Mode::Insert);
    assert_eq!(app.focus, Focus::Input);
    assert_eq!(app.status.as_deref(), Some("Replying to Bob (Esc to cancel)"));
    step(&mut app, Message::InputChar('y'));
    app.take_actions();
    step(&mut app, Message::InputSubmit);
    assert_eq!(app.messages.len(), 2);
    let copy = app.messages.last().unwrap();
    assert_eq!(copy.text, "y");
    assert_eq!(copy.id, 0);
    assert_eq!(copy.delivery, DeliveryStatus::Pending);
    assert_eq!(copy.reply.as_ref().unwrap().text, "question");
    assert!(app.reply_to.is_none());
    let actions = app.take_actions();
    assert!(matches!(&actions[0], AsyncAction::SendReply(10, 1, t) if t == "y"));
}

#[test]
fn forward_popup_keys() {
    let k = |c: KeyCode| KeyPress { code: c, control: false };
    let picking = ForwardStage::SelectTarget;
    let comment = ForwardStage::EnterComment { peer_id: 1, title: String::from("A") };
    assert!(matches!(Message::from_forward_key_event(k(KeyCode::Char('a')), &picking), Message::ForwardQueryChar('a')));
    assert!(matches!(Message::from_forward_key_event(k(KeyCode::Char('a')), &comment), Message::ForwardCommentChar('a')));
    assert!(matches!(Message::from_forward_key_event(k(KeyCode::Down), &picking), Message::ForwardMoveDown));
    assert!(matches!(Message::from_forward_key_event(k(KeyCode::Esc), &comment), Message::ForwardCancel));
    assert!(matches!(Message::from_forward_view_key_event(k(KeyCode::Char('j'))), Message::ForwardViewDown));
    assert!(matches!(Message::from_forward_view_key_event(k(KeyCode::Esc)), Message::ForwardViewClose));
}

#[test]
fn attach_command_aliases() {
    let mut app = main_app();
    app.current_peer_id = Some(5);
    app.take_actions();
    assert!(handle_command(&mut app, ":ap /tmp/pic.jpg").is_none());
    let actions = app.take_actions();
    assert_eq!(actions.len(), 1);
    assert!(matches!(&actions[0], AsyncAction::SendPhoto(5, p) if p == "/tmp/pic.jpg"));
    assert!(handle_command(&mut app, ":ad /tmp/a.pdf").is_none());
    let actions = app.take_actions();
    assert_eq!(actions.len(), 1);
    assert!(matches!(&actions[0], AsyncAction::SendDoc(5, p) if p == "/tmp/a.pdf"));
    assert!(handle_command(&mut app, ":attach doc /tmp/b.pdf").is_none());
    assert!(matches!(&app.take_actions()[0], AsyncAction::SendDoc(5, p) if p == "/tmp/b.pdf"));
    handle_command(&mut app, ":ap");
    assert_eq!(app.status.as_deref(), Some("Usage: :attach photo|doc <path>"));
    assert!(app.take_actions().is_empty());
}

#[test]
fn close_command_closes_popup() {
    let mut app = main_app();
    app.show_help = true;
    app.status = None;
    assert!(handle_command(&mut app, ":close").is_none());
    assert!(!app.show_help);
    assert!(app.status.is_none());
}

#[test]
fn unread_limit_only_concerns_the_counted_chat() {
    let mut app = main_app();
    app.chats[0].unread_count = u32::MAX;
    let elsewhere = Message::VkEvent(VkEvent::NewMessage {
        message_id: 1,
        peer_id: 20,
        timestamp: 0,
        text: String::new(),
        from_id: 20,
        is_outgoing: false,
    });
    assert!(update_ready_check(&app, &elsewhere));
    let full = Message::VkEvent(VkEvent::NewMessage {
        message_id: 1,
        peer_id: 10,
        timestamp: 0,
        text: String::new(),
        from_id: 10,
        is_outgoing: false,
    });
    assert!(!update_ready_check(&app, &full));
}
