use vk_client::auth::{AuthManager, TokenData};
use vk_client::core_state::CoreState;
use vk_client::gui::{auth_status_text, ConnectionState, GuiApp, GuiMessage, GuiTask, GuiView};
use vk_client::models::Chat;

fn auth(token: Option<(&str, Option<i64>)>) -> AuthManager {
    AuthManager {
        config_path: String::from("/tmp/t.json"),
        token: token.map(|(t, e)| TokenData { access_token: t.to_string(), user_id: 3, expires_at: e }),
    }
}

#[test]
fn desktop_starts_with_font_task() {
    let g = GuiApp::new(auth(None), 0);
    assert_eq!(g.view, GuiView::Auth);
    assert_eq!(g.tasks.len(), 1);
    assert!(matches!(g.tasks[0], GuiTask::LoadFont));
}

#[test]
fn desktop_validates_stored_token() {
    let g = GuiApp::new(auth(Some(("tok", None))), 0);
    assert_eq!(g.connection, ConnectionState::Connecting);
    assert_eq!(g.status.as_deref(), Some("Validating session..."));
    assert!(matches!(&g.tasks[1], GuiTask::ValidateToken(k) if k == "tok"));
    let mut g = GuiApp::new(auth(Some(("tok", Some(10)))), 10);
    assert!(matches!(g.tasks[1], GuiTask::Logout));
    assert_eq!(g.status.as_deref(), Some("Session expired. Please login again."));
    g.update(GuiMessage::LoggedOut(Err(String::from("busy"))));
    assert!(g.auth.token.is_some());
    g.update(GuiMessage::LoggedOut(Ok(())));
    assert!(g.auth.token.is_none());
}

#[test]
fn desktop_login_flow() {
    let mut g = GuiApp::new(auth(None), 0);
    g.update(GuiMessage::LoginPressed);
    assert_eq!(g.status.as_deref(), Some("Please paste the redirect URL"));
    g.update(GuiMessage::TokenInputChanged(String::from("vk1.token")));
    g.update(GuiMessage::LoginPressed);
    assert_eq!(g.status.as_deref(), Some("Please paste the full redirect URL"));
    g.update(GuiMessage::TokenInputChanged(String::from("https://oauth.vk.com/blank.html#expires_in=0")));
    g.update(GuiMessage::LoginPressed);
    assert_eq!(g.status.as_deref(), Some("Invalid redirect URL: No access_token in URL"));
    g.update(GuiMessage::TokenInputChanged(String::from(
        "  https://oauth.vk.com/blank.html#access_token=abc&expires_in=0&user_id=9  ",
    )));
    g.update(GuiMessage::LoginPressed);
    match g.tasks.last().unwrap() {
        GuiTask::SaveToken(p) => {
            assert_eq!(p.access_token, "abc");
            assert_eq!(p.user_id, 9);
            assert_eq!(p.expires_in, Some(0));
        }
        other => panic!("unexpected {:?}", other),
    }
}

#[test]
fn desktop_open_auth_url() {
    let mut g = GuiApp::new(auth(None), 0);
    g.update(GuiMessage::OpenAuthUrl);
    assert!(matches!(g.tasks.last().unwrap(), GuiTask::OpenUrl(u) if u.starts_with("https://oauth.vk.com/authorize")));
    g.update(GuiMessage::AuthUrlOpened(None));
    assert_eq!(g.status.as_deref(), Some("Opened OAuth URL. Paste redirect URL below."));
    g.update(GuiMessage::AuthUrlOpened(Some(String::from("no browser"))));
    assert_eq!(g.status.as_deref(), Some("Failed to open browser: no browser"));
}

#[test]
fn desktop_status_text() {
    assert_eq!(auth_status_text(ConnectionState::Connecting, None), "Connecting...");
}

#[test]
fn core_state_selection() {
    let mut c = CoreState::with_client(auth(None));
    assert!(c.is_authenticated());
    assert!(!CoreState::new(auth(None)).is_authenticated());
    assert!(c.current_chat().is_none());
    c.chats.push(Chat {
        id: 4,
        title: String::from("Q"),
        last_message: String::new(),
        last_message_time: 0,
        unread_count: 0,
        is_online: false,
    });
    assert_eq!(c.current_chat().unwrap().id, 4);
    assert!(c.current_message().is_none());
    assert_eq!(c.get_user_name(-7), "Group 7");
    assert_eq!(c.get_user_name(7), "User 7");
}

#[test]
fn desktop_prompts() {
    let mut g = GuiApp::new(auth(None), 0);
    assert!(g.reply_prompt().is_none());
    g.reply_to = Some(42);
    assert_eq!(g.reply_prompt().as_deref(), Some("Reply to message #42"));
    g.editing_message = Some(7);
    assert_eq!(g.edit_prompt().as_deref(), Some("Editing message #7"));
}
