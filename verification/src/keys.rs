//! Key bindings of the terminal client: which message a key press sends,
//! by screen, mode and focused panel.

use vstd::prelude::*;
use crate::app_state::{Focus, ForwardStage, Message, Mode};

verus! {

/// A key as the bindings see it.
#[derive(Debug, Clone, Copy, PartialEq, Eq, Structural)]
pub enum KeyCode {
    Char(char),
    Enter,
    Backspace,
    Esc,
    Tab,
    BackTab,
    Up,
    Down,
    /// Any key without a binding.
    Other,
}

/// A key press: the key and whether Control was held.
#[derive(Debug, Clone, Copy, PartialEq, Eq, Structural)]
pub struct KeyPress {
    pub code: KeyCode,
    pub control: bool,
}

/// Ctrl+Q / Ctrl+C quit and Ctrl+O opens the OAuth page, on every screen.
pub open spec fn global_key(key: KeyPress) -> Option<Message> {
    if key.control && (key.code == KeyCode::Char('q') || key.code == KeyCode::Char('c')) {
        Some(Message::Quit)
    } else if key.control && key.code == KeyCode::Char('o') {
        Some(Message::OpenAuthUrl)
    } else {
        None
    }
}

/// Keys while the help popup is open.
pub open spec fn help_key(key: KeyPress) -> Message {
    match key.code {
        KeyCode::Esc | KeyCode::Char('q') => Message::ClosePopup,
        _ => Message::Noop,
    }
}

/// Keys of the chat list in normal mode.
pub open spec fn chatlist_key(key: KeyPress) -> Message {
    match key.code {
        KeyCode::Char('j') | KeyCode::Down => Message::NavigateDown,
        KeyCode::Char('k') | KeyCode::Up => Message::NavigateUp,
        KeyCode::Char('g') => Message::GoToTop,
        KeyCode::Char('G') => Message::GoToBottom,
        KeyCode::Char('l') | KeyCode::Enter => Message::Select,
        KeyCode::Char('/') => Message::StartSearch,
        _ => Message::Noop,
    }
}

/// Keys of the messages panel in normal mode (Control chords first).
pub open spec fn messages_key(key: KeyPress) -> Message {
    if key.control && key.code == KeyCode::Char('u') {
        Message::PageUp
    } else if key.control && key.code == KeyCode::Char('d') {
        Message::PageDown
    } else if key.control && key.code == KeyCode::Char('l') {
        Message::OpenLink
    } else {
        match key.code {
            KeyCode::Char('j') | KeyCode::Down => Message::NavigateDown,
            KeyCode::Char('k') | KeyCode::Up => Message::NavigateUp,
            KeyCode::Char('g') => Message::GoToTop,
            KeyCode::Char('G') => Message::GoToBottom,
            KeyCode::Char('i') | KeyCode::Char('l') | KeyCode::Enter => Message::EnterInsertMode,
            KeyCode::Char('r') => Message::ReplyToMessage,
            KeyCode::Char('f') => Message::ForwardMessage,
            KeyCode::Char('e') => Message::EditMessage,
            KeyCode::Char('p') => Message::PinMessage,
            KeyCode::Char('d') => Message::DeleteMessage,
            KeyCode::Char('y') => Message::YankMessage,
            KeyCode::Char('o') => Message::OpenLink,
            KeyCode::Char('a') => Message::DownloadAttachment,
            KeyCode::Char('/') => Message::StartSearch,
            KeyCode::Char('h') => Message::FocusPrev,
            _ => Message::Noop,
        }
    }
}

/// Keys in normal mode: panel switching, command mode and help first, then
/// the focused panel's keys.
pub open spec fn normal_key(key: KeyPress, focus: Focus) -> Message {
    match key.code {
        KeyCode::Esc => Message::Back,
        KeyCode::Tab => Message::FocusNext,
        KeyCode::BackTab => Message::FocusPrev,
        KeyCode::Char(':') => Message::EnterCommandMode,
        KeyCode::Char('?') => Message::ToggleHelp,
        _ => match focus {
            Focus::ChatList => chatlist_key(key),
            Focus::Messages => messages_key(key),
            Focus::Input => match key.code {
                KeyCode::Char('i') | KeyCode::Enter => Message::EnterInsertMode,
                _ => Message::Noop,
            },
        },
    }
}

/// Keys in insert mode.
pub open spec fn insert_key(key: KeyPress) -> Message {
    match key.code {
        KeyCode::Esc => Message::EnterNormalMode,
        KeyCode::Enter => Message::InputSubmit,
        KeyCode::Backspace => Message::InputBackspace,
        KeyCode::Char(c) => if key.control && (c == 'w' || c == 'u') {
            Message::InputDeleteWord
        } else {
            Message::InputChar(c)
        },
        _ => Message::Noop,
    }
}

/// Keys in command mode.
pub open spec fn command_key(key: KeyPress) -> Message {
    match key.code {
        KeyCode::Esc => Message::EnterNormalMode,
        KeyCode::Enter => Message::CommandSubmit,
        KeyCode::Backspace => Message::CommandBackspace,
        KeyCode::Char(c) => if key.control && (c == 'w' || c == 'u') {
            Message::CommandDeleteWord
        } else {
            Message::CommandChar(c)
        },
        _ => Message::Noop,
    }
}

/// The message for a key on the main screen.
pub open spec fn key_message(key: KeyPress, mode: Mode, focus: Focus, show_help: bool) -> Message {
    if show_help {
        help_key(key)
    } else {
        match global_key(key) {
            Some(m) => m,
            None => match mode {
                Mode::Normal => normal_key(key, focus),
                Mode::Insert => insert_key(key),
                Mode::Command => command_key(key),
            },
        }
    }
}

/// The message for a key on the authorization screen, which always types.
pub open spec fn auth_key_message(key: KeyPress) -> Message {
    match global_key(key) {
        Some(m) => m,
        None => match key.code {
            KeyCode::Enter => Message::InputSubmit,
            KeyCode::Backspace => Message::InputBackspace,
            KeyCode::Char(c) => if key.control && c == 'w' {
                Message::InputDeleteWord
            } else {
                Message::InputChar(c)
            },
            _ => Message::Noop,
        },
    }
}

/// Keys in the forward popup: picking the target chat (typing filters the
/// chats), then typing the comment; Esc cancels and Enter goes on.
pub open spec fn forward_key(key: KeyPress, picking: bool) -> Message {
    match key.code {
        KeyCode::Esc => Message::ForwardCancel,
        KeyCode::Enter => Message::ForwardSubmit,
        KeyCode::Up => if picking { Message::ForwardMoveUp } else { Message::Noop },
        KeyCode::Down => if picking { Message::ForwardMoveDown } else { Message::Noop },
        KeyCode::Backspace => if picking { Message::ForwardQueryBackspace } else { Message::ForwardCommentBackspace },
        KeyCode::Char(c) => if key.control && c == 'w' {
            if picking { Message::ForwardQueryDeleteWord } else { Message::ForwardCommentDeleteWord }
        } else if picking {
            Message::ForwardQueryChar(c)
        } else {
            Message::ForwardCommentChar(c)
        },
        _ => Message::Noop,
    }
}

/// Keys while the forwarded messages of a message are shown.
pub open spec fn forward_view_key(key: KeyPress) -> Message {
    match key.code {
        KeyCode::Esc | KeyCode::Char('q') => Message::ForwardViewClose,
        KeyCode::Char('j') | KeyCode::Down => Message::ForwardViewDown,
        KeyCode::Char('k') | KeyCode::Up => Message::ForwardViewUp,
        _ => Message::Noop,
    }
}

fn global_key_exec(key: KeyPress) -> (r: Option<Message>)
    ensures
        r == global_key(key),
{
    if key.control && (key.code == KeyCode::Char('q') || key.code == KeyCode::Char('c')) {
        Some(Message::Quit)
    } else if key.control && key.code == KeyCode::Char('o') {
        Some(Message::OpenAuthUrl)
    } else {
        None
    }
}

fn help_popup_key(key: KeyPress) -> (r: Message)
    ensures
        r == help_key(key),
{
    match key.code {
        KeyCode::Esc | KeyCode::Char('q') => Message::ClosePopup,
        _ => Message::Noop,
    }
}

fn chatlist_keys(key: KeyPress) -> (r: Message)
    ensures
        r == chatlist_key(key),
{
    match key.code {
        KeyCode::Char('j') | KeyCode::Down => Message::NavigateDown,
        KeyCode::Char('k') | KeyCode::Up => Message::NavigateUp,
        KeyCode::Char('g') => Message::GoToTop,
        KeyCode::Char('G') => Message::GoToBottom,
        KeyCode::Char('l') | KeyCode::Enter => Message::Select,
        KeyCode::Char('/') => Message::StartSearch,
        _ => Message::Noop,
    }
}

fn messages_keys(key: KeyPress) -> (r: Message)
    ensures
        r == messages_key(key),
{
    if key.control && key.code == KeyCode::Char('u') {
        return Message::PageUp;
    }
    if key.control && key.code == KeyCode::Char('d') {
        return Message::PageDown;
    }
    if key.control && key.code == KeyCode::Char('l') {
        return Message::OpenLink;
    }
    match key.code {
        KeyCode::Char('j') | KeyCode::Down => Message::NavigateDown,
        KeyCode::Char('k') | KeyCode::Up => Message::NavigateUp,
        KeyCode::Char('g') => Message::GoToTop,
        KeyCode::Char('G') => Message::GoToBottom,
        KeyCode::Char('i') | KeyCode::Char('l') | KeyCode::Enter => Message::EnterInsertMode,
        KeyCode::Char('r') => Message::ReplyToMessage,
        KeyCode::Char('f') => Message::ForwardMessage,
        KeyCode::Char('e') => Message::EditMessage,
        KeyCode::Char('p') => Message::PinMessage,
        KeyCode::Char('d') => Message::DeleteMessage,
        KeyCode::Char('y') => Message::YankMessage,
        KeyCode::Char('o') => Message::OpenLink,
        KeyCode::Char('a') => Message::DownloadAttachment,
        KeyCode::Char('/') => Message::StartSearch,
        KeyCode::Char('h') => Message::FocusPrev,
        _ => Message::Noop,
    }
}

fn normal_mode_key(key: KeyPress, focus: Focus) -> (r: Message)
    ensures
        r == normal_key(key, focus),
{
    match key.code {
        KeyCode::Esc => Message::Back,
        KeyCode::Tab => Message::FocusNext,
        KeyCode::BackTab => Message::FocusPrev,
        KeyCode::Char(':') => Message::EnterCommandMode,
        KeyCode::Char('?') => Message::ToggleHelp,
        _ => match focus {
            Focus::ChatList => chatlist_keys(key),
            Focus::Messages => messages_keys(key),
            Focus::Input => match key.code {
                KeyCode::Char('i') | KeyCode::Enter => Message::EnterInsertMode,
                _ => Message::Noop,
            },
        },
    }
}

fn insert_mode_key(key: KeyPress) -> (r: Message)
    ensures
        r == insert_key(key),
{
    match key.code {
        KeyCode::Esc => Message::EnterNormalMode,
        KeyCode::Enter => Message::InputSubmit,
        KeyCode::Backspace => Message::InputBackspace,
        KeyCode::Char(c) => if key.control && (c == 'w' || c == 'u') {
            Message::InputDeleteWord
        } else {
            Message::InputChar(c)
        },
        _ => Message::Noop,
    }
}

fn command_mode_key(key: KeyPress) -> (r: Message)
    ensures
        r == command_key(key),
{
    match key.code {
        KeyCode::Esc => Message::EnterNormalMode,
        KeyCode::Enter => Message::CommandSubmit,
        KeyCode::Backspace => Message::CommandBackspace,
        KeyCode::Char(c) => if key.control && (c == 'w' || c == 'u') {
            Message::CommandDeleteWord
        } else {
            Message::CommandChar(c)
        },
        _ => Message::Noop,
    }
}

impl Message {
    /// The message for a key on the main screen, given the mode, the focused
    /// panel and whether the help popup is open.
    pub fn from_key_event(key: KeyPress, mode: Mode, focus: Focus, show_help: bool) -> (r: Message)
        ensures
            r == key_message(key, mode, focus, show_help),
    {
        if show_help {
            return help_popup_key(key);
        }
        match global_key_exec(key) {
            Some(m) => m,
            None => match mode {
                Mode::Normal => normal_mode_key(key, focus),
                Mode::Insert => insert_mode_key(key),
                Mode::Command => command_mode_key(key),
            },
        }
    }

    /// The message for a key while the forward popup is open, in `stage`.
    pub fn from_forward_key_event(key: KeyPress, stage: &ForwardStage) -> (r: Message)
        ensures
            r == forward_key(key, *stage is SelectTarget),
    {
        let picking = match stage {
            ForwardStage::SelectTarget => true,
            ForwardStage::EnterComment { .. } => false,
        };
        match key.code {
            KeyCode::Esc => Message::ForwardCancel,
            KeyCode::Enter => Message::ForwardSubmit,
            KeyCode::Up => if picking { Message::ForwardMoveUp } else { Message::Noop },
            KeyCode::Down => if picking { Message::ForwardMoveDown } else { Message::Noop },
            KeyCode::Backspace => if picking { Message::ForwardQueryBackspace } else { Message::ForwardCommentBackspace },
            KeyCode::Char(c) => if key.control && c == 'w' {
                if picking { Message::ForwardQueryDeleteWord } else { Message::ForwardCommentDeleteWord }
            } else if picking {
                Message::ForwardQueryChar(c)
            } else {
                Message::ForwardCommentChar(c)
            },
            _ => Message::Noop,
        }
    }

    /// The message for a key while forwarded messages are shown.
    pub fn from_forward_view_key_event(key: KeyPress) -> (r: Message)
        ensures
            r == forward_view_key(key),
    {
        match key.code {
            KeyCode::Esc | KeyCode::Char('q') => Message::ForwardViewClose,
            KeyCode::Char('j') | KeyCode::Down => Message::ForwardViewDown,
            KeyCode::Char('k') | KeyCode::Up => Message::ForwardViewUp,
            _ => Message::Noop,
        }
    }

    /// The message for a key on the authorization screen.
    pub fn from_auth_key_event(key: KeyPress) -> (r: Message)
        ensures
            r == auth_key_message(key),
    {
        match global_key_exec(key) {
            Some(m) => m,
            None => match key.code {
                KeyCode::Enter => Message::InputSubmit,
                KeyCode::Backspace => Message::InputBackspace,
                KeyCode::Char(c) => if key.control && c == 'w' {
                    Message::InputDeleteWord
                } else {
                    Message::InputChar(c)
                },
                _ => Message::Noop,
            },
        }
    }
}


/// Ctrl+Q and Ctrl+C quit from every mode and panel of the main screen while
/// the help popup is closed, and always on the authorization screen.
pub proof fn lemma_quit_keys(c: char, mode: Mode, focus: Focus)
    requires
        c == 'q' || c == 'c',
    ensures
        key_message(KeyPress { code: KeyCode::Char(c), control: true }, mode, focus, false) == Message::Quit,
        auth_key_message(KeyPress { code: KeyCode::Char(c), control: true }) == Message::Quit,
{
}


/// In the messages panel in normal mode, Ctrl+D pages down, Ctrl+U pages up
/// and Ctrl+L opens a link, while a plain `d` deletes the selected message:
/// no key held with Control deletes one.
pub proof fn lemma_messages_control_keys(key: KeyPress)
    requires
        key.control,
    ensures
        key_message(KeyPress { code: KeyCode::Char('d'), control: true }, Mode::Normal, Focus::Messages, false) == Message::PageDown,
        key_message(KeyPress { code: KeyCode::Char('u'), control: true }, Mode::Normal, Focus::Messages, false) == Message::PageUp,
        key_message(KeyPress { code: KeyCode::Char('l'), control: true }, Mode::Normal, Focus::Messages, false) == Message::OpenLink,
        key_message(KeyPress { code: KeyCode::Char('d'), control: false }, Mode::Normal, Focus::Messages, false) == Message::DeleteMessage,
        key_message(key, Mode::Normal, Focus::Messages, false) != Message::DeleteMessage,
{
}

} // verus!
