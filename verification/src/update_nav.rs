//! Update-loop transitions for navigation, panels, modes and popups.

use vstd::prelude::*;
use crate::text::{string_of, push_str, push_u64_digits, decimal};
use crate::app_state::{App, Screen, Focus, Mode, RunningState, AsyncAction, status_is, set_status, focus_after, focus_before, within_limits};
use crate::completion::CompletionState;

verus! {

broadcast use vstd::string::group_string_axioms;

/// `new` is `old` with the client stopped.
pub open spec fn quit_done(old: App, new: App) -> bool {
    new == (App { running_state: RunningState::Done, ..old })
}

/// Stops the client.
pub fn on_quit(app: &mut App)
    ensures
        quit_done(*old(app), *final(app)),
{
    app.running_state = RunningState::Done;
}

/// On the main screen the focus moves to the next panel (or the previous
/// one when `forward` is false); elsewhere nothing changes.
pub open spec fn focus_move_done(old: App, new: App, forward: bool) -> bool {
    if old.screen == Screen::Main {
        new == (App { focus: if forward { focus_after(old.focus) } else { focus_before(old.focus) }, ..old })
    } else {
        new == old
    }
}

/// Tab / Shift+Tab.
pub fn on_focus_move(app: &mut App, forward: bool)
    ensures
        focus_move_done(*old(app), *final(app), forward),
{
    if app.screen == Screen::Main {
        app.focus = if forward { app.focus.next() } else { app.focus.prev() };
    }
}

/// Moving up: the chat selection moves up (stopping at the top); in the
/// messages panel the highlight moves up, and at the top older messages
/// are requested when there are more, none are loading, and the oldest
/// loaded message's cmid is known.
pub open spec fn navigate_up_done(old: App, new: App) -> bool {
    if old.screen != Screen::Main {
        new == old
    } else {
        match old.focus {
            Focus::ChatList => new == (App { selected_chat: if old.selected_chat > 0 { (old.selected_chat - 1) as usize } else { 0 }, ..old }),
            Focus::Messages => if old.messages_scroll > 0 {
                new == (App { messages_scroll: (old.messages_scroll - 1) as usize, ..old })
            } else {
                match (old.messages_pagination, old.current_peer_id) {
                    (Some(p), Some(peer)) => if p.has_more && !p.is_loading && p.first_cmid is Some {
                        &&& new == (App {
                            messages_pagination: Some(crate::pagination::MessagesPagination { is_loading: true, ..p }),
                            status: new.status,
                            actions: new.actions,
                            ..old
                        })
                        &&& status_is(new, "Loading older messages..."@)
                        &&& new.actions@ == old.actions@.push(AsyncAction::LoadMessagesWithOffset(peer, p.first_cmid->0, -1i32, 50u32))
                    } else {
                        new == old
                    },
                    _ => new == old,
                }
            },
            Focus::Input => new == old,
        }
    }
}

/// k / Up.
pub fn on_navigate_up(app: &mut App)
    ensures
        navigate_up_done(*old(app), *final(app)),
{
    if app.screen != Screen::Main {
        return;
    }
    match app.focus {
        Focus::ChatList => {
            if app.selected_chat > 0 {
                app.selected_chat = app.selected_chat - 1;
            }
        },
        Focus::Messages => {
            if app.messages_scroll == 0 {
                match (app.messages_pagination, app.current_peer_id) {
                    (Some(p), Some(peer)) => {
                        if p.has_more && !p.is_loading && p.first_cmid.is_some() {
                            let first = p.first_cmid.unwrap();
                            app.messages_pagination = Some(crate::pagination::MessagesPagination { is_loading: true, ..p });
                            set_status(app, "Loading older messages...");
                            app.send_action(AsyncAction::LoadMessagesWithOffset(peer, first, -1, 50));
                        }
                    },
                    _ => {},
                }
            } else {
                app.messages_scroll = app.messages_scroll - 1;
            }
        },
        Focus::Input => {},
    }
}

/// Number of chats the list shows: the filter's matches, or all chats.
pub open spec fn visible_count(app: App) -> int {
    match app.chat_filter {
        Some(f) => f.filtered_indices@.len() as int,
        None => app.chats@.len() as int,
    }
}

/// "Loading more chats (N/T)" with `?` for an unknown total.
pub open spec fn loading_more_text(loaded: int, total: Option<u32>) -> Seq<char> {
    "Loading more chats ("@ + decimal(loaded) + "/"@ + match total { Some(t) => decimal(t as int), None => "?"@ } + ")"@
}

/// Moving down: the chat selection moves down; at the end of the unfiltered
/// list the next page of chats is requested when there is one and none is
/// loading. In the messages panel the highlight moves down, and at the
/// bottom newer messages are requested when the newest loaded cmid is
/// known and nothing is loading.
pub open spec fn navigate_down_done(old: App, new: App) -> bool {
    if old.screen != Screen::Main {
        new == old
    } else {
        match old.focus {
            Focus::ChatList => if old.selected_chat + 1 < visible_count(old) {
                new == (App { selected_chat: (old.selected_chat + 1) as usize, ..old })
            } else if old.chat_filter is None && old.chats_pagination.has_more && !old.chats_pagination.is_loading {
                &&& new == (App {
                    chats_pagination: crate::pagination::ChatsPagination { is_loading: true, ..old.chats_pagination },
                    status: new.status,
                    actions: new.actions,
                    ..old
                })
                &&& status_is(new, loading_more_text(old.chats@.len() as int, old.chats_pagination.total_count))
                &&& new.actions@ == old.actions@.push(AsyncAction::LoadConversations(old.chats_pagination.offset))
            } else {
                new == old
            },
            Focus::Messages => if old.messages_scroll + 1 < old.messages@.len() {
                new == (App { messages_scroll: (old.messages_scroll + 1) as usize, ..old })
            } else {
                match (old.messages_pagination, old.current_peer_id) {
                    (Some(p), Some(peer)) => if !p.is_loading && p.last_cmid is Some {
                        &&& new == (App {
                            messages_pagination: Some(crate::pagination::MessagesPagination { is_loading: true, ..p }),
                            status: new.status,
                            actions: new.actions,
                            ..old
                        })
                        &&& status_is(new, "Loading newer messages..."@)
                        &&& new.actions@ == old.actions@.push(AsyncAction::LoadMessagesWithOffset(peer, p.last_cmid->0, -49i32, 50u32))
                    } else {
                        new == old
                    },
                    _ => new == old,
                }
            },
            Focus::Input => new == old,
        }
    }
}

/// j / Down.
pub fn on_navigate_down(app: &mut App)
    requires
        within_limits(*old(app)),
    ensures
        navigate_down_done(*old(app), *final(app)),
{
    if app.screen != Screen::Main {
        return;
    }
    match app.focus {
        Focus::ChatList => {
            let visible = match &app.chat_filter {
                Some(f) => f.filtered_indices.len(),
                None => app.chats.len(),
            };
            if app.selected_chat + 1 < visible {
                app.selected_chat = app.selected_chat + 1;
            } else if app.chat_filter.is_none() && app.chats_pagination.has_more && !app.chats_pagination.is_loading {
                let mut text = string_of("Loading more chats (");
                push_u64_digits(&mut text, app.chats.len() as u64);
                push_str(&mut text, "/");
                match app.chats_pagination.total_count {
                    Some(t) => push_u64_digits(&mut text, t as u64),
                    None => push_str(&mut text, "?"),
                }
                push_str(&mut text, ")");
                let offset = app.chats_pagination.offset;
                app.chats_pagination = crate::pagination::ChatsPagination { is_loading: true, ..app.chats_pagination };
                app.status = Some(text);
                app.send_action(AsyncAction::LoadConversations(offset));
            }
        },
        Focus::Messages => {
            if app.messages_scroll + 1 < app.messages.len() {
                app.messages_scroll = app.messages_scroll + 1;
            } else {
                match (app.messages_pagination, app.current_peer_id) {
                    (Some(p), Some(peer)) => {
                        if !p.is_loading && p.last_cmid.is_some() {
                            let last = p.last_cmid.unwrap();
                            app.messages_pagination = Some(crate::pagination::MessagesPagination { is_loading: true, ..p });
                            set_status(app, "Loading newer messages...");
                            app.send_action(AsyncAction::LoadMessagesWithOffset(peer, last, -49, 50));
                        }
                    },
                    _ => {},
                }
            }
        },
        Focus::Input => {},
    }
}

/// g / G: jump to the first or last chat or message.
pub open spec fn jump_done(old: App, new: App, to_top: bool) -> bool {
    if old.screen != Screen::Main {
        new == old
    } else {
        match old.focus {
            Focus::ChatList => new == (App {
                selected_chat: if to_top { 0 } else if old.chats@.len() > 0 { (old.chats@.len() - 1) as usize } else { 0 },
                ..old
            }),
            Focus::Messages => new == (App {
                messages_scroll: if to_top { 0 } else if old.messages@.len() > 0 { (old.messages@.len() - 1) as usize } else { 0 },
                ..old
            }),
            Focus::Input => new == old,
        }
    }
}

/// Go to top / bottom.
pub fn on_jump(app: &mut App, to_top: bool)
    ensures
        jump_done(*old(app), *final(app), to_top),
{
    if app.screen != Screen::Main {
        return;
    }
    match app.focus {
        Focus::ChatList => {
            app.selected_chat = if to_top { 0 } else if app.chats.len() > 0 { app.chats.len() - 1 } else { 0 };
        },
        Focus::Messages => {
            app.messages_scroll = if to_top { 0 } else if app.messages.len() > 0 { app.messages.len() - 1 } else { 0 };
        },
        Focus::Input => {},
    }
}

/// Page up/down in the messages panel: ten messages at a time, not past
/// the first or last message.
pub open spec fn page_done(old: App, new: App, up: bool) -> bool {
    if old.screen == Screen::Main && old.focus == Focus::Messages {
        let last = if old.messages@.len() > 0 { old.messages@.len() - 1 } else { 0 };
        new == (App {
            messages_scroll: if up {
                if old.messages_scroll >= 10 { (old.messages_scroll - 10) as usize } else { 0 }
            } else {
                if old.messages_scroll + 10 <= last { (old.messages_scroll + 10) as usize } else { last as usize }
            },
            ..old
        })
    } else {
        new == old
    }
}

/// Ctrl+U / Ctrl+D.
pub fn on_page(app: &mut App, up: bool)
    ensures
        page_done(*old(app), *final(app), up),
{
    if app.screen == Screen::Main && app.focus == Focus::Messages {
        if up {
            app.messages_scroll = if app.messages_scroll >= 10 { app.messages_scroll - 10 } else { 0 };
        } else {
            let last = if app.messages.len() > 0 { app.messages.len() - 1 } else { 0 };
            app.messages_scroll = if app.messages_scroll <= last && last - app.messages_scroll >= 10 {
                app.messages_scroll + 10
            } else {
                last
            };
        }
    }
}

/// Back: on the main screen, return to the chat list and leave the chat.
pub open spec fn back_done(old: App, new: App) -> bool {
    if old.screen == Screen::Main {
        new == (App { focus: Focus::ChatList, current_peer_id: None, ..old })
    } else {
        new == old
    }
}

/// Esc in normal mode.
pub fn on_back(app: &mut App)
    ensures
        back_done(*old(app), *final(app)),
{
    if app.screen == Screen::Main {
        app.focus = Focus::ChatList;
        app.current_peer_id = None;
    }
}

/// Normal mode: leave the input panel for the messages, clear the command
/// line and its completion.
pub open spec fn normal_mode_done(old: App, new: App) -> bool {
    &&& new == (App {
        mode: Mode::Normal,
        focus: if old.focus == Focus::Input { Focus::Messages } else { old.focus },
        command_input: new.command_input,
        command_cursor: 0,
        completion_state: new.completion_state,
        status: new.status,
        ..old
    })
    &&& new.command_input@.len() == 0
    &&& new.completion_state is Inactive
    &&& status_is(new, "Normal mode"@)
}

/// Esc in insert or command mode.
pub fn on_enter_normal_mode(app: &mut App)
    ensures
        normal_mode_done(*old(app), *final(app)),
{
    app.mode = Mode::Normal;
    if app.focus == Focus::Input {
        app.focus = Focus::Messages;
    }
    app.command_input = String::new();
    app.command_cursor = 0;
    app.completion_state = CompletionState::Inactive;
    set_status(app, "Normal mode");
}

/// Insert mode: focus the input panel.
pub open spec fn insert_mode_done(old: App, new: App) -> bool {
    &&& new == (App { mode: Mode::Insert, focus: Focus::Input, status: new.status, ..old })
    &&& status_is(new, "Insert mode"@)
}

/// i / Enter in the messages panel.
pub fn on_enter_insert_mode(app: &mut App)
    ensures
        insert_mode_done(*old(app), *final(app)),
{
    app.mode = Mode::Insert;
    app.focus = Focus::Input;
    set_status(app, "Insert mode");
}

/// Help popup toggled or closed.
pub open spec fn help_done(old: App, new: App, toggle: bool) -> bool {
    new == (App { show_help: if toggle { !old.show_help } else { false }, ..old })
}

/// ? / Esc on the help popup.
pub fn on_help(app: &mut App, toggle: bool)
    ensures
        help_done(*old(app), *final(app), toggle),
{
    app.show_help = if toggle { !app.show_help } else { false };
}

} // verus!
