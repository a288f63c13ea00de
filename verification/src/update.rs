//! The terminal client's update function: one message in, the new state
//! (and, for Enter on the authorization screen, a follow-up message) out.

use vstd::prelude::*;
use crate::forwards::forward_count;
use crate::completion::{CompletionState, completion_ok};
use crate::models::{Chat, ForwardItem};
use crate::events::VkEvent;
use crate::app_state::{App, Screen, Focus, Message, within_limits, nameable};
use crate::update_nav::{back_done, focus_move_done, help_done, insert_mode_done, jump_done, navigate_down_done, navigate_up_done, normal_mode_done, on_back, on_enter_insert_mode, on_enter_normal_mode, on_focus_move, on_help, on_jump, on_navigate_down, on_navigate_up, on_page, on_quit, page_done, quit_done};
use crate::update_input::{clipboard_done, input_backspace_done, input_char_done, input_delete_word_done, on_clipboard_image, on_input_backspace, on_input_char, on_input_delete_word, on_submit_message, submit_done};
use crate::update_command::{command_backspace_done, command_char_done, command_delete_word_done, command_mode_done, completion_move_done, download_current, download_done, on_command_backspace, on_command_char, on_command_delete_word, on_completion_move, on_enter_command_mode, on_paths_listed, paths_listed_done, status_only};
use crate::update_message::{auth_url_opened_text, cancel_reply_done, delete_done, edit_done, forward_view_move_done, link_opened_text, on_auth_url_opened, on_cancel_reply, on_delete, on_edit, on_forward_view_move, on_link_opened, on_open_auth_url, on_open_link, on_pin, on_reply, on_select, on_token_saved, on_view_forwarded, on_yank, open_auth_url_done, open_link_done, pin_done, reply_done, select_done, token_saved_done, view_forwarded_done, yank_done};
use crate::update_forward::{forward_cancel_done, forward_comment_done, forward_move_done, forward_query_done, forward_start_done, forward_submit_done, on_forward_cancel, on_forward_comment, on_forward_move, on_forward_query, on_forward_start, on_forward_submit};
use crate::update_events::{logged_out_done, on_logged_out, conversations_loaded_done, details_applied, error_done, event_ok, message_deleted_done, message_edited_done, message_pos, message_sent_done, on_conversations_loaded, on_error, on_message_deleted, on_message_details, on_message_edited, on_message_sent, on_send_failed, on_session_validated, on_vk_event, send_failed_done, session_validated_done, vk_event_done};
use crate::update_history::{messages_loaded_done, on_messages_loaded, distinct_ids, fresh, any_known, lemma_page_loaded};
use crate::update_input::{typing_target, lemma_type_then_backspace};
use crate::models::ChatMessage;
use crate::api::User;
use crate::update_search::{filter_backspace_done, filter_char_done, global_backspace_done, global_char_done, global_move_done, global_select_done, on_close_search, on_filter_backspace, on_filter_char, on_global_backspace, on_global_char, on_global_move, on_global_select, on_results_loaded, on_start_filter, on_start_global, on_start_search, results_loaded_done, search_closed, start_filter_done, start_global_done, start_search_done};
use crate::update_submit::{command_submit_done, on_command_submit};

verus! {

broadcast use vstd::std_specs::hash::group_hash_axioms;

/// What the update function needs: counters below their limits, a
/// completion whose selection is in range, room for one more message, a
/// countable forward tree, and a nameable sender for live events.
pub open spec fn update_ready(app: App, msg: Message) -> bool {
    &&& within_limits(app)
    &&& completion_ok(app.completion_state)
    &&& app.messages@.len() < usize::MAX
    &&& (app.forward_view matches Some(v) ==> forward_count(v.items@) <= usize::MAX)
    &&& (msg matches Message::VkEvent(e) ==> event_ok(app, e))
}

/// The effect of one message on the client state.
pub open spec fn update_done(old: App, new: App, msg: Message, now: i64) -> bool {
    match msg {
        Message::Noop => new == old,
        Message::Quit => quit_done(old, new),
        Message::OpenAuthUrl => open_auth_url_done(old, new),
        Message::FocusNext => focus_move_done(old, new, true),
        Message::FocusPrev => focus_move_done(old, new, false),
        Message::NavigateUp => navigate_up_done(old, new),
        Message::NavigateDown => navigate_down_done(old, new),
        Message::PageUp => page_done(old, new, true),
        Message::PageDown => page_done(old, new, false),
        Message::Select => select_done(old, new),
        Message::Back => back_done(old, new),
        Message::InputChar(c) => input_char_done(old, new, c),
        Message::InputBackspace => input_backspace_done(old, new),
        Message::InputDeleteWord => input_delete_word_done(old, new),
        Message::InputSubmit => if old.screen == Screen::Main && old.focus == Focus::Input {
            submit_done(old, new, now)
        } else {
            new == old
        },
        Message::CommandChar(c) => command_char_done(old, new, c),
        Message::CommandBackspace => command_backspace_done(old, new),
        Message::CommandDeleteWord => command_delete_word_done(old, new),
        Message::CommandSubmit => command_submit_done(old, new),
        Message::CompletionUp => completion_move_done(old, new, true),
        Message::CompletionDown => completion_move_done(old, new, false),
        Message::CompletionSelect => new == old,
        Message::EnterNormalMode => normal_mode_done(old, new),
        Message::EnterInsertMode => insert_mode_done(old, new),
        Message::EnterCommandMode => command_mode_done(old, new),
        Message::GoToTop => jump_done(old, new, true),
        Message::GoToBottom => jump_done(old, new, false),
        Message::ReplyToMessage => reply_done(old, new),
        Message::ForwardMessage => forward_start_done(old, new),
        Message::DeleteMessage => delete_done(old, new),
        Message::EditMessage => edit_done(old, new),
        Message::YankMessage => yank_done(old, new),
        Message::PinMessage => pin_done(old, new),
        Message::OpenLink => open_link_done(old, new),
        Message::DownloadAttachment => if old.screen == Screen::Main && old.focus == Focus::Messages {
            download_done(old, new)
        } else {
            new == old
        },
        Message::CancelReply => cancel_reply_done(old, new),
        Message::ViewForwarded => view_forwarded_done(old, new),
        Message::ForwardViewClose => new == (App { forward_view: None, ..old }),
        Message::ForwardViewUp => forward_view_move_done(old, new, true),
        Message::ForwardViewDown => forward_view_move_done(old, new, false),
        Message::ForwardCancel => forward_cancel_done(old, new),
        Message::ForwardMoveUp => forward_move_done(old, new, true),
        Message::ForwardMoveDown => forward_move_done(old, new, false),
        Message::ForwardQueryChar(c) => forward_query_done(old, new, 0, c),
        Message::ForwardQueryBackspace => forward_query_done(old, new, 1, ' '),
        Message::ForwardQueryDeleteWord => forward_query_done(old, new, 2, ' '),
        Message::ForwardSubmit => forward_submit_done(old, new, now),
        Message::ForwardCommentChar(c) => forward_comment_done(old, new, 0, c),
        Message::ForwardCommentBackspace => forward_comment_done(old, new, 1, ' '),
        Message::ForwardCommentDeleteWord => forward_comment_done(old, new, 2, ' '),
        Message::VkEvent(e) => vk_event_done(old, new, e),
        Message::SessionValidated { valid, error } => session_validated_done(old, new, valid, error),
        Message::ConversationsLoaded { chats, profiles, total_count, has_more } =>
            conversations_loaded_done(old, new, chats@, profiles@, total_count, has_more),
        Message::MessagesLoaded { peer_id, messages, profiles, total_count, has_more } =>
            messages_loaded_done(old, new, peer_id, messages@, profiles@, total_count, has_more),
        Message::MessageSent(id, cmid) => message_sent_done(old, new, id, cmid),
        Message::MessageEdited(id) => message_edited_done(old, new, id),
        Message::MessageDeleted(id) => message_deleted_done(old, new, id),
        Message::MessageDetailsFetched { message_id, cmid, text, is_edited, attachments, reply, fwd_count, forwards } => {
            &&& new == (App { messages: new.messages, ..old })
            &&& new.messages@ == match message_pos(old.messages@, message_id) {
                Some(p) => old.messages@.update(p, details_applied(old.messages@[p], cmid, text, is_edited, attachments, reply, fwd_count, forwards)),
                None => old.messages@,
            }
        },
        Message::Error(e) => error_done(old, new, e@),
        Message::SendFailed(e) => send_failed_done(old, new, e@),
        Message::StartSearch => start_search_done(old, new),
        Message::ToggleHelp => help_done(old, new, true),
        Message::ClosePopup => help_done(old, new, false),
        Message::StartChatFilter => start_filter_done(old, new),
        Message::FilterChar(c) => filter_char_done(old, new, c),
        Message::FilterBackspace => filter_backspace_done(old, new),
        Message::ClearFilter => search_closed(old, new, false),
        Message::StartGlobalSearch => start_global_done(old, new),
        Message::GlobalSearchChar(c) => global_char_done(old, new, c),
        Message::GlobalSearchBackspace => global_backspace_done(old, new),
        Message::ClearGlobalSearch => search_closed(old, new, true),
        Message::GlobalSearchUp => global_move_done(old, new, true),
        Message::GlobalSearchDown => global_move_done(old, new, false),
        Message::GlobalSearchSelect => global_select_done(old, new),
        Message::SearchResultsLoaded { results, total_count } => results_loaded_done(old, new, results@, total_count),
        Message::AuthUrlOpened(err) => status_only(old, new, auth_url_opened_text(err)),
        Message::LinkOpened(url, err) => status_only(old, new, link_opened_text(url@, err)),
        Message::TokenSaved(res) => token_saved_done(old, new, res),
        Message::LoggedOut(res) => logged_out_done(old, new, res),
        Message::ClipboardImage(peer, res) => clipboard_done(old, new, peer, res, now),
        Message::PathsListed { base_path, prefix, entries } => paths_listed_done(old, new, base_path@, prefix@, entries@),
    }
}

/// Applies one message to the client state at time `now` (seconds since
/// the epoch, stamped on pending messages). Returns the follow-up message:
/// Enter on the authorization screen becomes `Select`.
pub fn update(app: &mut App, msg: Message, now: i64) -> (r: Option<Message>)
    requires
        update_ready(*old(app), msg),
    ensures
        (msg is InputSubmit && old(app).screen == Screen::Auth) ==> (r matches Some(m) && m is Select && *final(app) == *old(app)),
        !(msg is InputSubmit && old(app).screen == Screen::Auth) ==> r is None && update_done(*old(app), *final(app), msg, now),
        completion_ok(final(app).completion_state),
{
    match msg {
        Message::Noop => {},
        Message::Quit => on_quit(app),
        Message::OpenAuthUrl => on_open_auth_url(app),
        Message::FocusNext => on_focus_move(app, true),
        Message::FocusPrev => on_focus_move(app, false),
        Message::NavigateUp => on_navigate_up(app),
        Message::NavigateDown => on_navigate_down(app),
        Message::PageUp => on_page(app, true),
        Message::PageDown => on_page(app, false),
        Message::Select => on_select(app),
        Message::Back => on_back(app),
        Message::InputChar(c) => on_input_char(app, c),
        Message::InputBackspace => on_input_backspace(app),
        Message::InputDeleteWord => on_input_delete_word(app),
        Message::InputSubmit => {
            if app.screen == Screen::Auth {
                return Some(Message::Select);
            } else if app.focus == Focus::Input {
                let _ = on_submit_message(app, now);
            }
        },
        Message::CommandChar(c) => on_command_char(app, c),
        Message::CommandBackspace => on_command_backspace(app),
        Message::CommandDeleteWord => on_command_delete_word(app),
        Message::CommandSubmit => on_command_submit(app),
        Message::CompletionUp => on_completion_move(app, true),
        Message::CompletionDown => on_completion_move(app, false),
        Message::CompletionSelect => {},
        Message::EnterNormalMode => on_enter_normal_mode(app),
        Message::EnterInsertMode => on_enter_insert_mode(app),
        Message::EnterCommandMode => on_enter_command_mode(app),
        Message::GoToTop => on_jump(app, true),
        Message::GoToBottom => on_jump(app, false),
        Message::ReplyToMessage => on_reply(app),
        Message::ForwardMessage => on_forward_start(app),
        Message::DeleteMessage => on_delete(app),
        Message::EditMessage => on_edit(app),
        Message::YankMessage => on_yank(app),
        Message::PinMessage => on_pin(app),
        Message::OpenLink => on_open_link(app),
        Message::DownloadAttachment => {
            if app.screen == Screen::Main && app.focus == Focus::Messages {
                download_current(app);
            }
        },
        Message::CancelReply => on_cancel_reply(app),
        Message::ViewForwarded => on_view_forwarded(app),
        Message::ForwardViewClose => {
            app.forward_view = None;
        },
        Message::ForwardViewUp => on_forward_view_move(app, true),
        Message::ForwardViewDown => on_forward_view_move(app, false),
        Message::ForwardCancel => on_forward_cancel(app),
        Message::ForwardMoveUp => on_forward_move(app, true),
        Message::ForwardMoveDown => on_forward_move(app, false),
        Message::ForwardQueryChar(c) => on_forward_query(app, 0, c),
        Message::ForwardQueryBackspace => on_forward_query(app, 1, ' '),
        Message::ForwardQueryDeleteWord => on_forward_query(app, 2, ' '),
        Message::ForwardSubmit => on_forward_submit(app, now),
        Message::ForwardCommentChar(c) => on_forward_comment(app, 0, c),
        Message::ForwardCommentBackspace => on_forward_comment(app, 1, ' '),
        Message::ForwardCommentDeleteWord => on_forward_comment(app, 2, ' '),
        Message::VkEvent(e) => on_vk_event(app, e),
        Message::SessionValidated { valid, error } => on_session_validated(app, valid, error),
        Message::ConversationsLoaded { chats, profiles, total_count, has_more } =>
            on_conversations_loaded(app, chats, profiles, total_count, has_more),
        Message::MessagesLoaded { peer_id, messages, profiles, total_count, has_more } =>
            on_messages_loaded(app, peer_id, messages, profiles, total_count, has_more),
        Message::MessageSent(id, cmid) => on_message_sent(app, id, cmid),
        Message::MessageEdited(id) => on_message_edited(app, id),
        Message::MessageDeleted(id) => on_message_deleted(app, id),
        Message::MessageDetailsFetched { message_id, cmid, text, is_edited, attachments, reply, fwd_count, forwards } =>
            on_message_details(app, message_id, cmid, text, is_edited, attachments, reply, fwd_count, forwards),
        Message::Error(e) => on_error(app, e),
        Message::SendFailed(e) => on_send_failed(app, e),
        Message::StartSearch => on_start_search(app),
        Message::ToggleHelp => on_help(app, true),
        Message::ClosePopup => on_help(app, false),
        Message::StartChatFilter => on_start_filter(app),
        Message::FilterChar(c) => on_filter_char(app, c),
        Message::FilterBackspace => on_filter_backspace(app),
        Message::ClearFilter => on_close_search(app, false),
        Message::StartGlobalSearch => on_start_global(app),
        Message::GlobalSearchChar(c) => on_global_char(app, c),
        Message::GlobalSearchBackspace => on_global_backspace(app),
        Message::ClearGlobalSearch => on_close_search(app, true),
        Message::GlobalSearchUp => on_global_move(app, true),
        Message::GlobalSearchDown => on_global_move(app, false),
        Message::GlobalSearchSelect => on_global_select(app),
        Message::SearchResultsLoaded { results, total_count } => on_results_loaded(app, results, total_count),
        Message::AuthUrlOpened(err) => on_auth_url_opened(app, err),
        Message::LinkOpened(url, err) => on_link_opened(app, url, err),
        Message::TokenSaved(res) => on_token_saved(app, res),
        Message::LoggedOut(res) => on_logged_out(app, res),
        Message::ClipboardImage(peer, res) => on_clipboard_image(app, peer, res, now),
        Message::PathsListed { base_path, prefix, entries } => on_paths_listed(app, base_path, prefix, entries),
    }
    None
}

/// Whether `update` can take `msg` in state `app` (see `update_ready`).
pub fn update_ready_check(app: &App, msg: &Message) -> (r: bool)
    ensures
        r == update_ready(*app, *msg),
{
    let cursors = app.token_cursor < usize::MAX && app.input_cursor < usize::MAX && app.command_cursor < usize::MAX
        && app.selected_chat < usize::MAX && app.messages_scroll < usize::MAX;
    let filter = match &app.chat_filter {
        Some(f) => f.cursor < usize::MAX,
        None => true,
    };
    let global = match &app.global_search {
        Some(g) => g.cursor < usize::MAX && g.selected < usize::MAX,
        None => true,
    };
    let fwd = match &app.forward {
        Some(f) => f.selected < usize::MAX,
        None => true,
    };
    let view = match &app.forward_view {
        Some(v) => v.selected < usize::MAX && crate::forwards::forwards_len_checked(v.items.as_slice()).is_some(),
        None => true,
    };
    let completion = match &app.completion_state {
        CompletionState::Inactive => true,
        CompletionState::Commands { suggestions, selected } => *selected < suggestions.len(),
        CompletionState::Subcommands { options, selected, .. } => *selected < options.len(),
        CompletionState::FilePaths { entries, selected, .. } => *selected < entries.len(),
    };
    let event = match msg {
        Message::VkEvent(VkEvent::NewMessage { peer_id, from_id, .. }) => {
            if app.current_peer_id == Some(*peer_id) {
                (app.users.contains_key(from_id) || *from_id != i64::MIN) && app.messages.len() < usize::MAX
            } else {
                crate::update_events::unread_room_check(&app.chats, *peer_id)
            }
        },
        Message::VkEvent(VkEvent::UserTyping { peer_id, user_id }) => {
            app.current_peer_id != Some(*peer_id) || app.users.contains_key(user_id) || *user_id != i64::MIN
        },
        _ => true,
    };
    cursors && filter && global && fwd && view && completion && event && app.messages.len() < usize::MAX
}


/// Through the update loop: typing a character and then pressing
/// backspace gives back the active field and its cursor (the token field on
/// the authorization screen, the message input when it is focused), for a
/// cursor within the text, and changes nothing else.
pub proof fn lemma_update_type_then_backspace(a: App, b: App, d: App, c: char, now: i64, later: i64)
    requires
        typing_target(a) == 1 ==> a.token_cursor <= a.token_input@.len() && a.token_cursor < usize::MAX,
        typing_target(a) == 2 ==> a.input_cursor <= a.input@.len() && a.input_cursor < usize::MAX,
        update_done(a, b, Message::InputChar(c), now),
        update_done(b, d, Message::InputBackspace, later),
    ensures
        d.token_input@ == a.token_input@ && d.token_cursor == a.token_cursor,
        d.input@ == a.input@ && d.input_cursor == a.input_cursor,
        d == (App { token_input: d.token_input, input: d.input, ..a }),
{
    lemma_type_then_backspace(a, b, d, c);
}

/// Through the update loop: a loaded page keeps message ids distinct, the
/// pagination (when there is one) counts the messages shown and stops
/// loading, and a page overlapping the messages shown keeps every one of
/// them and adds exactly its messages with ids not shown yet.
pub proof fn lemma_update_page_loaded(old: App, new: App, peer: i64, page: Vec<ChatMessage>, profiles: Vec<User>, total: u32, has_more: bool, now: i64)
    requires
        update_done(old, new, Message::MessagesLoaded { peer_id: peer, messages: page, profiles, total_count: total, has_more }, now),
        distinct_ids(old.messages@),
        distinct_ids(page@),
    ensures
        distinct_ids(new.messages@),
        old.messages_pagination is Some ==> (new.messages_pagination matches Some(p)
            && p.offset == new.messages@.len() as u32 && !p.is_loading),
        (old.messages_pagination is Some && old.messages@.len() > 0 && any_known(old.messages@, page@)) ==> {
            &&& new.messages@.len() == old.messages@.len() + fresh(old.messages@, page@).len()
            &&& forall|k: int| 0 <= k < old.messages@.len() ==> exists|j: int| 0 <= j < new.messages@.len() && #[trigger] new.messages@[j].id == (#[trigger] old.messages@[k]).id
        },
{
    lemma_page_loaded(old, new, peer, page@, profiles@, total, has_more);
}

} // verus!
