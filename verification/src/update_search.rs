//! Update-loop transitions for the chat-list filter and the global message
//! search.

use vstd::prelude::*;
use crate::text::{chars_of, string_of, push_str, push_u64_digits, push_i64, decimal, lowercase};
use crate::input::{insert_char_at, remove_char_at, inserted, removed};
use crate::models::SearchResult;
use crate::search::{filter_chats, filter_chats_guarded, is_ranking};
use crate::pagination::MessagesPagination;
use crate::app_state::{App, Screen, Focus, AsyncAction, ChatFilter, GlobalSearch, status_is, set_status};
use crate::update_command::status_only;

verus! {

broadcast use vstd::string::group_string_axioms;

/// Starting the chat filter on the chat list: every chat is listed and the
/// first is selected.
pub open spec fn start_filter_done(old: App, new: App) -> bool {
    if old.screen == Screen::Main && old.focus == Focus::ChatList {
        &&& new == (App { chat_filter: new.chat_filter, selected_chat: 0, status: new.status, ..old })
        &&& new.chat_filter matches Some(f)
        &&& f.query@.len() == 0 && f.cursor == 0
        &&& f.filtered_indices@ == Seq::new(old.chats@.len(), |i: int| i as usize)
        &&& status_is(new, "Filter: (type to search, Esc to cancel)"@)
    } else {
        new == old
    }
}

/// Opens the chat filter.
pub fn on_start_filter(app: &mut App)
    ensures
        start_filter_done(*old(app), *final(app)),
{
    if app.screen == Screen::Main && app.focus == Focus::ChatList {
        let mut filter = ChatFilter::new();
        let empty = String::new();
        filter.filtered_indices = filter_chats(app.chats.as_slice(), empty.as_str());
        app.chat_filter = Some(filter);
        app.selected_chat = 0;
        set_status(app, "Filter: (type to search, Esc to cancel)");
    }
}

/// The filter's status line.
pub open spec fn filter_status(query: Seq<char>, matches: int) -> Seq<char> {
    "Filter: "@ + query + " ("@ + decimal(matches) + " matches)"@
}

/// The filter query became `q` with the cursor at `cursor`: the matches are
/// ranked anew (kept as they were when the lowered query is too long to be
/// scored) and the first is selected.
pub open spec fn filter_edited(old: App, new: App, f: ChatFilter, q: Seq<char>, cursor: usize) -> bool {
    &&& new == (App { chat_filter: new.chat_filter, selected_chat: 0, status: new.status, ..old })
    &&& new.chat_filter matches Some(g)
    &&& g.query@ == q && g.cursor == cursor
    &&& if 26 * lowercase(q).len() <= i32::MAX {
        is_ranking(old.chats@, q, g.filtered_indices@)
    } else {
        g.filtered_indices == f.filtered_indices
    }
    &&& status_is(new, filter_status(q, g.filtered_indices@.len() as int))
}

/// Typing into the filter.
pub open spec fn filter_char_done(old: App, new: App, c: char) -> bool {
    match old.chat_filter {
        Some(f) => filter_edited(old, new, f, if f.cursor <= f.query@.len() {
            inserted(f.query@, f.cursor as int, c)
        } else {
            f.query@.push(c)
        }, (f.cursor + 1) as usize),
        None => new == old,
    }
}

/// Backspace in the filter.
pub open spec fn filter_backspace_done(old: App, new: App) -> bool {
    match old.chat_filter {
        Some(f) => if f.cursor > 0 {
            filter_edited(old, new, f, if f.cursor - 1 < f.query@.len() {
                removed(f.query@, f.cursor - 1)
            } else {
                f.query@
            }, (f.cursor - 1) as usize)
        } else {
            new == old
        },
        None => new == old,
    }
}

/// Re-ranks the chats for the filter's query and shows the count.
fn refilter(app: &mut App, mut f: ChatFilter)
    ensures
        *final(app) == (App { chat_filter: final(app).chat_filter, selected_chat: 0, status: final(app).status, ..*old(app) }),
        final(app).chat_filter matches Some(g) && g.query == f.query && g.cursor == f.cursor
            && (if 26 * lowercase(f.query@).len() <= i32::MAX {
                is_ranking(old(app).chats@, f.query@, g.filtered_indices@)
            } else {
                g.filtered_indices == f.filtered_indices
            })
            && status_is(*final(app), filter_status(f.query@, g.filtered_indices@.len() as int)),
{
    match filter_chats_guarded(app.chats.as_slice(), f.query.as_str()) {
        Some(v) => {
            f.filtered_indices = v;
        },
        None => {},
    }
    app.selected_chat = 0;
    let mut text = string_of("Filter: ");
    push_str(&mut text, f.query.as_str());
    push_str(&mut text, " (");
    push_u64_digits(&mut text, f.filtered_indices.len() as u64);
    push_str(&mut text, " matches)");
    app.status = Some(text);
    app.chat_filter = Some(f);
}

/// Types into the filter.
pub fn on_filter_char(app: &mut App, c: char)
    requires
        old(app).chat_filter matches Some(f) ==> f.cursor < usize::MAX,
    ensures
        filter_char_done(*old(app), *final(app), c),
{
    match app.chat_filter.take() {
        Some(mut f) => {
            insert_char_at(&mut f.query, f.cursor, c);
            f.cursor = f.cursor + 1;
            refilter(app, f);
        },
        None => {},
    }
}

/// Backspace in the filter.
pub fn on_filter_backspace(app: &mut App)
    ensures
        filter_backspace_done(*old(app), *final(app)),
{
    match app.chat_filter.take() {
        Some(mut f) => {
            if f.cursor > 0 {
                f.cursor = f.cursor - 1;
                remove_char_at(&mut f.query, f.cursor);
                refilter(app, f);
            } else {
                app.chat_filter = Some(f);
            }
        },
        None => {},
    }
}

/// Closing a popup search (the filter or the global search) clears the status.
pub open spec fn search_closed(old: App, new: App, global: bool) -> bool {
    if global {
        new == (App { global_search: None, status: None, ..old })
    } else {
        new == (App { chat_filter: None, status: None, ..old })
    }
}

/// Closes the filter (`global` false) or the global search.
pub fn on_close_search(app: &mut App, global: bool)
    ensures
        search_closed(*old(app), *final(app), global),
{
    if global {
        app.global_search = None;
    } else {
        app.chat_filter = None;
    }
    app.status = None;
}

/// Starting a global search.
pub open spec fn start_global_done(old: App, new: App) -> bool {
    &&& new == (App { global_search: new.global_search, status: new.status, ..old })
    &&& new.global_search matches Some(g)
    &&& g.query@.len() == 0 && g.cursor == 0 && g.results@.len() == 0 && g.selected == 0 && !g.is_loading && g.total_count == 0
    &&& status_is(new, "Global search: (type to search, Esc to cancel)"@)
}

/// Opens the global search.
pub fn on_start_global(app: &mut App)
    ensures
        start_global_done(*old(app), *final(app)),
{
    app.global_search = Some(GlobalSearch::new());
    set_status(app, "Global search: (type to search, Esc to cancel)");
}

/// The query of the global search became `q` (cursor `cursor`): the search
/// runs again.
pub open spec fn global_searching(old: App, new: App, g: GlobalSearch, q: Seq<char>, cursor: usize) -> bool {
    &&& new == (App { global_search: new.global_search, status: new.status, actions: new.actions, ..old })
    &&& new.global_search matches Some(h)
    &&& h == (GlobalSearch { query: h.query, cursor, is_loading: true, ..g })
    &&& h.query@ == q
    &&& new.actions@.len() == old.actions@.len() + 1
    &&& new.actions@.drop_last() =~= old.actions@
    &&& new.actions@.last() matches AsyncAction::SearchMessages(s) && s@ == q
    &&& status_is(new, "Searching: "@ + q)
}

/// Typing into the global search.
pub open spec fn global_char_done(old: App, new: App, c: char) -> bool {
    match old.global_search {
        Some(g) => global_searching(old, new, g, if g.cursor <= g.query@.len() {
            inserted(g.query@, g.cursor as int, c)
        } else {
            g.query@.push(c)
        }, (g.cursor + 1) as usize),
        None => new == old,
    }
}

fn run_search(app: &mut App, mut g: GlobalSearch)
    ensures
        global_searching(*old(app), *final(app), g, g.query@, g.cursor),
{
    g.is_loading = true;
    let query = g.query.clone();
    let mut text = string_of("Searching: ");
    push_str(&mut text, g.query.as_str());
    app.global_search = Some(g);
    app.send_action(AsyncAction::SearchMessages(query));
    app.status = Some(text);
}

/// Types into the global search.
pub fn on_global_char(app: &mut App, c: char)
    requires
        old(app).global_search matches Some(g) ==> g.cursor < usize::MAX,
    ensures
        global_char_done(*old(app), *final(app), c),
{
    match app.global_search.take() {
        Some(mut g) => {
            insert_char_at(&mut g.query, g.cursor, c);
            g.cursor = g.cursor + 1;
            run_search(app, g);
        },
        None => {},
    }
}

/// Backspace in the global search: an emptied query drops the results.
pub open spec fn global_backspace_done(old: App, new: App) -> bool {
    match old.global_search {
        Some(g) => if g.cursor > 0 {
            let q = if g.cursor - 1 < g.query@.len() { removed(g.query@, g.cursor - 1) } else { g.query@ };
            if q.len() == 0 {
                &&& new == (App { global_search: new.global_search, status: new.status, ..old })
                &&& new.global_search matches Some(h)
                &&& h == (GlobalSearch { query: h.query, cursor: (g.cursor - 1) as usize, results: h.results, total_count: 0, selected: 0, ..g })
                &&& h.query@.len() == 0 && h.results@.len() == 0
                &&& status_is(new, "Global search: (type to search, Esc to cancel)"@)
            } else {
                global_searching(old, new, g, q, (g.cursor - 1) as usize)
            }
        } else {
            new == old
        },
        None => new == old,
    }
}

/// Backspace in the global search.
pub fn on_global_backspace(app: &mut App)
    ensures
        global_backspace_done(*old(app), *final(app)),
{
    match app.global_search.take() {
        Some(mut g) => {
            if g.cursor > 0 {
                g.cursor = g.cursor - 1;
                remove_char_at(&mut g.query, g.cursor);
                if chars_of(g.query.as_str()).len() == 0 {
                    g.results = Vec::new();
                    g.total_count = 0;
                    g.selected = 0;
                    app.global_search = Some(g);
                    set_status(app, "Global search: (type to search, Esc to cancel)");
                } else {
                    run_search(app, g);
                }
            } else {
                app.global_search = Some(g);
            }
        },
        None => {},
    }
}

/// Moving the selected search result (up stops at the first, down at the last).
pub open spec fn global_move_done(old: App, new: App, up: bool) -> bool {
    match old.global_search {
        Some(g) => {
            let sel = if up {
                if g.selected > 0 { (g.selected - 1) as usize } else { 0 }
            } else if g.selected + 1 < g.results@.len() {
                (g.selected + 1) as usize
            } else {
                g.selected
            };
            new == (App { global_search: Some(GlobalSearch { selected: sel, ..g }), ..old })
        },
        None => new == old,
    }
}

/// Moves the selected search result.
pub fn on_global_move(app: &mut App, up: bool)
    ensures
        global_move_done(*old(app), *final(app), up),
{
    match app.global_search.take() {
        Some(mut g) => {
            if up {
                if g.selected > 0 {
                    g.selected = g.selected - 1;
                }
            } else if g.selected < g.results.len() && g.selected + 1 < g.results.len() {
                g.selected = g.selected + 1;
            }
            app.global_search = Some(g);
        },
        None => {},
    }
}

/// Opening the selected search result: the search closes and its chat opens
/// around the found message, which is highlighted once loaded.
pub open spec fn global_select_done(old: App, new: App) -> bool {
    match old.global_search {
        Some(g) => if g.selected < g.results@.len() {
            let r = g.results@[g.selected as int];
            &&& new == (App {
                global_search: None,
                current_peer_id: Some(r.peer_id),
                messages: new.messages,
                target_message_id: Some(r.message_id),
                is_loading: true,
                messages_pagination: Some(MessagesPagination {
                    peer_id: r.peer_id,
                    offset: 0,
                    total_count: None,
                    is_loading: true,
                    has_more: true,
                    first_cmid: None,
                    last_cmid: None,
                }),
                actions: new.actions,
                status: new.status,
                focus: Focus::Messages,
                ..old
            })
            &&& new.messages@.len() == 0
            &&& new.actions@ == old.actions@ + seq![AsyncAction::LoadMessagesAround(r.peer_id, r.message_id), AsyncAction::MarkAsRead(r.peer_id)]
            &&& status_is(new, "Loading chat..."@)
        } else {
            new == old
        },
        None => new == old,
    }
}

/// Opens the selected search result.
pub fn on_global_select(app: &mut App)
    ensures
        global_select_done(*old(app), *final(app)),
{
    let picked = match &app.global_search {
        Some(g) => if g.selected < g.results.len() {
            Some((g.results[g.selected].peer_id, g.results[g.selected].message_id))
        } else {
            None
        },
        None => None,
    };
    match picked {
        Some((peer_id, message_id)) => {
            app.global_search = None;
            app.current_peer_id = Some(peer_id);
            app.messages = Vec::new();
            app.target_message_id = Some(message_id);
            app.is_loading = true;
            let mut pagination = MessagesPagination::new(peer_id);
            pagination.is_loading = true;
            app.messages_pagination = Some(pagination);
            let ghost before = app.actions@;
            app.send_action(AsyncAction::LoadMessagesAround(peer_id, message_id));
            app.send_action(AsyncAction::MarkAsRead(peer_id));
            assert(app.actions@ =~= before + seq![AsyncAction::LoadMessagesAround(peer_id, message_id), AsyncAction::MarkAsRead(peer_id)]);
            set_status(app, "Loading chat...");
            app.focus = Focus::Messages;
        },
        None => {},
    }
}

/// Search results arrived for the open global search.
pub open spec fn results_loaded_done(old: App, new: App, results: Seq<SearchResult>, total: i32) -> bool {
    match old.global_search {
        Some(g) => {
            &&& new == (App { global_search: new.global_search, status: new.status, ..old })
            &&& new.global_search matches Some(h)
            &&& h == (GlobalSearch { results: h.results, total_count: total, selected: 0, is_loading: false, ..g })
            &&& h.results@ == results
            &&& status_is(new, "Found "@ + decimal(total as int) + " results for '"@ + g.query@ + "'"@)
        },
        None => new == old,
    }
}

/// Shows loaded search results.
pub fn on_results_loaded(app: &mut App, results: Vec<SearchResult>, total_count: i32)
    ensures
        results_loaded_done(*old(app), *final(app), results@, total_count),
{
    match app.global_search.take() {
        Some(mut g) => {
            g.results = results;
            g.total_count = total_count;
            g.selected = 0;
            g.is_loading = false;
            let mut text = string_of("Found ");
            push_i64(&mut text, total_count as i64);
            push_str(&mut text, " results for '");
            push_str(&mut text, g.query.as_str());
            push_str(&mut text, "'");
            app.global_search = Some(g);
            app.status = Some(text);
        },
        None => {},
    }
}

/// The search shortcut on the main screen.
pub open spec fn start_search_done(old: App, new: App) -> bool {
    if old.screen == Screen::Main {
        status_only(old, new, "Search not yet implemented"@)
    } else {
        new == old
    }
}

/// The search shortcut.
pub fn on_start_search(app: &mut App)
    ensures
        start_search_done(*old(app), *final(app)),
{
    if app.screen == Screen::Main {
        set_status(app, "Search not yet implemented");
    }
}

} // verus!
