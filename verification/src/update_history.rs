//! Merging a loaded page of a chat's history into the messages shown: a
//! first page replaces them, older pages go in front, newer ones after,
//! and messages already shown are not repeated.

use vstd::prelude::*;
use crate::models::{Chat, ChatMessage};
use crate::api::User;
use crate::pagination::MessagesPagination;
use crate::app_state::App;
use crate::update_events::{message_pos, message_pos_from, find_message, find_chat, with_unread, read_marked, mark_read, with_profiles, add_profiles};

verus! {

broadcast use vstd::std_specs::hash::group_hash_axioms;

/// Some message of `incoming` has the id of a message already shown.
pub open spec fn any_known(shown: Seq<ChatMessage>, incoming: Seq<ChatMessage>) -> bool
    decreases incoming.len(),
{
    if incoming.len() == 0 {
        false
    } else {
        any_known(shown, incoming.drop_last()) || message_pos(shown, incoming.last().id) is Some
    }
}

/// The messages of `incoming` whose ids are not shown yet, in order.
pub open spec fn fresh(shown: Seq<ChatMessage>, incoming: Seq<ChatMessage>) -> Seq<ChatMessage>
    decreases incoming.len(),
{
    if incoming.len() == 0 {
        seq![]
    } else {
        let prev = fresh(shown, incoming.drop_last());
        if message_pos(shown, incoming.last().id) is Some { prev } else { prev.push(incoming.last()) }
    }
}

/// The greatest id of the messages, 0 for none.
pub open spec fn max_id(ms: Seq<ChatMessage>) -> i64
    decreases ms.len(),
{
    if ms.len() == 0 {
        0
    } else if ms.len() == 1 {
        ms[0].id
    } else {
        let a = max_id(ms.drop_last());
        if a >= ms.last().id { a } else { ms.last().id }
    }
}

/// `n - 1`, or 0 for `n == 0`.
pub open spec fn last_index(n: int) -> int {
    if n > 0 { n - 1 } else { 0 }
}

/// `a + b`, capped at `usize::MAX`.
pub open spec fn capped_sum(a: int, b: int) -> int {
    if a + b > usize::MAX { usize::MAX as int } else { a + b }
}

/// The messages shown after a page `incoming` arrived, and the highlighted
/// position: with pagination and messages already shown, an overlapping
/// page adds its new messages after (when it holds a newer id than any
/// shown) or before them, keeping the highlight on the same message; a
/// page without overlap replaces them at offset 0 and otherwise goes in
/// front. Everything else starts over at the newest message.
pub open spec fn merged_history(shown: Seq<ChatMessage>, incoming: Seq<ChatMessage>, scroll: usize, pagination: Option<MessagesPagination>) -> (Seq<ChatMessage>, int) {
    match pagination {
        Some(p) => if shown.len() > 0 {
            if any_known(shown, incoming) {
                let f = fresh(shown, incoming);
                if max_id(incoming) > max_id(shown) {
                    (shown + f, scroll as int)
                } else {
                    (f + shown, capped_sum(scroll as int, f.len() as int))
                }
            } else if p.offset == 0 {
                (incoming, last_index(incoming.len() as int))
            } else {
                (incoming + shown, capped_sum(scroll as int, incoming.len() as int))
            }
        } else {
            (incoming, last_index(incoming.len() as int))
        },
        None => (incoming, last_index(incoming.len() as int)),
    }
}

/// The pagination after the merge produced `list`.
pub open spec fn paged(p: MessagesPagination, list: Seq<ChatMessage>, total: u32, has_more: bool) -> MessagesPagination {
    MessagesPagination {
        offset: list.len() as u32,
        total_count: Some(total),
        has_more,
        is_loading: false,
        first_cmid: if list.len() > 0 { list[0].cmid } else { p.first_cmid },
        last_cmid: if list.len() > 0 { list.last().cmid } else { p.last_cmid },
        ..p
    }
}

/// A loaded page of chat `peer`: merged as `merged_history` says; the
/// pagination follows; in the open chat the chat's unread counter is reset
/// and incoming messages marked read; the profiles are cached; a pending
/// target message, once present, is highlighted.
pub open spec fn messages_loaded_done(old: App, new: App, peer: i64, incoming: Seq<ChatMessage>, profiles: Seq<User>, total: u32, has_more: bool) -> bool {
    let (list, scroll) = merged_history(old.messages@, incoming, old.messages_scroll, old.messages_pagination);
    let open = old.current_peer_id == Some(peer);
    &&& new == (App {
        is_loading: false,
        messages: new.messages,
        messages_scroll: new.messages_scroll,
        messages_pagination: match old.messages_pagination {
            Some(p) => Some(paged(p, list, total, has_more)),
            None => None,
        },
        chats: new.chats,
        users: new.users,
        target_message_id: new.target_message_id,
        ..old
    })
    &&& new.messages@.len() == list.len()
    &&& forall|k: int| 0 <= k < list.len() ==> #[trigger] new.messages@[k] == if open { read_marked(list[k], false, None) } else { list[k] }
    &&& new.chats@ == if open { with_unread(old.chats@, peer, 0) } else { old.chats@ }
    &&& new.users@ == with_profiles(old.users@, profiles)
    &&& match old.target_message_id {
        Some(t) => match message_pos(list, t) {
            Some(pos) => new.messages_scroll == pos && new.target_message_id is None,
            None => new.messages_scroll == scroll && new.target_message_id == old.target_message_id,
        },
        None => new.messages_scroll == scroll && new.target_message_id is None,
    }
}

/// Whether some incoming message is already shown.
fn any_known_exec(shown: &Vec<ChatMessage>, incoming: &Vec<ChatMessage>) -> (r: bool)
    ensures
        r == any_known(shown@, incoming@),
{
    let n = incoming.len();
    let mut i: usize = 0;
    while i < n
        invariant
            n == incoming@.len(),
            i <= n,
            !any_known(shown@, incoming@.take(i as int)),
        decreases n - i,
    {
        assert(incoming@.take(i + 1).drop_last() == incoming@.take(i as int));
        assert(incoming@.take(i + 1).last() == incoming@[i as int]);
        if find_message(shown, incoming[i].id).is_some() {
            proof {
                lemma_known_prefix(shown@, incoming@, i as int + 1);
            }
            return true;
        }
        i = i + 1;
    }
    assert(incoming@.take(n as int) == incoming@);
    false
}

proof fn lemma_known_prefix(shown: Seq<ChatMessage>, incoming: Seq<ChatMessage>, k: int)
    requires
        0 <= k <= incoming.len(),
        any_known(shown, incoming.take(k)),
    ensures
        any_known(shown, incoming),
    decreases incoming.len() - k,
{
    if k < incoming.len() {
        assert(incoming.take(k + 1).drop_last() == incoming.take(k));
        lemma_known_prefix(shown, incoming, k + 1);
    } else {
        assert(incoming.take(k) == incoming);
    }
}

/// The greatest id, 0 for no messages.
fn max_id_exec(ms: &Vec<ChatMessage>) -> (r: i64)
    ensures
        r == max_id(ms@),
{
    let n = ms.len();
    if n == 0 {
        return 0;
    }
    let mut best = ms[0].id;
    let mut i: usize = 1;
    assert(ms@.take(1) =~= seq![ms@[0]]);
    while i < n
        invariant
            n == ms@.len(),
            1 <= i <= n,
            best == max_id(ms@.take(i as int)),
        decreases n - i,
    {
        assert(ms@.take(i + 1).drop_last() == ms@.take(i as int));
        assert(ms@.take(i + 1).last() == ms@[i as int]);
        if ms[i].id > best {
            best = ms[i].id;
        }
        i = i + 1;
    }
    assert(ms@.take(n as int) == ms@);
    best
}

/// The incoming messages not shown yet, in order.
fn keep_fresh(shown: &Vec<ChatMessage>, incoming: Vec<ChatMessage>) -> (r: Vec<ChatMessage>)
    ensures
        r@ == fresh(shown@, incoming@),
{
    let ghost orig = incoming@;
    let n = incoming.len();
    let mut rest = incoming;
    let mut rev: Vec<ChatMessage> = Vec::new();
    while rest.len() > 0
        invariant
            n == orig.len(),
            rest@ == orig.take(rest@.len() as int),
            rest@.len() <= n,
            rev@.len() == n - rest@.len(),
            forall|k: int| 0 <= k < rev@.len() ==> #[trigger] rev@[k] == orig[n - 1 - k],
        decreases rest@.len(),
    {
        let m = rest.pop().unwrap();
        rev.push(m);
        assert(rest@ =~= orig.take(rest@.len() as int));
    }
    let mut out: Vec<ChatMessage> = Vec::new();
    while rev.len() > 0
        invariant
            n == orig.len(),
            rev@.len() <= n,
            forall|k: int| 0 <= k < rev@.len() ==> #[trigger] rev@[k] == orig[n - 1 - k],
            out@ == fresh(shown@, orig.take(n - rev@.len())),
        decreases rev@.len(),
    {
        let ghost done = n - rev@.len();
        let m = rev.pop().unwrap();
        assert(m == orig[done]);
        assert(orig.take(done + 1).drop_last() == orig.take(done));
        assert(orig.take(done + 1).last() == orig[done]);
        if find_message(shown, m.id).is_none() {
            out.push(m);
        }
    }
    assert(orig.take(n as int) == orig);
    out
}

/// Merges a page into the messages shown, as `merged_history` says.
fn merge_page(shown: &mut Vec<ChatMessage>, scroll: &mut usize, incoming: Vec<ChatMessage>, pagination: Option<MessagesPagination>)
    ensures
        (final(shown)@, *final(scroll) as int) == merged_history(old(shown)@, incoming@, *old(scroll), pagination),
{
    let mut incoming = incoming;
    match pagination {
        Some(p) => {
            if shown.len() > 0 {
                if any_known_exec(shown, &incoming) {
                    let max_old = max_id_exec(shown);
                    let max_new = max_id_exec(&incoming);
                    let mut f = keep_fresh(shown, incoming);
                    if max_new > max_old {
                        shown.append(&mut f);
                    } else {
                        let count = f.len();
                        f.append(shown);
                        std::mem::swap(shown, &mut f);
                        *scroll = scroll.saturating_add(count);
                    }
                } else if p.offset == 0 {
                    *shown = incoming;
                    *scroll = shown.len().saturating_sub(1);
                } else {
                    let count = incoming.len();
                    incoming.append(shown);
                    *shown = incoming;
                    *scroll = scroll.saturating_add(count);
                }
            } else {
                *shown = incoming;
                *scroll = shown.len().saturating_sub(1);
            }
        },
        None => {
            *shown = incoming;
            *scroll = shown.len().saturating_sub(1);
        },
    }
}

/// The pagination after the merge produced `list`.
fn update_paging(p: MessagesPagination, list: &Vec<ChatMessage>, total_count: u32, has_more: bool) -> (r: MessagesPagination)
    ensures
        r == paged(p, list@, total_count, has_more),
{
    let mut q = p;
    q.offset = list.len() as u32;
    q.total_count = Some(total_count);
    q.has_more = has_more;
    q.is_loading = false;
    let n = list.len();
    if n > 0 {
        q.first_cmid = list[0].cmid;
        q.last_cmid = list[n - 1].cmid;
    }
    q
}

/// Handles a loaded page of chat `peer_id`'s history.
pub fn on_messages_loaded(app: &mut App, peer_id: i64, messages: Vec<ChatMessage>, profiles: Vec<User>, total_count: u32, has_more: bool)
    ensures
        messages_loaded_done(*old(app), *final(app), peer_id, messages@, profiles@, total_count, has_more),
{
    app.is_loading = false;
    merge_page(&mut app.messages, &mut app.messages_scroll, messages, app.messages_pagination);
    match app.messages_pagination {
        Some(p) => {
            app.messages_pagination = Some(update_paging(p, &app.messages, total_count, has_more));
        },
        None => {},
    }
    let ghost list = app.messages@;
    if app.current_peer_id == Some(peer_id) {
        match find_chat(&app.chats, peer_id) {
            Some(c) => {
                let mut chat = app.chats.remove(c);
                chat.unread_count = 0;
                app.chats.insert(c, chat);
                assert(app.chats@ =~= with_unread(old(app).chats@, peer_id, 0));
            },
            None => {},
        }
        mark_read(&mut app.messages, false, None);
    }
    add_profiles(&mut app.users, &profiles);
    match app.target_message_id {
        Some(t) => {
            proof {
                lemma_pos_same_ids(list, app.messages@, t, 0);
            }
            match find_message(&app.messages, t) {
                Some(pos) => {
                    app.messages_scroll = pos;
                    app.target_message_id = None;
                },
                None => {},
            }
        },
        None => {},
    }
}

/// Marking messages read keeps their ids, so positions found by id agree.
proof fn lemma_pos_same_ids(a: Seq<ChatMessage>, b: Seq<ChatMessage>, id: i64, i: int)
    requires
        a.len() == b.len(),
        forall|k: int| 0 <= k < a.len() ==> #[trigger] a[k].id == b[k].id,
    ensures
        crate::update_events::message_pos_from(a, id, i) == crate::update_events::message_pos_from(b, id, i),
    decreases a.len() - i,
{
    if 0 <= i < a.len() {
        lemma_pos_same_ids(a, b, id, i + 1);
    }
}


proof fn lemma_fresh(shown: Seq<ChatMessage>, incoming: Seq<ChatMessage>)
    ensures
        fresh(shown, incoming).len() <= incoming.len(),
        forall|k: int| 0 <= k < fresh(shown, incoming).len() ==> message_pos(shown, #[trigger] fresh(shown, incoming)[k].id) is None,
        forall|j: int| 0 <= j < incoming.len() ==> message_pos(shown, #[trigger] incoming[j].id) is Some || fresh(shown, incoming).contains(incoming[j]),
    decreases incoming.len(),
{
    if incoming.len() > 0 {
        let prev = incoming.drop_last();
        lemma_fresh(shown, prev);
        let f = fresh(shown, incoming);
        let fp = fresh(shown, prev);
        assert forall|j: int| 0 <= j < incoming.len() implies message_pos(shown, #[trigger] incoming[j].id) is Some || f.contains(incoming[j]) by {
            if j < incoming.len() - 1 {
                assert(incoming[j] == prev[j]);
                if fp.contains(prev[j]) {
                    let w = choose|w: int| 0 <= w < fp.len() && fp[w] == prev[j];
                    assert(f[w] == fp[w]);
                }
            } else if message_pos(shown, incoming.last().id) is None {
                assert(f[f.len() - 1] == incoming[j]);
            }
        }
    }
}

/// A page that overlaps the messages shown keeps them all, in order, with
/// the highlight on the same message; what it adds are exactly the messages
/// of the page whose ids are not shown yet, so nothing shown is repeated and
/// every message of the page ends up shown.
pub proof fn lemma_overlapping_page(shown: Seq<ChatMessage>, incoming: Seq<ChatMessage>, scroll: usize, p: MessagesPagination)
    requires
        shown.len() > 0,
        any_known(shown, incoming),
        scroll < shown.len(),
        shown.len() + incoming.len() <= usize::MAX,
    ensures
        ({
            let (list, pos) = merged_history(shown, incoming, scroll, Some(p));
            let added = fresh(shown, incoming);
            &&& (list == shown + added && pos == scroll) || (list == added + shown && pos == added.len() + scroll)
            &&& forall|k: int| 0 <= k < added.len() ==> message_pos(shown, #[trigger] added[k].id) is None
            &&& forall|j: int| 0 <= j < incoming.len() ==> message_pos(shown, #[trigger] incoming[j].id) is Some || added.contains(incoming[j])
        }),
{
    lemma_fresh(shown, incoming);
}


/// No two messages share an id.
pub open spec fn distinct_ids(ms: Seq<ChatMessage>) -> bool {
    forall|i: int, j: int| 0 <= i < j < ms.len() ==> ms[i].id != ms[j].id
}

proof fn lemma_pos_none(ms: Seq<ChatMessage>, id: i64, i: int)
    requires
        0 <= i,
        message_pos_from(ms, id, i) is None,
    ensures
        forall|k: int| i <= k < ms.len() ==> ms[k].id != id,
    decreases ms.len() - i,
{
    if i < ms.len() {
        lemma_pos_none(ms, id, i + 1);
    }
}

proof fn lemma_not_known(shown: Seq<ChatMessage>, incoming: Seq<ChatMessage>)
    requires
        !any_known(shown, incoming),
    ensures
        forall|j: int, k: int| 0 <= j < incoming.len() && 0 <= k < shown.len() ==> incoming[j].id != shown[k].id,
    decreases incoming.len(),
{
    if incoming.len() > 0 {
        lemma_not_known(shown, incoming.drop_last());
        lemma_pos_none(shown, incoming.last().id, 0);
        assert forall|j: int, k: int| 0 <= j < incoming.len() && 0 <= k < shown.len() implies incoming[j].id != shown[k].id by {
            if j < incoming.len() - 1 {
                assert(incoming[j] == incoming.drop_last()[j]);
            }
        }
    }
}

proof fn lemma_fresh_distinct(shown: Seq<ChatMessage>, incoming: Seq<ChatMessage>)
    requires
        distinct_ids(incoming),
    ensures
        distinct_ids(fresh(shown, incoming)),
        forall|k: int| 0 <= k < fresh(shown, incoming).len() ==> incoming.contains(#[trigger] fresh(shown, incoming)[k]),
        forall|k: int, k2: int| 0 <= k < fresh(shown, incoming).len() && 0 <= k2 < shown.len() ==> fresh(shown, incoming)[k].id != shown[k2].id,
    decreases incoming.len(),
{
    lemma_fresh(shown, incoming);
    if incoming.len() > 0 {
        let prev = incoming.drop_last();
        assert(distinct_ids(prev));
        lemma_fresh_distinct(shown, prev);
        let f = fresh(shown, incoming);
        let fp = fresh(shown, prev);
        assert forall|k: int| 0 <= k < f.len() implies incoming.contains(#[trigger] f[k]) by {
            if k < fp.len() {
                assert(f[k] == fp[k]);
                let w = choose|w: int| 0 <= w < prev.len() && prev[w] == fp[k];
                assert(incoming[w] == prev[w]);
            } else {
                assert(f[k] == incoming[incoming.len() - 1]);
            }
        }
        assert forall|i: int, j: int| 0 <= i < j < f.len() implies f[i].id != f[j].id by {
            if j >= fp.len() {
                assert(f[j] == incoming.last());
                assert(f[i] == fp[i]);
                let w = choose|w: int| 0 <= w < prev.len() && prev[w] == fp[i];
                assert(incoming[w] == prev[w]);
                assert(w < incoming.len() - 1);
            } else {
                assert(f[i] == fp[i] && f[j] == fp[j]);
            }
        }
        assert forall|k: int, k2: int| 0 <= k < f.len() && 0 <= k2 < shown.len() implies f[k].id != shown[k2].id by {
            lemma_pos_none(shown, f[k].id, 0);
        }
    }
}

/// Merging a page keeps message ids distinct: when the messages shown and
/// the page each have distinct ids, so does the merged list.
pub proof fn lemma_merge_distinct(shown: Seq<ChatMessage>, incoming: Seq<ChatMessage>, scroll: usize, pagination: Option<MessagesPagination>)
    requires
        distinct_ids(shown),
        distinct_ids(incoming),
    ensures
        distinct_ids(merged_history(shown, incoming, scroll, pagination).0),
{
    let list = merged_history(shown, incoming, scroll, pagination).0;
    match pagination {
        Some(p) => if shown.len() > 0 {
            if any_known(shown, incoming) {
                lemma_fresh_distinct(shown, incoming);
                let f = fresh(shown, incoming);
                assert forall|i: int, j: int| 0 <= i < j < list.len() implies list[i].id != list[j].id by {
                    if max_id(incoming) > max_id(shown) {
                        if j >= shown.len() && i < shown.len() {
                            assert(list[j] == f[j - shown.len()]);
                            assert(list[i] == shown[i]);
                        } else if i >= shown.len() {
                            assert(list[j] == f[j - shown.len()]);
                            assert(list[i] == f[i - shown.len()]);
                        } else {
                            assert(list[j] == shown[j]);
                            assert(list[i] == shown[i]);
                        }
                    } else {
                        if j >= f.len() && i < f.len() {
                            assert(list[j] == shown[j - f.len()]);
                            assert(list[i] == f[i]);
                        } else if i >= f.len() {
                            assert(list[j] == shown[j - f.len()]);
                            assert(list[i] == shown[i - f.len()]);
                        } else {
                            assert(list[j] == f[j]);
                            assert(list[i] == f[i]);
                        }
                    }
                }
            } else if p.offset != 0 {
                lemma_not_known(shown, incoming);
                assert forall|i: int, j: int| 0 <= i < j < list.len() implies list[i].id != list[j].id by {
                    if j >= incoming.len() && i < incoming.len() {
                        assert(list[j] == shown[j - incoming.len()]);
                        assert(list[i] == incoming[i]);
                    } else if i >= incoming.len() {
                        assert(list[j] == shown[j - incoming.len()]);
                        assert(list[i] == shown[i - incoming.len()]);
                    } else {
                        assert(list[j] == incoming[j]);
                        assert(list[i] == incoming[i]);
                    }
                }
            }
        },
        None => {},
    }
}

/// A loaded page as the update loop takes it: message ids stay distinct;
/// the pagination counts the messages now shown and is no longer loading;
/// and a page that overlaps the messages shown keeps every one of them and
/// adds exactly the page's messages whose ids were not shown.
pub proof fn lemma_page_loaded(old: App, new: App, peer: i64, incoming: Seq<ChatMessage>, profiles: Seq<User>, total: u32, has_more: bool)
    requires
        messages_loaded_done(old, new, peer, incoming, profiles, total, has_more),
        distinct_ids(old.messages@),
        distinct_ids(incoming),
    ensures
        distinct_ids(new.messages@),
        old.messages_pagination is Some ==> (new.messages_pagination matches Some(p)
            && p.offset == new.messages@.len() as u32 && !p.is_loading),
        (old.messages_pagination is Some && old.messages@.len() > 0 && any_known(old.messages@, incoming)) ==> {
            &&& new.messages@.len() == old.messages@.len() + fresh(old.messages@, incoming).len()
            &&& forall|k: int| 0 <= k < old.messages@.len() ==> exists|j: int| 0 <= j < new.messages@.len() && #[trigger] new.messages@[j].id == (#[trigger] old.messages@[k]).id
        },
{
    let (list, scroll) = merged_history(old.messages@, incoming, old.messages_scroll, old.messages_pagination);
    lemma_merge_distinct(old.messages@, incoming, old.messages_scroll, old.messages_pagination);
    let open = old.current_peer_id == Some(peer);
    assert forall|k: int| 0 <= k < list.len() implies #[trigger] new.messages@[k].id == list[k].id by {
        assert(new.messages@[k] == if open { read_marked(list[k], false, None) } else { list[k] });
    }
    assert forall|i: int, j: int| 0 <= i < j < new.messages@.len() implies new.messages@[i].id != new.messages@[j].id by {
        assert(new.messages@[i].id == list[i].id);
        assert(new.messages@[j].id == list[j].id);
    }
    if old.messages_pagination is Some && old.messages@.len() > 0 && any_known(old.messages@, incoming) {
        let shown = old.messages@;
        let f = fresh(shown, incoming);
        assert forall|k: int| 0 <= k < shown.len() implies exists|j: int| 0 <= j < new.messages@.len() && #[trigger] new.messages@[j].id == (#[trigger] shown[k]).id by {
            if max_id(incoming) > max_id(shown) {
                assert(list[k] == shown[k]);
                assert(new.messages@[k].id == list[k].id);
            } else {
                assert(list[f.len() + k] == shown[k]);
                assert(new.messages@[f.len() + k].id == list[f.len() + k].id);
            }
        }
    }
}

} // verus!
