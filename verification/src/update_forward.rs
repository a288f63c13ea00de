//! Update-loop transitions for forwarding a message: picking the target
//! chat, writing a comment and sending.

use vstd::prelude::*;
use crate::text::{chars_of, string_of, push_str, push_char, trim, lowercase};
use crate::input::{delete_word, remove_char_at};
use crate::models::{Chat, ChatMessage};
use crate::format::{forward_filter, matching_targets};
use crate::app_state::{App, AsyncAction, ForwardStage, ForwardState, status_is, set_status};
use crate::update_command::status_only;
use crate::update_input::{is_placeholder, placeholder, word_deleted};
use crate::update_message::{acting_on_message, highlighted};

verus! {

broadcast use vstd::string::group_string_axioms;

/// The chats offered for a typed query: all of them for a blank query,
/// else those whose title (case-insensitively) or id contains it.
pub open spec fn forward_targets(chats: Seq<Chat>, query: Seq<char>) -> Seq<Chat> {
    let q = lowercase(trim(query));
    if q.len() == 0 {
        chats
    } else {
        matching_targets(chats, q)
    }
}

/// Starting to forward the highlighted (sent) message: every chat is offered.
pub open spec fn forward_start_done(old: App, new: App) -> bool {
    if acting_on_message(old) {
        let m = highlighted(old);
        if m.id == 0 {
            status_only(old, new, "Cannot forward message that is not sent yet"@)
        } else {
            &&& new == (App { forward: new.forward, status: new.status, ..old })
            &&& new.forward matches Some(f)
            &&& f.source_message_id == m.id
            &&& f.query@.len() == 0 && f.comment@.len() == 0
            &&& f.filtered@ == forward_targets(old.chats@, ""@)
            &&& f.selected == 0
            &&& f.stage is SelectTarget
            &&& status_is(new, "Select chat to forward (j/k, type to search)"@)
        }
    } else {
        new == old
    }
}

/// Opens the forward dialog for the highlighted message.
pub fn on_forward_start(app: &mut App)
    ensures
        forward_start_done(*old(app), *final(app)),
{
    if acting(app) {
        let id = app.messages[app.messages_scroll].id;
        if id == 0 {
            set_status(app, "Cannot forward message that is not sent yet");
        } else {
            let filtered = forward_filter(app.chats.as_slice(), "");
            app.forward = Some(ForwardState {
                source_message_id: id,
                query: String::new(),
                filtered,
                selected: 0,
                comment: String::new(),
                stage: ForwardStage::SelectTarget,
            });
            set_status(app, "Select chat to forward (j/k, type to search)");
        }
    }
}

fn acting(app: &App) -> (r: bool)
    ensures
        r == acting_on_message(*app),
{
    app.screen == crate::app_state::Screen::Main && app.focus == crate::app_state::Focus::Messages
        && app.messages_scroll < app.messages.len()
}

/// Closing the forward dialog.
pub open spec fn forward_cancel_done(old: App, new: App) -> bool {
    &&& new == (App { forward: None, status: new.status, ..old })
    &&& status_is(new, "Forward cancelled"@)
}

/// Esc in the forward dialog.
pub fn on_forward_cancel(app: &mut App)
    ensures
        forward_cancel_done(*old(app), *final(app)),
{
    app.forward = None;
    set_status(app, "Forward cancelled");
}

/// `new` differs from `old` at most in the forward dialog, which becomes `g`.
pub open spec fn forward_became(old: App, new: App, g: ForwardState) -> bool {
    new == (App { forward: Some(g), ..old })
}

/// Moving the target selection: up stops at the first chat, down at the
/// last offered one.
pub open spec fn forward_move_done(old: App, new: App, up: bool) -> bool {
    match old.forward {
        Some(f) => {
            let sel = if up {
                if f.selected > 0 { (f.selected - 1) as usize } else { f.selected }
            } else if f.filtered@.len() > 0 && f.selected + 1 < f.filtered@.len() {
                (f.selected + 1) as usize
            } else {
                f.selected
            };
            forward_became(old, new, ForwardState { selected: sel, ..f })
        },
        None => new == old,
    }
}

/// Moves the target selection.
pub fn on_forward_move(app: &mut App, up: bool)
    ensures
        forward_move_done(*old(app), *final(app), up),
{
    match app.forward.take() {
        Some(mut f) => {
            if up {
                if f.selected > 0 {
                    f.selected = f.selected - 1;
                }
            } else if f.filtered.len() > 0 && f.selected < f.filtered.len() - 1 {
                f.selected = f.selected + 1;
            }
            app.forward = Some(f);
        },
        None => {},
    }
}

/// The selection kept within the offered chats after the list changed.
pub open spec fn clamped(selected: usize, len: int) -> usize {
    if selected >= len {
        if len > 0 { (len - 1) as usize } else { 0 }
    } else {
        selected
    }
}

/// Editing the query while picking a target: the query becomes `q`, the
/// offered chats follow it and the selection stays within them.
pub open spec fn query_edited(old: App, new: App, f: ForwardState, q: Seq<char>) -> bool {
    let offered = forward_targets(old.chats@, q);
    &&& new == (App { forward: new.forward, ..old })
    &&& new.forward matches Some(g)
    &&& g == (ForwardState { query: g.query, filtered: g.filtered, selected: clamped(f.selected, offered.len() as int), ..f })
    &&& g.query@ == q
    &&& g.filtered@ == offered
}

/// A character typed into the query, a backspace (`kind == 1`) or a deleted
/// word (`kind == 2`), while a target is being picked.
pub open spec fn forward_query_done(old: App, new: App, kind: int, c: char) -> bool {
    match old.forward {
        Some(f) => if f.stage is SelectTarget {
            if kind == 0 {
                query_edited(old, new, f, f.query@.push(c))
            } else if kind == 1 {
                query_edited(old, new, f, if f.query@.len() > 0 { f.query@.drop_last() } else { f.query@ })
            } else {
                exists|p: int| #[trigger] word_deleted(f.query@, f.query@.len() as int, new.forward->0.query@, p)
                    && query_edited(old, new, f, new.forward->0.query@)
            }
        } else {
            new == old
        },
        None => new == old,
    }
}

/// Removes the last character of `s`, if any.
fn pop_char(s: &mut String)
    ensures
        final(s)@ == if old(s)@.len() > 0 { old(s)@.drop_last() } else { old(s)@ },
{
    let n = chars_of(s.as_str()).len();
    if n > 0 {
        remove_char_at(s, n - 1);
        assert(old(s)@.take(n - 1) + old(s)@.skip(n as int) =~= old(s)@.drop_last());
    }
}

/// Edits the target query (`kind` 0: type `c`, 1: backspace, 2: delete a word).
pub fn on_forward_query(app: &mut App, kind: u8, c: char)
    requires
        kind <= 2,
    ensures
        forward_query_done(*old(app), *final(app), kind as int, c),
{
    match app.forward.take() {
        Some(mut f) => {
            match f.stage {
                ForwardStage::SelectTarget => {
                    let ghost f0 = f;
                    if kind == 0 {
                        push_char(&mut f.query, c);
                    } else if kind == 1 {
                        pop_char(&mut f.query);
                    } else {
                        let mut cursor = chars_of(f.query.as_str()).len();
                        delete_word(&mut f.query, &mut cursor);
                        assert(word_deleted(f0.query@, f0.query@.len() as int, f.query@, cursor as int));
                    }
                    f.filtered = forward_filter(app.chats.as_slice(), f.query.as_str());
                    if f.selected >= f.filtered.len() {
                        f.selected = if f.filtered.len() > 0 { f.filtered.len() - 1 } else { 0 };
                    }
                    app.forward = Some(f);
                },
                _ => {
                    app.forward = Some(f);
                },
            }
        },
        None => {},
    }
}

/// A character typed into the comment, a backspace (`kind == 1`) or a
/// deleted word (`kind == 2`), once the target is chosen.
pub open spec fn forward_comment_done(old: App, new: App, kind: int, c: char) -> bool {
    match old.forward {
        Some(f) => if f.stage is EnterComment {
            &&& new == (App { forward: new.forward, ..old })
            &&& new.forward matches Some(g)
            &&& g == (ForwardState { comment: g.comment, ..f })
            &&& if kind == 0 {
                g.comment@ == f.comment@.push(c)
            } else if kind == 1 {
                g.comment@ == if f.comment@.len() > 0 { f.comment@.drop_last() } else { f.comment@ }
            } else {
                exists|p: int| #[trigger] word_deleted(f.comment@, f.comment@.len() as int, g.comment@, p)
            }
        } else {
            new == old
        },
        None => new == old,
    }
}

/// Edits the comment (`kind` 0: type `c`, 1: backspace, 2: delete a word).
pub fn on_forward_comment(app: &mut App, kind: u8, c: char)
    requires
        kind <= 2,
    ensures
        forward_comment_done(*old(app), *final(app), kind as int, c),
{
    match app.forward.take() {
        Some(mut f) => {
            match f.stage {
                ForwardStage::EnterComment { .. } => {
                    let ghost f0 = f;
                    if kind == 0 {
                        push_char(&mut f.comment, c);
                    } else if kind == 1 {
                        pop_char(&mut f.comment);
                    } else {
                        let mut cursor = chars_of(f.comment.as_str()).len();
                        delete_word(&mut f.comment, &mut cursor);
                        assert(word_deleted(f0.comment@, f0.comment@.len() as int, f.comment@, cursor as int));
                    }
                    app.forward = Some(f);
                },
                _ => {
                    app.forward = Some(f);
                },
            }
        },
        None => {},
    }
}

/// Enter in the forward dialog: while picking, the selected chat becomes
/// the target and the comment is asked for; with a target, the dialog
/// closes, a pending "forwarded" message is shown and the forward is sent.
pub open spec fn forward_submit_done(old: App, new: App, now: i64) -> bool {
    match old.forward {
        Some(f) => match f.stage {
            ForwardStage::SelectTarget => if f.filtered@.len() == 0 {
                status_only(old, new, "No chat matched"@)
            } else if f.selected < f.filtered@.len() {
                let chat = f.filtered@[f.selected as int];
                &&& new == (App { forward: new.forward, status: new.status, ..old })
                &&& new.forward matches Some(g)
                &&& g == (ForwardState { comment: g.comment, stage: g.stage, ..f })
                &&& g.comment@.len() == 0
                &&& g.stage matches ForwardStage::EnterComment { peer_id, title } && peer_id == chat.id && title@ == chat.title@
                &&& status_is(new, "Forward to "@ + chat.title@ + ": add comment or Enter"@)
            } else {
                new == old
            },
            ForwardStage::EnterComment { peer_id, title: _ } => {
                let m = new.messages@.last();
                &&& new == (App {
                    forward: None,
                    messages: new.messages,
                    messages_scroll: (new.messages@.len() - 1) as usize,
                    status: new.status,
                    actions: new.actions,
                    ..old
                })
                &&& new.messages@.len() == old.messages@.len() + 1
                &&& new.messages@.drop_last() =~= old.messages@
                &&& is_placeholder(m, old, if f.comment@.len() == 0 { "[forwarded]"@ } else { f.comment@ }, now)
                &&& m.attachments@.len() == 0 && m.reply is None && m.fwd_count == 1
                &&& status_is(new, "Forwarding..."@)
                &&& new.actions@.len() == old.actions@.len() + 1
                &&& new.actions@.drop_last() =~= old.actions@
                &&& new.actions@.last() matches AsyncAction::SendForward(p, ids, comment)
                &&& p == peer_id && ids@ == seq![f.source_message_id] && comment@ == f.comment@
            },
        },
        None => new == old,
    }
}

/// Enter in the forward dialog, at time `now`.
pub fn on_forward_submit(app: &mut App, now: i64)
    requires
        old(app).messages@.len() < usize::MAX,
    ensures
        forward_submit_done(*old(app), *final(app), now),
{
    match app.forward.take() {
        Some(mut f) => {
            match f.stage {
                ForwardStage::SelectTarget => {
                    if f.filtered.len() == 0 {
                        app.forward = Some(f);
                        set_status(app, "No chat matched");
                    } else if f.selected < f.filtered.len() {
                        let peer_id = f.filtered[f.selected].id;
                        let title = f.filtered[f.selected].title.clone();
                        let mut text = string_of("Forward to ");
                        push_str(&mut text, title.as_str());
                        push_str(&mut text, ": add comment or Enter");
                        f.stage = ForwardStage::EnterComment { peer_id, title };
                        f.comment = String::new();
                        app.forward = Some(f);
                        app.status = Some(text);
                    } else {
                        app.forward = Some(f);
                    }
                },
                ForwardStage::EnterComment { peer_id, title: _ } => {
                    let shown = if chars_of(f.comment.as_str()).len() == 0 {
                        string_of("[forwarded]")
                    } else {
                        f.comment.clone()
                    };
                    let mut m = placeholder(app, shown, now);
                    m.fwd_count = 1;
                    app.messages.push(m);
                    app.messages_scroll = app.messages.len() - 1;
                    set_status(app, "Forwarding...");
                    let mut ids: Vec<i64> = Vec::new();
                    ids.push(f.source_message_id);
                    assert(ids@ =~= seq![f.source_message_id]);
                    app.send_action(AsyncAction::SendForward(peer_id, ids, f.comment));
                },
            }
        },
        None => {},
    }
}

} // verus!
