//! Forwarded-message trees: copying them, counting their items and
//! flattening them into indented lines for the viewer.

use vstd::prelude::*;
use crate::text::push_str;
use crate::models::{AttachmentInfo, ForwardItem};
use crate::format::{truncate_str, truncated};

verus! {

broadcast use vstd::string::group_string_axioms;

/// `b` holds the same forwarded message as `a`, down to every nested item.
pub open spec fn same_forward(a: ForwardItem, b: ForwardItem) -> bool
    decreases a,
{
    &&& b.from@ == a.from@
    &&& b.text@ == a.text@
    &&& b.attachments@ == a.attachments@
    &&& b.nested@.len() == a.nested@.len()
    &&& forall|i: int| 0 <= i < a.nested@.len() ==> same_forward(#[trigger] a.nested@[i], b.nested@[i])
}

/// `b` holds the same forwarded messages as `a`, in order.
pub open spec fn same_forwards(a: Seq<ForwardItem>, b: Seq<ForwardItem>) -> bool {
    &&& b.len() == a.len()
    &&& forall|i: int| 0 <= i < a.len() ==> same_forward(#[trigger] a[i], b[i])
}

/// A copy of a list of attachments.
pub fn clone_attachments(v: &Vec<AttachmentInfo>) -> (r: Vec<AttachmentInfo>)
    ensures
        r@ == v@,
{
    let mut out: Vec<AttachmentInfo> = Vec::new();
    let mut i: usize = 0;
    while i < v.len()
        invariant
            i <= v@.len(),
            out@ == v@.take(i as int),
        decreases v@.len() - i,
    {
        out.push(v[i].clone());
        i = i + 1;
        assert(out@ =~= v@.take(i as int));
    }
    assert(v@.take(v@.len() as int) =~= v@);
    out
}

/// A copy of a forwarded message with everything nested in it.
pub fn clone_forward(f: &ForwardItem) -> (r: ForwardItem)
    ensures
        same_forward(*f, r),
    decreases f,
{
    let n = f.nested.len();
    let mut nested: Vec<ForwardItem> = Vec::new();
    let mut i: usize = 0;
    while i < n
        invariant
            n == f.nested@.len(),
            i <= n,
            nested@.len() == i,
            forall|k: int| 0 <= k < i ==> same_forward(#[trigger] f.nested@[k], nested@[k]),
        decreases n - i,
    {
        nested.push(clone_forward(&f.nested[i]));
        i = i + 1;
    }
    ForwardItem {
        from: f.from.clone(),
        text: f.text.clone(),
        attachments: clone_attachments(&f.attachments),
        nested,
    }
}

/// A copy of a list of forwarded messages.
pub fn clone_forwards(v: &Vec<ForwardItem>) -> (r: Vec<ForwardItem>)
    ensures
        same_forwards(v@, r@),
{
    let n = v.len();
    let mut out: Vec<ForwardItem> = Vec::new();
    let mut i: usize = 0;
    while i < n
        invariant
            n == v@.len(),
            i <= n,
            out@.len() == i,
            forall|k: int| 0 <= k < i ==> same_forward(#[trigger] v@[k], out@[k]),
        decreases n - i,
    {
        out.push(clone_forward(&v[i]));
        i = i + 1;
    }
    out
}

/// How many forwarded messages a list holds, nested ones included.
pub open spec fn forward_count(items: Seq<ForwardItem>) -> nat
    decreases items,
{
    if items.len() == 0 {
        0
    } else {
        forward_count(items.drop_last()) + 1 + forward_count(items.last().nested@)
    }
}

/// Counts the forwarded messages in a list, nested ones included.
pub fn forwards_len(items: &[ForwardItem]) -> (r: usize)
    requires
        forward_count(items@) <= usize::MAX,
    ensures
        r == forward_count(items@),
    decreases items@,
{
    let n = items.len();
    let mut total: usize = 0;
    let mut i: usize = 0;
    proof {
        lemma_count_prefix(items@, n as int);
    }
    while i < n
        invariant
            n == items@.len(),
            i <= n,
            total == forward_count(items@.take(i as int)),
            forward_count(items@) <= usize::MAX,
            forall|k: int| 0 <= k <= n ==> #[trigger] forward_count(items@.take(k)) <= forward_count(items@),
        decreases n - i,
    {
        let ghost pre = items@.take(i as int);
        assert(items@.take(i + 1).drop_last() == pre);
        assert(items@.take(i + 1).last() == items@[i as int]);
        assert(forward_count(items@.take(i + 1)) <= forward_count(items@));
        let inner = forwards_len(items[i].nested.as_slice());
        total = total + 1 + inner;
        i = i + 1;
    }
    assert(items@.take(n as int) == items@);
    total
}

/// The count of a prefix is at most the count of the whole list.
proof fn lemma_count_prefix(items: Seq<ForwardItem>, n: int)
    requires
        n == items.len(),
    ensures
        forall|k: int| 0 <= k <= n ==> #[trigger] forward_count(items.take(k)) <= forward_count(items),
    decreases items.len(),
{
    if items.len() > 0 {
        let d = items.drop_last();
        lemma_count_prefix(d, n - 1);
        assert forall|k: int| 0 <= k <= n implies #[trigger] forward_count(items.take(k)) <= forward_count(items) by {
            if k < n {
                assert(items.take(k) == d.take(k));
            } else {
                assert(items.take(k) == items);
            }
        }
    }
}

/// The viewer's line for a forwarded message: the sender, a colon and the
/// text cut to 120 characters.
pub open spec fn forward_line(f: ForwardItem) -> Seq<char> {
    f.from@ + ": "@ + truncated(f.text@, 120)
}

/// The indented lines of a list of forwarded messages: each message at
/// `indent`, followed by the lines of what it forwards, one level deeper.
pub open spec fn flat_lines(items: Seq<ForwardItem>, indent: int) -> Seq<(int, Seq<char>)>
    decreases items,
{
    if items.len() == 0 {
        seq![]
    } else {
        flat_lines(items.drop_last(), indent) + seq![(indent, forward_line(items.last()))]
            + flat_lines(items.last().nested@, indent + 1)
    }
}

/// How many levels of nesting lie below a list of forwarded messages.
pub open spec fn nest_depth(items: Seq<ForwardItem>) -> nat
    decreases items,
{
    if items.len() == 0 {
        0
    } else {
        let a = nest_depth(items.drop_last());
        let b: nat = if items.last().nested@.len() == 0 { 0 } else { 1 + nest_depth(items.last().nested@) };
        if a >= b { a } else { b }
    }
}

/// The lines as integers and character sequences.
pub open spec fn lines_view(v: Seq<(usize, String)>) -> Seq<(int, Seq<char>)> {
    v.map_values(|p: (usize, String)| (p.0 as int, p.1@))
}

proof fn lemma_depth_prefix(items: Seq<ForwardItem>, n: int)
    requires
        n == items.len(),
    ensures
        forall|k: int| 0 <= k <= n ==> #[trigger] nest_depth(items.take(k)) <= nest_depth(items),
    decreases items.len(),
{
    if items.len() > 0 {
        let d = items.drop_last();
        lemma_depth_prefix(d, n - 1);
        assert forall|k: int| 0 <= k <= n implies #[trigger] nest_depth(items.take(k)) <= nest_depth(items) by {
            if k < n {
                assert(items.take(k) == d.take(k));
            } else {
                assert(items.take(k) == items);
            }
        }
    }
}

/// Flattens a forward tree into indented lines for display.
pub fn flatten_forwards(items: &[ForwardItem], indent: usize) -> (r: Vec<(usize, String)>)
    requires
        indent + nest_depth(items@) <= usize::MAX,
    ensures
        lines_view(r@) == flat_lines(items@, indent as int),
    decreases items@,
{
    let n = items.len();
    let mut out: Vec<(usize, String)> = Vec::new();
    let mut i: usize = 0;
    proof {
        lemma_depth_prefix(items@, n as int);
        assert(lines_view(out@) =~= flat_lines(items@.take(0), indent as int));
    }
    while i < n
        invariant
            n == items@.len(),
            i <= n,
            indent + nest_depth(items@) <= usize::MAX,
            forall|k: int| 0 <= k <= n ==> #[trigger] nest_depth(items@.take(k)) <= nest_depth(items@),
            lines_view(out@) == flat_lines(items@.take(i as int), indent as int),
        decreases n - i,
    {
        let ghost pre = items@.take(i as int);
        let ghost before = out@;
        assert(items@.take(i + 1).drop_last() == pre);
        assert(items@.take(i + 1).last() == items@[i as int]);
        assert(nest_depth(items@.take(i + 1)) <= nest_depth(items@));
        let item = &items[i];
        let mut line = item.from.clone();
        push_str(&mut line, ": ");
        let cut = truncate_str(item.text.as_str(), 120);
        push_str(&mut line, cut.as_str());
        out.push((indent, line));
        assert(lines_view(out@) =~= lines_view(before) + seq![(indent as int, forward_line(items@[i as int]))]);
        if item.nested.len() > 0 {
            let ghost mid = out@;
            let mut inner = flatten_forwards(item.nested.as_slice(), indent + 1);
            let ghost inner_v = inner@;
            out.append(&mut inner);
            assert(lines_view(out@) =~= lines_view(mid) + lines_view(inner_v));
        } else {
            assert(flat_lines(item.nested@, indent + 1) =~= Seq::<(int, Seq<char>)>::empty());
            assert(lines_view(out@) =~= lines_view(out@) + flat_lines(item.nested@, indent + 1));
        }
        i = i + 1;
    }
    assert(items@.take(n as int) == items@);
    out
}

/// Flattening a forward list gives one line per forwarded message, nested
/// ones included: as many lines as the list counts items.
pub proof fn lemma_flat_lines_count(items: Seq<ForwardItem>, indent: int)
    ensures
        flat_lines(items, indent).len() == forward_count(items),
    decreases items,
{
    if items.len() > 0 {
        lemma_flat_lines_count(items.drop_last(), indent);
        lemma_flat_lines_count(items.last().nested@, indent + 1);
    }
}

/// Every flattened line of a list at `indent` is indented at least that far.
pub proof fn lemma_flat_lines_indent(items: Seq<ForwardItem>, indent: int)
    ensures
        forall|k: int| 0 <= k < flat_lines(items, indent).len() ==> #[trigger] flat_lines(items, indent)[k].0 >= indent,
    decreases items,
{
    if items.len() > 0 {
        lemma_flat_lines_indent(items.drop_last(), indent);
        lemma_flat_lines_indent(items.last().nested@, indent + 1);
        let a = flat_lines(items.drop_last(), indent);
        let b = seq![(indent, forward_line(items.last()))];
        let c = flat_lines(items.last().nested@, indent + 1);
        assert forall|k: int| 0 <= k < (a + b + c).len() implies #[trigger] (a + b + c)[k].0 >= indent by {
            if k < a.len() {
                assert((a + b + c)[k] == a[k]);
            } else if k < a.len() + b.len() {
                assert((a + b + c)[k] == b[k - a.len()]);
            } else {
                assert((a + b + c)[k] == c[k - a.len() - b.len()]);
            }
        }
    }
}

/// Counts a forward tree, or `None` when the count would pass `usize::MAX`.
pub fn forwards_len_checked(items: &[ForwardItem]) -> (r: Option<usize>)
    ensures
        forward_count(items@) <= usize::MAX ==> r == Some(forward_count(items@) as usize),
        forward_count(items@) > usize::MAX ==> r is None,
    decreases items@,
{
    let n = items.len();
    let mut total: usize = 0;
    let mut i: usize = 0;
    while i < n
        invariant
            n == items@.len(),
            i <= n,
            total == forward_count(items@.take(i as int)),
        decreases n - i,
    {
        assert(items@.take(i + 1).drop_last() == items@.take(i as int));
        assert(items@.take(i + 1).last() == items@[i as int]);
        let inner = match forwards_len_checked(items[i].nested.as_slice()) {
            Some(c) => c,
            None => {
                proof {
                    lemma_count_grows(items@, i as int + 1);
                }
                return None;
            },
        };
        if total >= usize::MAX - inner {
            proof {
                lemma_count_grows(items@, i as int + 1);
            }
            return None;
        }
        total = total + 1 + inner;
        i = i + 1;
    }
    assert(items@.take(n as int) == items@);
    Some(total)
}

/// A longer prefix of a forward list counts at least as many items.
proof fn lemma_count_grows(items: Seq<ForwardItem>, k: int)
    requires
        0 <= k <= items.len(),
    ensures
        forward_count(items.take(k)) <= forward_count(items),
    decreases items.len() - k,
{
    if k < items.len() {
        assert(items.take(k + 1).drop_last() == items.take(k));
        lemma_count_grows(items, k + 1);
    } else {
        assert(items.take(k) == items);
    }
}


/// The nesting of a list never exceeds its count.
proof fn lemma_depth_le_count(items: Seq<ForwardItem>)
    ensures
        nest_depth(items) <= forward_count(items),
    decreases items,
{
    if items.len() > 0 {
        lemma_depth_le_count(items.drop_last());
        lemma_depth_le_count(items.last().nested@);
    }
}

/// The flattened lines of a list at `indent`, or `None` when the count of
/// its messages added to `indent` would pass `usize::MAX`.
pub fn flatten_forwards_checked(items: &[ForwardItem], indent: usize) -> (r: Option<Vec<(usize, String)>>)
    ensures
        indent + forward_count(items@) <= usize::MAX ==> (r matches Some(v) && lines_view(v@) == flat_lines(items@, indent as int)),
        indent + forward_count(items@) > usize::MAX ==> r is None,
{
    match forwards_len_checked(items) {
        Some(n) => {
            if n <= usize::MAX - indent {
                proof {
                    lemma_depth_le_count(items@);
                }
                Some(flatten_forwards(items, indent))
            } else {
                None
            }
        },
        None => None,
    }
}

} // verus!
