//! Text-editing helpers that address strings by character position.

use vstd::prelude::*;
use vstd::utf8::*;
use crate::text::{chars_of, push_chars_range, push_char, char_is_whitespace, is_white_space};

verus! {

broadcast use vstd::string::group_string_axioms;

/// The number of UTF-8 bytes the first `k` characters of `s` take.
pub open spec fn byte_offset(s: Seq<char>, k: int) -> int {
    encode_utf8(s.take(k)).len() as int
}

proof fn lemma_encode_utf8_push(s: Seq<char>, c: char)
    ensures
        encode_utf8(s.push(c)) == encode_utf8(s) + encode_scalar(c as u32),
    decreases s.len(),
{
    if s.len() == 0 {
        assert(s.push(c).drop_first() == Seq::<char>::empty());
        assert(encode_utf8(Seq::<char>::empty()) == Seq::<u8>::empty());
    } else {
        assert(s.push(c).drop_first() == s.drop_first().push(c));
        lemma_encode_utf8_push(s.drop_first(), c);
        assert(s.push(c)[0] == s[0]);
    }
}

proof fn lemma_encode_utf8_append(a: Seq<char>, b: Seq<char>)
    ensures
        encode_utf8(a + b) == encode_utf8(a) + encode_utf8(b),
    decreases a.len(),
{
    if a.len() == 0 {
        assert(a + b == b);
    } else {
        assert((a + b).drop_first() == a.drop_first() + b);
        lemma_encode_utf8_append(a.drop_first(), b);
        assert((a + b)[0] == a[0]);
    }
}

proof fn lemma_byte_offset_bound(s: Seq<char>, k: int)
    requires
        0 <= k <= s.len(),
    ensures
        byte_offset(s, k) <= encode_utf8(s).len(),
{
    assert(s.take(k) + s.skip(k) == s);
    lemma_encode_utf8_append(s.take(k), s.skip(k));
}

/// Number of bytes `c` takes in UTF-8 (as `char::len_utf8`).
pub fn utf8_len(c: char) -> (r: usize)
    ensures
        r == encode_scalar(c as u32).len(),
        1 <= r <= 4,
{
    proof {
        char_is_scalar(c);
    }
    let v = c as u32;
    if v <= 0x7F {
        1
    } else if v <= 0x7FF {
        2
    } else if v <= 0xFFFF {
        3
    } else {
        4
    }
}

/// Byte index of the character at `char_idx`, or the byte length of `s`
/// when `char_idx` is past the end.
pub fn char_to_byte_index(s: &str, char_idx: usize) -> (r: usize)
    requires
        encode_utf8(s@).len() <= usize::MAX,
    ensures
        char_idx < s@.len() ==> r == byte_offset(s@, char_idx as int),
        char_idx >= s@.len() ==> r == encode_utf8(s@).len(),
{
    let cs = chars_of(s);
    let n = cs.len();
    let mut i: usize = 0;
    let mut acc: usize = 0;
    proof {
        assert(s@.take(0) == Seq::<char>::empty());
        assert(s@.take(n as int) == s@);
        assert forall|k: int| 0 <= k <= n implies byte_offset(s@, k) <= encode_utf8(s@).len() by {
            lemma_byte_offset_bound(s@, k);
        }
    }
    while i < n && i < char_idx
        invariant
            cs@ == s@,
            n == s@.len(),
            i <= n,
            i <= char_idx,
            acc == byte_offset(s@, i as int),
            encode_utf8(s@).len() <= usize::MAX,
            forall|k: int| 0 <= k <= n ==> byte_offset(s@, k) <= encode_utf8(s@).len(),
        decreases n - i,
    {
        let w = utf8_len(cs[i]);
        proof {
            assert(s@.take(i + 1) == s@.take(i as int).push(s@[i as int]));
            lemma_encode_utf8_push(s@.take(i as int), s@[i as int]);
            assert(byte_offset(s@, i + 1) <= encode_utf8(s@).len());
        }
        acc = acc + w;
        i = i + 1;
    }
    proof {
        if char_idx >= n {
            assert(s@.take(n as int) == s@);
        }
    }
    acc
}

/// `s` with `c` inserted before character position `p`.
pub open spec fn inserted(s: Seq<char>, p: int, c: char) -> Seq<char> {
    s.take(p).push(c) + s.skip(p)
}

/// `s` without the character at position `p`.
pub open spec fn removed(s: Seq<char>, p: int) -> Seq<char> {
    s.take(p) + s.skip(p + 1)
}

/// Inserts `c` at character position `char_pos` (at the end when the
/// position is past the end).
pub fn insert_char_at(s: &mut String, char_pos: usize, c: char)
    ensures
        char_pos <= old(s)@.len() ==> final(s)@ == inserted(old(s)@, char_pos as int, c),
        char_pos > old(s)@.len() ==> final(s)@ == old(s)@.push(c),
{
    let cs = chars_of(s.as_str());
    let n = cs.len();
    let p = if char_pos < n {
        char_pos
    } else {
        n
    };
    let mut out = String::new();
    push_chars_range(&mut out, cs.as_slice(), 0, p);
    push_char(&mut out, c);
    push_chars_range(&mut out, cs.as_slice(), p, n);
    proof {
        assert(cs@.subrange(0, p as int) == cs@.take(p as int));
        assert(cs@.subrange(p as int, n as int) == cs@.skip(p as int));
        if char_pos > n {
            assert(cs@.take(n as int) == cs@);
            assert(cs@.skip(n as int) == Seq::<char>::empty());
            assert(out@ == cs@.push(c));
        }
    }
    *s = out;
}

/// Removes the character at position `char_pos`, returning it; does nothing
/// and returns `None` when the position is past the end.
pub fn remove_char_at(s: &mut String, char_pos: usize) -> (r: Option<char>)
    ensures
        char_pos < old(s)@.len() ==> r == Some(old(s)@[char_pos as int]) && final(s)@ == removed(
            old(s)@,
            char_pos as int,
        ),
        char_pos >= old(s)@.len() ==> r is None && final(s)@ == old(s)@,
{
    let cs = chars_of(s.as_str());
    let n = cs.len();
    if char_pos >= n {
        return None;
    }
    let removed_char = cs[char_pos];
    let mut out = String::new();
    push_chars_range(&mut out, cs.as_slice(), 0, char_pos);
    push_chars_range(&mut out, cs.as_slice(), char_pos + 1, n);
    proof {
        assert(cs@.subrange(0, char_pos as int) == cs@.take(char_pos as int));
        assert(cs@.subrange(char_pos + 1, n as int) == cs@.skip(char_pos + 1));
    }
    *s = out;
    Some(removed_char)
}

/// The character at position `char_pos`, if there is one.
pub fn char_at(s: &str, char_pos: usize) -> (r: Option<char>)
    ensures
        char_pos < s@.len() ==> r == Some(s@[char_pos as int]),
        char_pos >= s@.len() ==> r is None,
{
    let cs = chars_of(s);
    if char_pos < cs.len() {
        Some(cs[char_pos])
    } else {
        None
    }
}

/// Length of the run of characters ending just before position `p` whose
/// whitespace-ness equals `ws`.
pub open spec fn run_before(s: Seq<char>, p: int, ws: bool) -> nat
    decreases p,
{
    if 0 < p <= s.len() && is_white_space(s[p - 1]) == ws {
        1 + run_before(s, p - 1, ws)
    } else {
        0
    }
}

/// Where the cursor lands after deleting the word before position `p`:
/// first the whitespace run, then the word run before it.
pub open spec fn word_start(s: Seq<char>, p: int) -> int {
    let q = p - run_before(s, p, true);
    q - run_before(s, q, false)
}

proof fn lemma_run_before_bounds(s: Seq<char>, p: int, ws: bool)
    ensures
        run_before(s, p, ws) <= if p > 0 { p } else { 0 },
    decreases p,
{
    if 0 < p <= s.len() && is_white_space(s[p - 1]) == ws {
        lemma_run_before_bounds(s, p - 1, ws);
    }
}

proof fn lemma_run_before_prefix(s: Seq<char>, t: Seq<char>, p: int, ws: bool)
    requires
        0 <= p <= s.len(),
        p <= t.len(),
        s.take(p) == t.take(p),
    ensures
        run_before(s, p, ws) == run_before(t, p, ws),
    decreases p,
{
    if p > 0 {
        assert(s[p - 1] == s.take(p)[p - 1]);
        assert(t[p - 1] == t.take(p)[p - 1]);
        assert(s.take(p - 1) == s.take(p).take(p - 1));
        assert(t.take(p - 1) == t.take(p).take(p - 1));
        lemma_run_before_prefix(s, t, p - 1, ws);
    }
}

/// Deletes backwards from `cursor` over trailing whitespace and then one
/// word, moving `cursor` to where the deletion started.
fn delete_run(input: &mut String, cursor: &mut usize, ws: bool, Ghost(orig): Ghost<Seq<char>>, Ghost(end): Ghost<int>)
    requires
        *old(cursor) <= old(input)@.len(),
        *old(cursor) <= end <= orig.len(),
        old(input)@ == orig.take(*old(cursor) as int) + orig.skip(end),
    ensures
        *final(cursor) == *old(cursor) - run_before(orig, *old(cursor) as int, ws),
        final(input)@ == orig.take(*final(cursor) as int) + orig.skip(end),
{
    let ghost start = *cursor;
    proof {
        lemma_run_before_bounds(orig, start as int, ws);
    }
    loop
        invariant
            *cursor <= start <= end <= orig.len(),
            input@ == orig.take(*cursor as int) + orig.skip(end),
            run_before(orig, start as int, ws) == (start - *cursor) + run_before(
                orig,
                *cursor as int,
                ws,
            ),
        ensures
            *cursor <= start <= end <= orig.len(),
            input@ == orig.take(*cursor as int) + orig.skip(end),
            run_before(orig, start as int, ws) == (start - *cursor),
        decreases *cursor,
    {
        if *cursor == 0 {
            assert(run_before(orig, *cursor as int, ws) == 0);
            break;
        }
        proof {
            assert(input@[*cursor - 1] == orig[*cursor - 1]);
        }
        let c = char_at(input.as_str(), *cursor - 1);
        let matches_run = match c {
            Some(ch) => char_is_whitespace(ch) == ws,
            None => false,
        };
        if !matches_run {
            assert(run_before(orig, *cursor as int, ws) == 0);
            break;
        }
        *cursor = *cursor - 1;
        remove_char_at(input, *cursor);
        proof {
            let k = *cursor as int;
            assert(orig.take(k + 1).take(k) == orig.take(k));
            assert((orig.take(k + 1) + orig.skip(end)).take(k) == orig.take(k));
            assert((orig.take(k + 1) + orig.skip(end)).skip(k + 1) == orig.skip(end));
        }
    }
}

/// Deletes the previous word: first any whitespace right before the cursor,
/// then the run of non-whitespace before that (as Ctrl+W does).
pub fn delete_word(input: &mut String, cursor: &mut usize)
    ensures
        *old(cursor) <= old(input)@.len() ==> *final(cursor) == word_start(
            old(input)@,
            *old(cursor) as int,
        ) && final(input)@ == old(input)@.take(*final(cursor) as int) + old(input)@.skip(
            *old(cursor) as int,
        ),
        *old(cursor) > old(input)@.len() ==> *final(cursor) == *old(cursor) && final(input)@
            == old(input)@,
{
    let ghost orig = input@;
    let ghost end = *cursor as int;
    if *cursor > chars_of(input.as_str()).len() {
        return;
    }
    proof {
        assert(orig.take(end) + orig.skip(end) == orig);
    }
    delete_run(input, cursor, true, Ghost(orig), Ghost(end));
    proof {
        lemma_run_before_bounds(orig, end, true);
    }
    delete_run(input, cursor, false, Ghost(orig), Ghost(end));
}

/// Display width of a character in terminal columns, `None` for control
/// characters (as `UnicodeWidthChar::width`).
pub uninterp spec fn char_width(c: char) -> Option<usize>;

/// `unicode_width::UnicodeWidthChar::width`: the crate computes the width
/// from a `u8` table entry, so a width never exceeds 255.
#[verifier::external_body]
fn char_display_width(c: char) -> (r: Option<usize>)
    ensures
        r == char_width(c),
        r matches Some(w) ==> w <= 255,
{
    unicode_width::UnicodeWidthChar::width(c)
}

/// Column width of one character, control characters counting as zero.
pub open spec fn column_width(c: char) -> int {
    match char_width(c) {
        Some(w) => w as int,
        None => 0,
    }
}

/// Total column width of the characters in `s`.
pub open spec fn columns(s: Seq<char>) -> int
    decreases s.len(),
{
    if s.len() == 0 {
        0
    } else {
        columns(s.drop_last()) + column_width(s.last())
    }
}

/// Visual width of the first `char_pos` characters of `s` in terminal columns.
pub fn visual_width(s: &str, char_pos: usize) -> (r: usize)
    requires
        char_pos <= usize::MAX / 255,
    ensures
        char_pos <= s@.len() ==> r == columns(s@.take(char_pos as int)),
        char_pos > s@.len() ==> r == columns(s@),
{
    let cs = chars_of(s);
    let n = cs.len();
    let mut i: usize = 0;
    let mut acc: usize = 0;
    while i < n && i < char_pos
        invariant
            cs@ == s@,
            n == s@.len(),
            i <= n,
            i <= char_pos <= usize::MAX / 255,
            acc == columns(s@.take(i as int)),
            acc <= 255 * i,
        decreases n - i,
    {
        let w = match char_display_width(cs[i]) {
            Some(w) => w,
            None => 0,
        };
        proof {
            assert(s@.take(i + 1).drop_last() == s@.take(i as int));
            assert(s@.take(i + 1).last() == s@[i as int]);
        }
        acc = acc + w;
        i = i + 1;
    }
    proof {
        if char_pos > n {
            assert(s@.take(n as int) == s@);
        }
    }
    acc
}

/// Removing the character just inserted at `p` gives back the text, and the
/// inserted text holds the character at `p` and is one longer.
pub proof fn lemma_insert_remove(s: Seq<char>, p: int, c: char)
    requires
        0 <= p <= s.len(),
    ensures
        removed(inserted(s, p, c), p) == s,
        inserted(s, p, c)[p] == c,
        inserted(s, p, c).len() == s.len() + 1,
{
    let t = inserted(s, p, c);
    assert(t.take(p) =~= s.take(p));
    assert(t.skip(p + 1) =~= s.skip(p));
    assert(removed(t, p) =~= s);
}

} // verus!
