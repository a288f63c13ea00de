//! Character-level text helpers shared by the rest of the library.
//!
//! Strings are modelled by their `Seq<char>` view; the helpers here convert
//! between `str`/`String` and vectors of characters and provide the few
//! standard-library text operations the client needs.

use vstd::prelude::*;

verus! {

broadcast use vstd::string::group_string_axioms;

/// The characters of `s`, in order.
pub fn chars_of(s: &str) -> (r: Vec<char>)
    ensures
        r@ == s@,
{
    let mut out: Vec<char> = Vec::new();
    for c in it: s.chars()
        invariant
            out@ == it.seq().take(it.index()),
    {
        out.push(c);
    }
    assert(out@ == s@);
    out
}

/// `String::push`: appends one character.
#[verifier::external_body]
pub(crate) fn push_char(s: &mut String, c: char)
    ensures
        final(s)@ == old(s)@.push(c),
{
    s.push(c);
}

/// `String::push_str`: appends a string slice.
#[verifier::external_body]
pub(crate) fn push_str(s: &mut String, t: &str)
    ensures
        final(s)@ == old(s)@ + t@,
{
    s.push_str(t);
}

/// A `String` holding a copy of `s`.
pub fn string_of(s: &str) -> (r: String)
    ensures
        r@ == s@,
{
    let mut out = String::new();
    push_str(&mut out, s);
    out
}

/// A `String` holding the characters of `cs`.
pub fn string_from_chars(cs: &[char]) -> (r: String)
    ensures
        r@ == cs@,
{
    let mut out = String::new();
    let n = cs.len();
    let mut i: usize = 0;
    while i < n
        invariant
            n == cs@.len(),
            i <= n,
            out@ == cs@.take(i as int),
        decreases n - i,
    {
        push_char(&mut out, cs[i]);
        i = i + 1;
        assert(out@ == cs@.take(i as int));
    }
    assert(cs@.take(n as int) == cs@);
    out
}

/// Copies `cs[from..to]` onto the end of `out`.
pub fn push_chars_range(out: &mut String, cs: &[char], from: usize, to: usize)
    requires
        from <= to <= cs@.len(),
    ensures
        final(out)@ == old(out)@ + cs@.subrange(from as int, to as int),
{
    let mut i = from;
    while i < to
        invariant
            from <= i <= to <= cs@.len(),
            out@ == old(out)@ + cs@.subrange(from as int, i as int),
        decreases to - i,
    {
        push_char(out, cs[i]);
        i = i + 1;
        assert(out@ == old(out)@ + cs@.subrange(from as int, i as int));
    }
}

/// A `String` holding `cs[from..to]`.
pub fn string_from_range(cs: &[char], from: usize, to: usize) -> (r: String)
    requires
        from <= to <= cs@.len(),
    ensures
        r@ == cs@.subrange(from as int, to as int),
{
    let mut out = String::new();
    push_chars_range(&mut out, cs, from, to);
    out
}

/// Whether `c` has the Unicode `White_Space` property (as `char::is_whitespace`):
/// the 25 code points PropList.txt lists, U+0009..U+000D, U+0020, U+0085,
/// U+00A0, U+1680, U+2000..U+200A, U+2028, U+2029, U+202F, U+205F, U+3000.
pub open spec fn is_white_space(c: char) -> bool {
    ||| ('\u{9}' <= c && c <= '\u{D}')
    ||| c == ' '
    ||| c == '\u{85}'
    ||| c == '\u{A0}'
    ||| c == '\u{1680}'
    ||| ('\u{2000}' <= c && c <= '\u{200A}')
    ||| c == '\u{2028}'
    ||| c == '\u{2029}'
    ||| c == '\u{202F}'
    ||| c == '\u{205F}'
    ||| c == '\u{3000}'
}

/// `char::is_whitespace`.
#[verifier::external_body]
pub(crate) fn char_is_whitespace(c: char) -> (r: bool)
    ensures
        r == is_white_space(c),
{
    c.is_whitespace()
}

/// The Unicode lowercase mapping of a whole string (as `str::to_lowercase`).
pub uninterp spec fn lowercase(s: Seq<char>) -> Seq<char>;

/// `str::to_lowercase`.
#[verifier::external_body]
pub(crate) fn to_lowercase(s: &str) -> (r: String)
    ensures
        r@ == lowercase(s@),
{
    s.to_lowercase()
}

/// ASCII punctuation as `char::is_ascii_punctuation` documents it.
pub open spec fn is_ascii_punct(c: char) -> bool {
    ('!' <= c <= '/') || (':' <= c <= '@') || ('[' <= c <= '`') || ('{' <= c <= '~')
}

/// Whether `c` is an ASCII punctuation character.
pub fn char_is_ascii_punctuation(c: char) -> (r: bool)
    ensures
        r == is_ascii_punct(c),
{
    ('!' <= c && c <= '/') || (':' <= c && c <= '@') || ('[' <= c && c <= '`') || ('{' <= c
        && c <= '~')
}

/// The decimal digit character for `d < 10`.
pub open spec fn digit_char(d: int) -> char {
    if d == 0 {
        '0'
    } else if d == 1 {
        '1'
    } else if d == 2 {
        '2'
    } else if d == 3 {
        '3'
    } else if d == 4 {
        '4'
    } else if d == 5 {
        '5'
    } else if d == 6 {
        '6'
    } else if d == 7 {
        '7'
    } else if d == 8 {
        '8'
    } else {
        '9'
    }
}

/// Decimal digits of a natural number, most significant first, without leading zeros.
pub open spec fn nat_digits(n: nat) -> Seq<char>
    decreases n,
{
    if n < 10 {
        seq![digit_char(n as int)]
    } else {
        nat_digits(n / 10).push(digit_char((n % 10) as int))
    }
}

/// Decimal rendering of an integer, as Rust's `Display` writes it.
pub open spec fn decimal(n: int) -> Seq<char> {
    if n < 0 {
        seq!['-'] + nat_digits((-n) as nat)
    } else {
        nat_digits(n as nat)
    }
}

fn digit_of(d: u64) -> (c: char)
    requires
        d < 10,
    ensures
        c == digit_char(d as int),
{
    if d == 0 {
        '0'
    } else if d == 1 {
        '1'
    } else if d == 2 {
        '2'
    } else if d == 3 {
        '3'
    } else if d == 4 {
        '4'
    } else if d == 5 {
        '5'
    } else if d == 6 {
        '6'
    } else if d == 7 {
        '7'
    } else if d == 8 {
        '8'
    } else {
        '9'
    }
}

/// Appends the decimal digits of `n` to `out`.
pub fn push_u64_digits(out: &mut String, n: u64)
    ensures
        final(out)@ == old(out)@ + nat_digits(n as nat),
    decreases n,
{
    if n >= 10 {
        push_u64_digits(out, n / 10);
    }
    push_char(out, digit_of(n % 10));
}

/// Appends the decimal rendering of `n` to `out`.
pub fn push_i64(out: &mut String, n: i64)
    ensures
        final(out)@ == old(out)@ + decimal(n as int),
{
    if n < 0 {
        push_char(out, '-');
        let m: u64 = if n == i64::MIN {
            9223372036854775808u64
        } else {
            (-n) as u64
        };
        push_u64_digits(out, m);
        assert(old(out)@.push('-') + nat_digits(m as nat) == old(out)@ + (seq!['-'] + nat_digits(
            m as nat,
        )));
    } else {
        push_u64_digits(out, n as u64);
    }
}

/// The decimal rendering of `n` (as `n.to_string()`).
pub fn i64_to_string(n: i64) -> (r: String)
    ensures
        r@ == decimal(n as int),
{
    let mut out = String::new();
    push_i64(&mut out, n);
    out
}

/// The decimal rendering of `n` (as `n.to_string()`).
pub fn u64_to_string(n: u64) -> (r: String)
    ensures
        r@ == decimal(n as int),
{
    let mut out = String::new();
    push_u64_digits(&mut out, n);
    out
}


/// `p` is a prefix of `s`.
pub open spec fn is_prefix(p: Seq<char>, s: Seq<char>) -> bool {
    p.len() <= s.len() && s.take(p.len() as int) == p
}

/// `p` is a suffix of `s`.
pub open spec fn is_suffix(p: Seq<char>, s: Seq<char>) -> bool {
    p.len() <= s.len() && s.skip(s.len() - p.len()) == p
}

/// `p` occurs in `s` starting at index `i`.
pub open spec fn occurs_at(s: Seq<char>, p: Seq<char>, i: int) -> bool {
    0 <= i && i + p.len() <= s.len() && s.subrange(i, i + p.len()) == p
}

/// `p` occurs somewhere in `s` (the empty pattern occurs everywhere).
pub open spec fn contains(s: Seq<char>, p: Seq<char>) -> bool {
    exists|i: int| occurs_at(s, p, i)
}

/// Whether `s` starts with `p`.
pub fn starts_with(s: &[char], p: &[char]) -> (r: bool)
    ensures
        r == is_prefix(p@, s@),
{
    if p.len() > s.len() {
        return false;
    }
    let n = p.len();
    let mut i: usize = 0;
    while i < n
        invariant
            n == p@.len(),
            n <= s@.len(),
            i <= n,
            forall|k: int| 0 <= k < i ==> s@[k] == p@[k],
        decreases n - i,
    {
        if s[i] != p[i] {
            assert(s@.take(n as int)[i as int] != p@[i as int]);
            return false;
        }
        i = i + 1;
    }
    assert(s@.take(n as int) == p@);
    true
}

/// Whether `s` ends with `p`.
pub fn ends_with(s: &[char], p: &[char]) -> (r: bool)
    ensures
        r == is_suffix(p@, s@),
{
    if p.len() > s.len() {
        return false;
    }
    let n = p.len();
    let off = s.len() - n;
    let mut i: usize = 0;
    while i < n
        invariant
            n == p@.len(),
            off + n == s@.len(),
            s@.len() <= usize::MAX,
            i <= n,
            forall|k: int| 0 <= k < i ==> s@[off + k] == p@[k],
        decreases n - i,
    {
        if s[off + i] != p[i] {
            assert(s@.skip(off as int)[i as int] != p@[i as int]);
            return false;
        }
        i = i + 1;
    }
    assert(s@.skip(off as int) == p@);
    true
}

/// Whether `p` occurs in `s` at index `i`.
fn occurs_at_exec(s: &[char], p: &[char], i: usize) -> (r: bool)
    requires
        i + p@.len() <= s@.len(),
    ensures
        r == occurs_at(s@, p@, i as int),
{
    let n = p.len();
    let sl = s.len();
    let mut k: usize = 0;
    while k < n
        invariant
            n == p@.len(),
            sl == s@.len(),
            i + n <= s@.len(),
            k <= n,
            forall|j: int| 0 <= j < k ==> s@[i + j] == p@[j],
        decreases n - k,
    {
        if s[i + k] != p[k] {
            assert(s@.subrange(i as int, i + n)[k as int] != p@[k as int]);
            return false;
        }
        k = k + 1;
    }
    assert(s@.subrange(i as int, i + n) == p@);
    true
}

/// Whether `p` occurs anywhere in `s` (as `str::contains`).
pub fn contains_seq(s: &[char], p: &[char]) -> (r: bool)
    ensures
        r == contains(s@, p@),
{
    if p.len() > s.len() {
        assert(forall|i: int| !occurs_at(s@, p@, i));
        return false;
    }
    if p.len() == 0 {
        assert(s@.subrange(0, 0) == p@);
        assert(occurs_at(s@, p@, 0));
        return true;
    }
    let last = s.len() - p.len();
    let mut i: usize = 0;
    while i <= last
        invariant
            last + p@.len() == s@.len(),
            p@.len() > 0,
            s@.len() <= usize::MAX,
            i <= last + 1,
            forall|j: int| 0 <= j < i ==> !occurs_at(s@, p@, j),
        decreases last + 1 - i,
    {
        if occurs_at_exec(s, p, i) {
            return true;
        }
        i = i + 1;
    }
    assert(forall|j: int| !occurs_at(s@, p@, j));
    false
}

/// Whether two character sequences are equal.
pub fn chars_eq(a: &[char], b: &[char]) -> (r: bool)
    ensures
        r == (a@ == b@),
{
    if a.len() != b.len() {
        return false;
    }
    let n = a.len();
    let mut i: usize = 0;
    while i < n
        invariant
            n == a@.len(),
            n == b@.len(),
            i <= n,
            forall|k: int| 0 <= k < i ==> a@[k] == b@[k],
        decreases n - i,
    {
        if a[i] != b[i] {
            return false;
        }
        i = i + 1;
    }
    assert(a@ == b@);
    true
}

/// `s` without its leading ASCII punctuation.
pub open spec fn trim_start_punct(s: Seq<char>) -> Seq<char>
    decreases s.len(),
{
    if s.len() > 0 && is_ascii_punct(s[0]) {
        trim_start_punct(s.drop_first())
    } else {
        s
    }
}

/// `s` without its trailing ASCII punctuation.
pub open spec fn trim_end_punct(s: Seq<char>) -> Seq<char>
    decreases s.len(),
{
    if s.len() > 0 && is_ascii_punct(s.last()) {
        trim_end_punct(s.drop_last())
    } else {
        s
    }
}

/// `s` without leading and trailing ASCII punctuation (as
/// `str::trim_matches(char::is_ascii_punctuation)`).
pub open spec fn trim_punct(s: Seq<char>) -> Seq<char> {
    trim_end_punct(trim_start_punct(s))
}

proof fn lemma_trim_start_punct_skip(s: Seq<char>, i: int)
    requires
        0 <= i <= s.len(),
        forall|k: int| 0 <= k < i ==> is_ascii_punct(s[k]),
    ensures
        trim_start_punct(s) == trim_start_punct(s.skip(i)),
    decreases i,
{
    if i > 0 {
        assert(s.skip(1).skip(i - 1) == s.skip(i));
        lemma_trim_start_punct_skip(s.drop_first(), i - 1);
    } else {
        assert(s.skip(0) == s);
    }
}

proof fn lemma_trim_end_punct_take(s: Seq<char>, j: int)
    requires
        0 <= j <= s.len(),
        forall|k: int| j <= k < s.len() ==> is_ascii_punct(s[k]),
    ensures
        trim_end_punct(s) == trim_end_punct(s.take(j)),
    decreases s.len() - j,
{
    if j < s.len() {
        assert(s.drop_last().take(j) == s.take(j));
        lemma_trim_end_punct_take(s.drop_last(), j);
    } else {
        assert(s.take(j) == s);
    }
}

/// The characters of `s` without leading and trailing ASCII punctuation.
pub fn trim_punct_chars(s: &[char]) -> (r: Vec<char>)
    ensures
        r@ == trim_punct(s@),
{
    let n = s.len();
    let mut i: usize = 0;
    while i < n && char_is_ascii_punctuation(s[i])
        invariant
            n == s@.len(),
            i <= n,
            forall|k: int| 0 <= k < i ==> is_ascii_punct(s@[k]),
        decreases n - i,
    {
        i = i + 1;
    }
    proof {
        lemma_trim_start_punct_skip(s@, i as int);
    }
    let ghost t = s@.skip(i as int);
    assert(trim_start_punct(t) == t);
    let mut j: usize = n;
    while j > i && char_is_ascii_punctuation(s[j - 1])
        invariant
            n == s@.len(),
            i <= j <= n,
            t == s@.skip(i as int),
            forall|k: int| j <= k < n ==> is_ascii_punct(s@[k]),
        decreases j,
    {
        j = j - 1;
    }
    proof {
        lemma_trim_end_punct_take(t, j - i);
        assert(t.take(j - i) == s@.subrange(i as int, j as int));
    }
    let mut out: Vec<char> = Vec::new();
    let mut k: usize = i;
    while k < j
        invariant
            n == s@.len(),
            i <= k <= j <= n,
            out@ == s@.subrange(i as int, k as int),
        decreases j - k,
    {
        out.push(s[k]);
        k = k + 1;
        assert(out@ == s@.subrange(i as int, k as int));
    }
    out
}

/// `s` without its leading whitespace.
pub open spec fn trim_start(s: Seq<char>) -> Seq<char>
    decreases s.len(),
{
    if s.len() > 0 && is_white_space(s[0]) {
        trim_start(s.drop_first())
    } else {
        s
    }
}

/// `s` without its trailing whitespace.
pub open spec fn trim_end(s: Seq<char>) -> Seq<char>
    decreases s.len(),
{
    if s.len() > 0 && is_white_space(s.last()) {
        trim_end(s.drop_last())
    } else {
        s
    }
}

/// `s` without leading and trailing whitespace (as `str::trim`).
pub open spec fn trim(s: Seq<char>) -> Seq<char> {
    trim_end(trim_start(s))
}

/// `s` without any leading occurrences of `c` (as `str::trim_start_matches` with a char).
pub open spec fn trim_start_char(s: Seq<char>, c: char) -> Seq<char>
    decreases s.len(),
{
    if s.len() > 0 && s[0] == c {
        trim_start_char(s.drop_first(), c)
    } else {
        s
    }
}

proof fn lemma_trim_start_skip(s: Seq<char>, i: int)
    requires
        0 <= i <= s.len(),
        forall|k: int| 0 <= k < i ==> is_white_space(s[k]),
    ensures
        trim_start(s) == trim_start(s.skip(i)),
    decreases i,
{
    if i > 0 {
        assert(s.skip(1).skip(i - 1) == s.skip(i));
        lemma_trim_start_skip(s.drop_first(), i - 1);
    } else {
        assert(s.skip(0) == s);
    }
}

proof fn lemma_trim_end_take(s: Seq<char>, j: int)
    requires
        0 <= j <= s.len(),
        forall|k: int| j <= k < s.len() ==> is_white_space(s[k]),
    ensures
        trim_end(s) == trim_end(s.take(j)),
    decreases s.len() - j,
{
    if j < s.len() {
        assert(s.drop_last().take(j) == s.take(j));
        lemma_trim_end_take(s.drop_last(), j);
    } else {
        assert(s.take(j) == s);
    }
}

proof fn lemma_trim_start_char_skip(s: Seq<char>, c: char, i: int)
    requires
        0 <= i <= s.len(),
        forall|k: int| 0 <= k < i ==> s[k] == c,
    ensures
        trim_start_char(s, c) == trim_start_char(s.skip(i), c),
    decreases i,
{
    if i > 0 {
        assert(s.skip(1).skip(i - 1) == s.skip(i));
        lemma_trim_start_char_skip(s.drop_first(), c, i - 1);
    } else {
        assert(s.skip(0) == s);
    }
}

/// The characters of `s` without leading and trailing whitespace.
pub fn trim_chars(s: &[char]) -> (r: Vec<char>)
    ensures
        r@ == trim(s@),
{
    let n = s.len();
    let mut i: usize = 0;
    while i < n && char_is_whitespace(s[i])
        invariant
            n == s@.len(),
            i <= n,
            forall|k: int| 0 <= k < i ==> is_white_space(s@[k]),
        decreases n - i,
    {
        i = i + 1;
    }
    proof {
        lemma_trim_start_skip(s@, i as int);
    }
    let ghost t = s@.skip(i as int);
    assert(trim_start(t) == t);
    let mut j: usize = n;
    while j > i && char_is_whitespace(s[j - 1])
        invariant
            n == s@.len(),
            i <= j <= n,
            t == s@.skip(i as int),
            forall|k: int| j <= k < n ==> is_white_space(s@[k]),
        decreases j,
    {
        j = j - 1;
    }
    proof {
        lemma_trim_end_take(t, j - i);
        assert(t.take(j - i) == s@.subrange(i as int, j as int));
    }
    let mut out: Vec<char> = Vec::new();
    let mut k: usize = i;
    while k < j
        invariant
            n == s@.len(),
            i <= k <= j <= n,
            out@ == s@.subrange(i as int, k as int),
        decreases j - k,
    {
        out.push(s[k]);
        k = k + 1;
        assert(out@ == s@.subrange(i as int, k as int));
    }
    out
}

/// The characters of `s` without leading occurrences of `c`.
pub fn trim_start_char_chars(s: &[char], c: char) -> (r: Vec<char>)
    ensures
        r@ == trim_start_char(s@, c),
{
    let n = s.len();
    let mut i: usize = 0;
    while i < n && s[i] == c
        invariant
            n == s@.len(),
            i <= n,
            forall|k: int| 0 <= k < i ==> s@[k] == c,
        decreases n - i,
    {
        i = i + 1;
    }
    proof {
        lemma_trim_start_char_skip(s@, c, i as int);
    }
    let mut out: Vec<char> = Vec::new();
    let mut k: usize = i;
    while k < n
        invariant
            n == s@.len(),
            i <= k <= n,
            out@ == s@.subrange(i as int, k as int),
        decreases n - k,
    {
        out.push(s[k]);
        k = k + 1;
        assert(out@ == s@.subrange(i as int, k as int));
    }
    assert(s@.subrange(i as int, n as int) == s@.skip(i as int));
    out
}

/// The whitespace-separated words of `s` (as `str::split_whitespace`),
/// described by how each further character extends them.
pub open spec fn words(s: Seq<char>) -> Seq<Seq<char>>
    decreases s.len(),
{
    if s.len() == 0 {
        seq![]
    } else {
        let prev = words(s.drop_last());
        let c = s.last();
        if is_white_space(c) {
            prev
        } else if s.len() >= 2 && !is_white_space(s[s.len() - 2]) {
            prev.update(prev.len() - 1, prev.last().push(c))
        } else {
            prev.push(seq![c])
        }
    }
}

proof fn lemma_words_ends_in_word(s: Seq<char>)
    requires
        s.len() > 0,
        !is_white_space(s.last()),
    ensures
        words(s).len() > 0,
    decreases s.len(),
{
    if s.len() >= 2 && !is_white_space(s[s.len() - 2]) {
        lemma_words_ends_in_word(s.drop_last());
    }
}

/// The deep view of a vector of character vectors.
pub open spec fn seqs_of(v: Seq<Vec<char>>) -> Seq<Seq<char>> {
    v.map_values(|w: Vec<char>| w@)
}

/// The whitespace-separated words of `s`.
pub fn split_words(s: &[char]) -> (r: Vec<Vec<char>>)
    ensures
        seqs_of(r@) == words(s@),
        forall|k: int| 0 <= k < r@.len() ==> r@[k]@.len() > 0,
{
    let n = s.len();
    let mut done: Vec<Vec<char>> = Vec::new();
    let mut cur: Vec<char> = Vec::new();
    let mut i: usize = 0;
    while i < n
        invariant
            n == s@.len(),
            i <= n,
            cur@.len() > 0 ==> i > 0 && !is_white_space(s@[i - 1]),
            i > 0 && !is_white_space(s@[i - 1]) ==> cur@.len() > 0,
            cur@.len() > 0 ==> words(s@.take(i as int)) == seqs_of(done@).push(cur@),
            cur@.len() == 0 ==> words(s@.take(i as int)) == seqs_of(done@),
            forall|k: int| 0 <= k < done@.len() ==> done@[k]@.len() > 0,
        decreases n - i,
    {
        let c = s[i];
        let ghost pre = s@.take(i as int);
        let ghost post = s@.take(i + 1);
        assert(post.drop_last() == pre);
        assert(post.last() == c);
        if char_is_whitespace(c) {
            if cur.len() > 0 {
                let w = cur;
                done.push(w);
                cur = Vec::new();
                assert(seqs_of(done@) == seqs_of(done@.drop_last()).push(w@));
            }
        } else {
            proof {
                if i > 0 {
                    assert(post[post.len() - 2] == s@[i - 1]);
                }
            }
            let ghost old_cur = cur@;
            cur.push(c);
            proof {
                if old_cur.len() > 0 {
                    let prev = seqs_of(done@).push(old_cur);
                    assert(words(post) == prev.update(prev.len() - 1, prev.last().push(c)));
                    assert(words(post) == seqs_of(done@).push(cur@));
                } else {
                    assert(words(post) == seqs_of(done@).push(seq![c]));
                    assert(cur@ == seq![c]);
                }
            }
        }
        i = i + 1;
    }
    if cur.len() > 0 {
        let w = cur;
        done.push(w);
        assert(seqs_of(done@) == seqs_of(done@.drop_last()).push(w@));
    }
    assert(s@.take(n as int) == s@);
    done
}

/// Words joined with a separator between consecutive words.
pub open spec fn join(ws: Seq<Seq<char>>, sep: Seq<char>) -> Seq<char>
    decreases ws.len(),
{
    if ws.len() == 0 {
        seq![]
    } else if ws.len() == 1 {
        ws[0]
    } else {
        join(ws.drop_last(), sep) + sep + ws.last()
    }
}

/// Joins `ws[from..]` with `sep` between consecutive words.
pub fn join_from(ws: &Vec<Vec<char>>, from: usize, sep: &[char]) -> (r: Vec<char>)
    requires
        from <= ws@.len(),
    ensures
        r@ == join(seqs_of(ws@).skip(from as int), sep@),
{
    let n = ws.len();
    let mut out: Vec<char> = Vec::new();
    let mut i: usize = from;
    while i < n
        invariant
            n == ws@.len(),
            from <= i <= n,
            out@ == join(seqs_of(ws@).subrange(from as int, i as int), sep@),
        decreases n - i,
    {
        let ghost before = seqs_of(ws@).subrange(from as int, i as int);
        let ghost after = seqs_of(ws@).subrange(from as int, i + 1);
        assert(after.drop_last() == before);
        if i > from {
            let mut k: usize = 0;
            let ghost base = out@;
            while k < sep.len()
                invariant
                    k <= sep@.len(),
                    out@ == base + sep@.take(k as int),
                decreases sep@.len() - k,
            {
                out.push(sep[k]);
                k = k + 1;
                assert(out@ == base + sep@.take(k as int));
            }
            assert(sep@.take(sep@.len() as int) == sep@);
        }
        let w = &ws[i];
        let ghost base2 = out@;
        let mut k: usize = 0;
        while k < w.len()
            invariant
                k <= w@.len(),
                out@ == base2 + w@.take(k as int),
            decreases w@.len() - k,
        {
            out.push(w[k]);
            k = k + 1;
            assert(out@ == base2 + w@.take(k as int));
        }
        assert(w@.take(w@.len() as int) == w@);
        i = i + 1;
        proof {
            if i - 1 == from {
                assert(after.len() == 1);
                assert(base2 == Seq::<char>::empty());
                assert(out@ == after[0]);
            } else {
                assert(after.last() == w@);
            }
        }
    }
    assert(seqs_of(ws@).subrange(from as int, n as int) == seqs_of(ws@).skip(from as int));
    out
}


/// A word: non-empty, without whitespace.
pub open spec fn is_plain_word(w: Seq<char>) -> bool {
    w.len() > 0 && forall|j: int| 0 <= j < w.len() ==> !is_white_space(#[trigger] w[j])
}

/// Every word `words` finds is a word.
pub proof fn lemma_words_are_words(s: Seq<char>)
    ensures
        forall|k: int| 0 <= k < words(s).len() ==> is_plain_word(#[trigger] words(s)[k]),
    decreases s.len(),
{
    if s.len() > 0 {
        let prev = words(s.drop_last());
        lemma_words_are_words(s.drop_last());
        let c = s.last();
        if !is_white_space(c) {
            if s.len() >= 2 && !is_white_space(s[s.len() - 2]) {
                lemma_words_ends_in_word(s.drop_last());
                let w = prev.last().push(c);
                assert(is_plain_word(prev[prev.len() - 1]));
                assert forall|j: int| 0 <= j < w.len() implies !is_white_space(#[trigger] w[j]) by {
                    if j < w.len() - 1 {
                        assert(w[j] == prev.last()[j]);
                    }
                }
            } else {
                assert(is_plain_word(seq![c]));
            }
        }
    }
}

/// Whitespace splits words: the words of `a`, a whitespace character and
/// `b` are the words of `a` followed by those of `b`.
pub proof fn lemma_words_concat(a: Seq<char>, w: char, b: Seq<char>)
    requires
        is_white_space(w),
    ensures
        words(a + seq![w] + b) == words(a) + words(b),
    decreases b.len(),
{
    let s = a + seq![w] + b;
    if b.len() == 0 {
        assert(s.drop_last() =~= a);
        assert(words(b) =~= Seq::<Seq<char>>::empty());
        assert(words(a) + words(b) =~= words(a));
    } else {
        let b1 = b.drop_last();
        assert(s.drop_last() =~= a + seq![w] + b1);
        lemma_words_concat(a, w, b1);
        let x = words(a);
        let y = words(b1);
        let c = b.last();
        assert(s.last() == c);
        if is_white_space(c) {
        } else if s.len() >= 2 && !is_white_space(s[s.len() - 2]) {
            assert(b.len() >= 2) by {
                if b.len() == 1 {
                    assert(s[s.len() - 2] == w);
                }
            }
            assert(s[s.len() - 2] == b[b.len() - 2]);
            assert(b1.last() == b[b.len() - 2]);
            lemma_words_ends_in_word(b1);
            let v = y.last().push(c);
            assert((x + y).last() == y.last());
            assert((x + y).update((x + y).len() - 1, v) =~= x + y.update(y.len() - 1, v));
        } else {
            if b.len() >= 2 {
                assert(s[s.len() - 2] == b[b.len() - 2]);
            }
            assert((x + y).push(seq![c]) =~= x + y.push(seq![c]));
        }
    }
}

/// A word on its own is its only word.
pub proof fn lemma_words_of_word(v: Seq<char>)
    requires
        is_plain_word(v),
    ensures
        words(v) == seq![v],
    decreases v.len(),
{
    assert(!is_white_space(v[v.len() - 1]));
    if v.len() == 1 {
        assert(v.drop_last() =~= Seq::<char>::empty());
        assert(words(v.drop_last()) =~= Seq::<Seq<char>>::empty());
        assert(v =~= seq![v[0]]);
        assert(Seq::<Seq<char>>::empty().push(seq![v.last()]) =~= seq![v]);
    } else {
        let u = v.drop_last();
        assert(is_plain_word(u)) by {
            assert forall|j: int| 0 <= j < u.len() implies !is_white_space(#[trigger] u[j]) by {
                assert(u[j] == v[j]);
            }
        }
        lemma_words_of_word(u);
        assert(!is_white_space(v[v.len() - 2]));
        assert(u.push(v.last()) =~= v);
        assert(seq![u].update(0, u.push(v.last())) =~= seq![v]);
    }
}

/// Joining words with single spaces and splitting the result gives the
/// words back.
pub proof fn lemma_words_join(ws: Seq<Seq<char>>)
    requires
        forall|k: int| 0 <= k < ws.len() ==> is_plain_word(#[trigger] ws[k]),
    ensures
        words(join(ws, " "@)) == ws,
    decreases ws.len(),
{
    reveal_strlit(" ");
    if ws.len() == 0 {
        assert(words(Seq::<char>::empty()) =~= Seq::<Seq<char>>::empty());
    } else if ws.len() == 1 {
        assert(is_plain_word(ws[0]));
        lemma_words_of_word(ws[0]);
        assert(seq![ws[0]] =~= ws);
    } else {
        let init = ws.drop_last();
        assert forall|k: int| 0 <= k < init.len() implies is_plain_word(#[trigger] init[k]) by {
            assert(init[k] == ws[k]);
        }
        lemma_words_join(init);
        assert(is_plain_word(ws[ws.len() - 1]));
        lemma_words_of_word(ws.last());
        assert(" "@ =~= seq![' ']);
        lemma_words_concat(join(init, " "@), ' ', ws.last());
        assert(join(ws, " "@) == join(init, " "@) + seq![' '] + ws.last());
        assert(init + seq![ws.last()] =~= ws);
    }
}

proof fn lemma_last_space(t: Seq<char>, k: int) -> (i: int)
    requires
        0 <= k <= t.len(),
        exists|j: int| 0 <= j < k && t[j] == ' ',
    ensures
        0 <= i < k && t[i] == ' ',
        forall|j: int| i < j < k ==> t[j] != ' ',
    decreases k,
{
    if t[k - 1] == ' ' {
        k - 1
    } else {
        let w = choose|j: int| 0 <= j < k && t[j] == ' ';
        assert(w < k - 1);
        lemma_last_space(t, k - 1)
    }
}

/// Text of single-space-separated words is what joining its words with
/// single spaces gives.
pub proof fn lemma_join_words(t: Seq<char>)
    requires
        single_spaced(t),
    ensures
        join(words(t), " "@) == t,
    decreases t.len(),
{
    reveal_strlit(" ");
    assert(" "@ =~= seq![' ']);
    if exists|j: int| 0 <= j < t.len() && t[j] == ' ' {
        let i = lemma_last_space(t, t.len() as int);
        let u = t.take(i);
        let v = t.skip(i + 1);
        assert(i > 0);
        assert(t[i - 1] != ' ');
        assert(single_spaced(u)) by {
            assert(u.last() == t[i - 1]);
            assert forall|j: int| 0 <= j < u.len() implies (is_white_space(#[trigger] u[j]) ==> u[j] == ' ') by {
                assert(u[j] == t[j]);
            }
            assert forall|j: int| 0 <= j < u.len() - 1 implies !(#[trigger] u[j] == ' ' && u[j + 1] == ' ') by {
                assert(u[j] == t[j] && u[j + 1] == t[j + 1]);
            }
        }
        assert(is_plain_word(v)) by {
            assert(i + 1 < t.len());
            assert forall|j: int| 0 <= j < v.len() implies !is_white_space(#[trigger] v[j]) by {
                assert(v[j] == t[i + 1 + j]);
                assert(t[i + 1 + j] != ' ');
            }
        }
        assert(t =~= u + seq![' '] + v);
        lemma_words_concat(u, ' ', v);
        lemma_words_of_word(v);
        lemma_join_words(u);
        lemma_words_ends_in_word(u);
        let wu = words(u);
        assert((wu + seq![v]).drop_last() =~= wu);
        assert((wu + seq![v]).last() == v);
    } else {
        assert(is_plain_word(t)) by {
            assert forall|j: int| 0 <= j < t.len() implies !is_white_space(#[trigger] t[j]) by {
                assert(t[j] != ' ');
            }
        }
        lemma_words_of_word(t);
    }
}

/// Words separated by exactly one space, with no other whitespace.
pub open spec fn single_spaced(t: Seq<char>) -> bool {
    &&& t.len() > 0 && t[0] != ' ' && t.last() != ' '
    &&& forall|i: int| 0 <= i < t.len() ==> (is_white_space(#[trigger] t[i]) ==> t[i] == ' ')
    &&& forall|i: int| 0 <= i < t.len() - 1 ==> !(#[trigger] t[i] == ' ' && t[i + 1] == ' ')
}

} // verus!
