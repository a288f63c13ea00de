//! Fuzzy matching of chat titles and ranking of matches.

use vstd::prelude::*;
use crate::text::{chars_of, to_lowercase, lowercase, is_white_space, char_is_whitespace};
use crate::models::Chat;

verus! {

broadcast use vstd::string::group_string_axioms;

/// First index `j >= p` at which `h` holds `c`.
pub open spec fn find_from(h: Seq<char>, c: char, p: int) -> Option<int>
    decreases h.len() - p,
{
    if p < 0 || p >= h.len() {
        None
    } else if h[p] == c {
        Some(p)
    } else {
        find_from(h, c, p + 1)
    }
}

/// A match at index `j` starts a word: it is the first character or follows
/// whitespace, `_` or `-`.
pub open spec fn at_word_boundary(h: Seq<char>, j: int) -> bool {
    j == 0 || is_white_space(h[j - 1]) || h[j - 1] == '_' || h[j - 1] == '-'
}

/// Points for matching needle character `i` at haystack index `j`, where the
/// search started at `p` (just past the previous match): one for the match,
/// ten when it directly follows the previous match, fifteen at a word start.
pub open spec fn match_points(h: Seq<char>, i: int, j: int, p: int) -> int {
    1 + (if i > 0 && j == p { 10int } else { 0int }) + (if at_word_boundary(h, j) { 15int } else { 0int })
}

/// Score of greedily matching `n[i..]` in order against `h[p..]`, each needle
/// character taking the first occurrence after the previous match; `None`
/// when some character has no occurrence left.
pub open spec fn fuzzy_from(h: Seq<char>, n: Seq<char>, i: int, p: int) -> Option<int>
    decreases n.len() - i, h.len() - p,
{
    if i < 0 || i >= n.len() {
        Some(0)
    } else {
        match find_from(h, n[i], p) {
            None => None,
            Some(j) => if j + 1 > p {
                match fuzzy_from(h, n, i + 1, j + 1) {
                    None => None,
                    Some(rest) => Some(match_points(h, i, j, p) + rest),
                }
            } else {
                None
            },
        }
    }
}

/// Points collected by the greedy matching of `n[i..]` against `h[p..]`
/// until it ends or fails: the largest running score the match reaches.
pub open spec fn fuzzy_progress(h: Seq<char>, n: Seq<char>, i: int, p: int) -> int
    decreases n.len() - i, h.len() - p,
{
    if i < 0 || i >= n.len() {
        0
    } else {
        match find_from(h, n[i], p) {
            None => 0,
            Some(j) => if j + 1 > p {
                match_points(h, i, j, p) + fuzzy_progress(h, n, i + 1, j + 1)
            } else {
                0
            },
        }
    }
}

/// Fuzzy score of `needle` in `haystack`, both compared lowercased; an empty
/// needle scores zero.
pub open spec fn fuzzy_score(haystack: Seq<char>, needle: Seq<char>) -> Option<int> {
    if needle.len() == 0 {
        Some(0)
    } else {
        fuzzy_from(lowercase(haystack), lowercase(needle), 0, 0)
    }
}

/// The running score of matching `needle` in `haystack` never leaves the
/// `i32` it is kept in.
pub open spec fn score_fits(haystack: Seq<char>, needle: Seq<char>) -> bool {
    needle.len() == 0 || fuzzy_progress(lowercase(haystack), lowercase(needle), 0, 0) <= i32::MAX
}

proof fn lemma_find_from(h: Seq<char>, c: char, p: int)
    requires
        0 <= p,
    ensures
        find_from(h, c, p) matches Some(j) ==> p <= j < h.len() && h[j] == c && forall|k: int|
            p <= k < j ==> h[k] != c,
        find_from(h, c, p) is None ==> forall|k: int| p <= k < h.len() ==> h[k] != c,
    decreases h.len() - p,
{
    if p < h.len() && h[p] != c {
        lemma_find_from(h, c, p + 1);
    }
}

proof fn lemma_fuzzy_bound(h: Seq<char>, n: Seq<char>, i: int, p: int)
    requires
        0 <= i <= n.len(),
        0 <= p,
    ensures
        fuzzy_from(h, n, i, p) matches Some(s) ==> s == fuzzy_progress(h, n, i, p),
        0 <= fuzzy_progress(h, n, i, p) <= 26 * (n.len() - i),
    decreases n.len() - i, h.len() - p,
{
    if i < n.len() {
        lemma_find_from(h, n[i], p);
        match find_from(h, n[i], p) {
            None => {},
            Some(j) => {
                lemma_fuzzy_bound(h, n, i + 1, j + 1);
            },
        }
    }
}

/// A lowered needle short enough that no score can overflow an `i32`
/// bounds every score against any haystack.
pub proof fn lemma_short_needle_fits(haystack: Seq<char>, needle: Seq<char>)
    requires
        26 * lowercase(needle).len() <= i32::MAX,
    ensures
        score_fits(haystack, needle),
{
    if needle.len() > 0 {
        lemma_fuzzy_bound(lowercase(haystack), lowercase(needle), 0, 0);
    }
}

/// Simple fuzzy matching: `Some(score)` when all characters of `needle`
/// appear in `haystack` in order (case-insensitively), `None` otherwise.
pub fn fuzzy_match(haystack: &str, needle: &str) -> (r: Option<i32>)
    requires
        score_fits(haystack@, needle@),
    ensures
        r matches Some(s) ==> fuzzy_score(haystack@, needle@) == Some(s as int),
        r is None ==> fuzzy_score(haystack@, needle@) is None,
{
    if needle.is_empty() {
        return Some(0);
    }
    let hl = to_lowercase(haystack);
    let nl = to_lowercase(needle);
    let h = chars_of(hl.as_str());
    let n = chars_of(nl.as_str());
    let ghost hs = h@;
    let ghost ns = n@;
    let mut score: i32 = 0;
    let mut last_match_pos: usize = 0;
    let mut i: usize = 0;
    proof {
        lemma_fuzzy_bound(hs, ns, 0, 0);
    }
    while i < n.len()
        invariant
            hs == h@,
            ns == n@,
            hs == lowercase(haystack@),
            ns == lowercase(needle@),
            needle@.len() > 0,
            i <= ns.len(),
            last_match_pos <= hs.len(),
            fuzzy_progress(hs, ns, 0, 0) <= i32::MAX,
            fuzzy_progress(hs, ns, 0, 0) == score + fuzzy_progress(hs, ns, i as int, last_match_pos as int),
            fuzzy_from(hs, ns, 0, 0) == match fuzzy_from(hs, ns, i as int, last_match_pos as int) {
                None => None,
                Some(rest) => Some(score + rest),
            },
            0 <= score,
        decreases ns.len() - i,
    {
        let c = n[i];
        proof {
            lemma_find_from(hs, c, last_match_pos as int);
            lemma_fuzzy_bound(hs, ns, i as int, last_match_pos as int);
        }
        let mut pos = last_match_pos;
        let mut found = false;
        while pos < h.len()
            invariant_except_break
                !found,
            invariant
                hs == h@,
                last_match_pos <= pos <= hs.len(),
                forall|k: int| last_match_pos <= k < pos ==> hs[k] != c,
                c == ns[i as int],
            ensures
                last_match_pos <= pos <= hs.len(),
                forall|k: int| last_match_pos <= k < pos ==> hs[k] != c,
                found ==> pos < hs.len() && hs[pos as int] == c,
                !found ==> pos == hs.len(),
            decreases hs.len() - pos,
        {
            if h[pos] == c {
                found = true;
                break;
            }
            pos = pos + 1;
        }
        if !found {
            assert(find_from(hs, c, last_match_pos as int) is None);
            return None;
        }
        let ghost j = pos as int;
        assert(find_from(hs, c, last_match_pos as int) == Some(j));
        let boundary = if pos == 0 {
            true
        } else {
            let prev = h[pos - 1];
            char_is_whitespace(prev) || prev == '_' || prev == '-'
        };
        assert(boundary == at_word_boundary(hs, j));
        let consecutive = i > 0 && pos == last_match_pos;
        let points: i32 = 1 + (if consecutive { 10i32 } else { 0i32 }) + (if boundary { 15i32 } else { 0i32 });
        assert(points == match_points(hs, i as int, j, last_match_pos as int));
        proof {
            lemma_fuzzy_bound(hs, ns, i + 1, j + 1);
        }
        score = score + points;
        last_match_pos = pos + 1;
        i = i + 1;
    }
    Some(score)
}

/// Index of each chat whose title matches `query`, paired with its score.
pub open spec fn chat_score(chats: Seq<Chat>, query: Seq<char>, i: int) -> Option<int> {
    fuzzy_score(chats[i].title@, query)
}

/// `a` is ranked strictly before `b`: a higher score, or an equal score and
/// an earlier position in the chat list.
pub open spec fn ranked_before(sa: int, a: int, sb: int, b: int) -> bool {
    sa > sb || (sa == sb && a < b)
}

/// `r` lists exactly the chats that match `query`, best score first and,
/// among equal scores, in list order.
pub open spec fn is_ranking(chats: Seq<Chat>, query: Seq<char>, r: Seq<usize>) -> bool {
    &&& forall|k: int| 0 <= k < r.len() ==> r[k] < chats.len() && chat_score(chats, query, r[k] as int) is Some
    &&& forall|i: int| 0 <= i < chats.len() && chat_score(chats, query, i) is Some ==> r.contains(i as usize)
    &&& forall|j: int, k: int| 0 <= j < k < r.len() ==> ranked_before(
        chat_score(chats, query, r[j] as int)->0,
        r[j] as int,
        chat_score(chats, query, r[k] as int)->0,
        r[k] as int,
    )
}

/// Filters chats by fuzzy-matching their titles and ranks the matches by
/// score (descending, stable); an empty query keeps every chat in order.
pub fn filter_chats(chats: &[Chat], query: &str) -> (r: Vec<usize>)
    requires
        forall|i: int| 0 <= i < chats@.len() ==> score_fits(#[trigger] chats@[i].title@, query@),
    ensures
        query@.len() == 0 ==> r@ == Seq::new(chats@.len(), |i: int| i as usize),
        is_ranking(chats@, query@, r@),
{
    let n = chats.len();
    if query.is_empty() {
        let mut all: Vec<usize> = Vec::new();
        let mut i: usize = 0;
        while i < n
            invariant
                n == chats@.len(),
                i <= n,
                all@ == Seq::new(i as nat, |k: int| k as usize),
            decreases n - i,
        {
            all.push(i);
            i = i + 1;
            assert(all@ == Seq::new(i as nat, |k: int| k as usize));
        }
        assert forall|k: int| 0 <= k < n implies chat_score(chats@, query@, k) is Some by {}
        assert forall|k: int| 0 <= k < n implies #[trigger] all@.contains(k as usize) by {
            assert(all@[k] == k as usize);
        }
        return all;
    }
    // (index, score) pairs kept sorted by rank
    let mut ranked: Vec<(usize, i32)> = Vec::new();
    let mut i: usize = 0;
    while i < n
        invariant
            n == chats@.len(),
            i <= n,
            forall|k: int| 0 <= k < n ==> score_fits(#[trigger] chats@[k].title@, query@),
            forall|k: int| 0 <= k < ranked@.len() ==> ranked@[k].0 < i && chat_score(chats@, query@, ranked@[k].0 as int) == Some(ranked@[k].1 as int),
            forall|k: int| 0 <= k < i && chat_score(chats@, query@, k) is Some ==> exists|m: int| 0 <= m < ranked@.len() && ranked@[m].0 == k as usize,
            forall|j: int, k: int| 0 <= j < k < ranked@.len() ==> ranked_before(ranked@[j].1 as int, ranked@[j].0 as int, ranked@[k].1 as int, ranked@[k].0 as int),
        decreases n - i,
    {
        let m = fuzzy_match(chats[i].title.as_str(), query);
        match m {
            None => {},
            Some(score) => {
                let len = ranked.len();
                let mut pos: usize = 0;
                while pos < len && ranked[pos].1 >= score
                    invariant
                        len == ranked@.len(),
                        pos <= len,
                        forall|k: int| 0 <= k < pos ==> ranked@[k].1 >= score,
                    decreases len - pos,
                {
                    pos = pos + 1;
                }
                proof {
                    // everything after `pos` ranks below the new entry
                    assert forall|k: int| pos <= k < len implies ranked@[k].1 < score by {
                        if k > pos {
                            assert(ranked_before(ranked@[pos as int].1 as int, ranked@[pos as int].0 as int, ranked@[k].1 as int, ranked@[k].0 as int));
                        }
                    }
                }
                let ghost old_ranked = ranked@;
                ranked.insert(pos, (i, score));
                proof {
                    assert forall|k: int| 0 <= k < old_ranked.len() implies ranked@[if k < pos { k } else { k + 1 }] == old_ranked[k] by {}
                    assert forall|k: int| 0 <= k < i + 1 && chat_score(chats@, query@, k) is Some implies exists|mm: int| 0 <= mm < ranked@.len() && ranked@[mm].0 == k as usize by {
                        if k == i {
                            assert(ranked@[pos as int].0 == k as usize);
                        } else {
                            let mm = choose|mm: int| 0 <= mm < old_ranked.len() && old_ranked[mm].0 == k as usize;
                            let nm = if mm < pos { mm } else { mm + 1 };
                            assert(ranked@[nm].0 == k as usize);
                        }
                    }
                }
            },
        }
        proof {
            if m is None {
                assert forall|k: int| 0 <= k < i + 1 && chat_score(chats@, query@, k) is Some implies exists|mm: int| 0 <= mm < ranked@.len() && ranked@[mm].0 == k as usize by {
                    if k == i {
                        assert(false);
                    }
                }
            }
        }
        i = i + 1;
    }
    let mut out: Vec<usize> = Vec::new();
    let len = ranked.len();
    let mut k: usize = 0;
    while k < len
        invariant
            len == ranked@.len(),
            k <= len,
            out@ == Seq::new(k as nat, |j: int| ranked@[j].0),
        decreases len - k,
    {
        out.push(ranked[k].0);
        k = k + 1;
        assert(out@ == Seq::new(k as nat, |j: int| ranked@[j].0));
    }
    proof {
        assert forall|ci: int| 0 <= ci < n && chat_score(chats@, query@, ci) is Some implies #[trigger] out@.contains(ci as usize) by {
            let mm = choose|mm: int| 0 <= mm < ranked@.len() && ranked@[mm].0 == ci as usize;
            assert(out@[mm] == ci as usize);
        }
    }
    out
}

/// Filters and ranks chats like [`filter_chats`] when the lowercased query is
/// short enough (at most 82,595,524 characters) that no running score can
/// overflow; returns `None` for longer queries.
pub fn filter_chats_guarded(chats: &[Chat], query: &str) -> (r: Option<Vec<usize>>)
    ensures
        r is Some <==> 26 * lowercase(query@).len() <= i32::MAX,
        r matches Some(v) ==> is_ranking(chats@, query@, v@),
        r matches Some(v) ==> (query@.len() == 0 ==> v@ == Seq::new(chats@.len(), |i: int| i as usize)),
{
    let lowered = to_lowercase(query);
    let len = chars_of(lowered.as_str()).len();
    if len > 82_595_524 {
        return None;
    }
    proof {
        assert forall|i: int| 0 <= i < chats@.len() implies score_fits(#[trigger] chats@[i].title@, query@) by {
            lemma_short_needle_fits(chats@[i].title@, query@);
        }
    }
    Some(filter_chats(chats, query))
}

/// `f` places `n[i..]` in order at strictly increasing positions of `h`, all
/// at or after `p`.
pub open spec fn is_embedding(h: Seq<char>, n: Seq<char>, i: int, p: int, f: Seq<int>) -> bool {
    &&& f.len() == n.len() - i
    &&& forall|k: int| 0 <= k < f.len() ==> p <= #[trigger] f[k] < h.len() && h[f[k]] == n[i + k]
    &&& forall|k: int| 0 <= k < f.len() - 1 ==> #[trigger] f[k] < f[k + 1]
}

/// `n[i..]` occurs in order in `h[p..]` (not necessarily contiguously).
pub open spec fn embeds(h: Seq<char>, n: Seq<char>, i: int, p: int) -> bool {
    exists|f: Seq<int>| #[trigger] is_embedding(h, n, i, p, f)
}

proof fn lemma_greedy_embeds(h: Seq<char>, n: Seq<char>, i: int, p: int)
    requires
        0 <= i <= n.len(),
        0 <= p,
        fuzzy_from(h, n, i, p) is Some,
    ensures
        embeds(h, n, i, p),
    decreases n.len() - i,
{
    if i == n.len() {
        assert(is_embedding(h, n, i, p, Seq::<int>::empty()));
    } else {
        lemma_find_from(h, n[i], p);
        let j = find_from(h, n[i], p)->0;
        assert(p <= j < h.len() && h[j] == n[i]);
        assert(fuzzy_from(h, n, i + 1, j + 1) is Some);
        lemma_greedy_embeds(h, n, i + 1, j + 1);
        let g = choose|g: Seq<int>| #[trigger] is_embedding(h, n, i + 1, j + 1, g);
        lemma_extend_embedding(h, n, i, p, j, g);
    }
}

proof fn lemma_extend_embedding(h: Seq<char>, n: Seq<char>, i: int, p: int, j: int, g: Seq<int>)
    requires
        0 <= i < n.len(),
        p <= j < h.len(),
        h[j] == n[i],
        is_embedding(h, n, i + 1, j + 1, g),
    ensures
        embeds(h, n, i, p),
{
    let f = seq![j] + g;
    assert forall|k: int| 0 <= k < f.len() implies p <= #[trigger] f[k] < h.len() && h[f[k]] == n[i + k] by {
        if k > 0 {
            assert(f[k] == g[k - 1]);
        }
    }
    assert forall|k: int| 0 <= k < f.len() - 1 implies #[trigger] f[k] < f[k + 1] by {
        if k > 0 {
            assert(f[k] == g[k - 1] && f[k + 1] == g[k]);
        } else {
            assert(f[1] == g[0]);
        }
    }
    assert(is_embedding(h, n, i, p, f));
}

proof fn lemma_embeds_greedy(h: Seq<char>, n: Seq<char>, i: int, p: int, f: Seq<int>)
    requires
        0 <= i <= n.len(),
        0 <= p,
        is_embedding(h, n, i, p, f),
    ensures
        fuzzy_from(h, n, i, p) is Some,
    decreases n.len() - i,
{
    if i < n.len() {
        assert(p <= f[0] < h.len() && h[f[0]] == n[i + 0]);
        lemma_find_from(h, n[i], p);
        let j = find_from(h, n[i], p)->0;
        assert(j <= f[0]);
        let g = f.drop_first();
        assert forall|k: int| 0 <= k < g.len() implies j + 1 <= #[trigger] g[k] < h.len() && h[g[k]] == n[i + 1 + k] by {
            assert(g[k] == f[k + 1]);
            assert(f[k] < f[k + 1] || k + 1 == 0);
            lemma_embedding_increasing(f, 0, k + 1);
        }
        assert forall|k: int| 0 <= k < g.len() - 1 implies #[trigger] g[k] < g[k + 1] by {
            assert(g[k] == f[k + 1] && g[k + 1] == f[k + 2]);
        }
        lemma_embeds_greedy(h, n, i + 1, j + 1, g);
    }
}

proof fn lemma_embedding_increasing(f: Seq<int>, a: int, b: int)
    requires
        0 <= a < b < f.len(),
        forall|k: int| 0 <= k < f.len() - 1 ==> #[trigger] f[k] < f[k + 1],
    ensures
        f[a] < f[b],
    decreases b - a,
{
    if b > a + 1 {
        lemma_embedding_increasing(f, a, b - 1);
        assert(f[b - 1] < f[b]);
    }
}

/// A needle matches exactly when its lowercased characters occur in order
/// in the lowercased haystack (an empty needle always matches).
pub proof fn lemma_match_iff_subsequence(haystack: Seq<char>, needle: Seq<char>)
    ensures
        fuzzy_score(haystack, needle) is Some <==> (needle.len() == 0 || embeds(lowercase(haystack), lowercase(needle), 0, 0)),
{
    if needle.len() > 0 {
        let h = lowercase(haystack);
        let n = lowercase(needle);
        if fuzzy_from(h, n, 0, 0) is Some {
            lemma_greedy_embeds(h, n, 0, 0);
        }
        if embeds(h, n, 0, 0) {
            let f = choose|f: Seq<int>| #[trigger] is_embedding(h, n, 0, 0, f);
            lemma_embeds_greedy(h, n, 0, 0, f);
        }
    }
}

} // verus!
