//! OAuth token handling: the authorization URL, reading the token out of
//! the redirect URL the user pastes, and the token the session keeps.

use vstd::prelude::*;
use crate::text::{chars_of, string_of, string_from_chars, push_str, decimal, nat_digits, digit_char};

verus! {

broadcast use vstd::string::group_string_axioms;

/// Token data stored on disk.
#[derive(Debug)]
pub struct TokenData {
    pub access_token: String,
    pub user_id: i64,
    pub expires_at: Option<i64>,
}

impl Clone for TokenData {
    fn clone(&self) -> (r: Self)
        ensures
            r == *self,
    {
        TokenData { access_token: self.access_token.clone(), user_id: self.user_id, expires_at: self.expires_at }
    }
}

/// Authentication state: where the token is kept and the token itself.
#[derive(Debug)]
pub struct AuthManager {
    pub config_path: String,
    pub token: Option<TokenData>,
}

/// The OAuth page the user opens to authorize the client.
pub open spec fn auth_url() -> Seq<char> {
    "https://oauth.vk.com/authorize?client_id=6287487&display=page&redirect_uri=https://oauth.vk.com/blank.html&scope=messages,friends,photos,offline&response_type=token&v=5.199"@
}

impl AuthManager {
    /// Whether a token is present.
    pub fn is_authenticated(&self) -> (r: bool)
        ensures
            r == self.token is Some,
    {
        self.token.is_some()
    }

    /// The access token, if any.
    pub fn access_token(&self) -> (r: Option<&str>)
        ensures
            match self.token {
                Some(t) => r matches Some(s) && s@ == t.access_token@,
                None => r is None,
            },
    {
        match &self.token {
            Some(t) => Some(t.access_token.as_str()),
            None => None,
        }
    }

    /// The authorized user's id, if any.
    pub fn user_id(&self) -> (r: Option<i64>)
        ensures
            r == match self.token { Some(t) => Some(t.user_id), None => None },
    {
        match &self.token {
            Some(t) => Some(t.user_id),
            None => None,
        }
    }

    /// The OAuth URL for the user to authenticate with.
    pub fn get_auth_url() -> (r: String)
        ensures
            r@ == auth_url(),
    {
        string_of("https://oauth.vk.com/authorize?client_id=6287487&display=page&redirect_uri=https://oauth.vk.com/blank.html&scope=messages,friends,photos,offline&response_type=token&v=5.199")
    }
}

/// The segments of `s` between occurrences of `sep` (as `str::split` with a
/// char): one more segment than there are separators.
pub open spec fn split_on(s: Seq<char>, sep: char) -> Seq<Seq<char>>
    decreases s.len(),
{
    if s.len() == 0 {
        seq![seq![]]
    } else {
        let prev = split_on(s.drop_last(), sep);
        if s.last() == sep {
            prev.push(seq![])
        } else {
            prev.update(prev.len() - 1, prev.last().push(s.last()))
        }
    }
}

proof fn lemma_split_nonempty(s: Seq<char>, sep: char)
    ensures
        split_on(s, sep).len() >= 1,
    decreases s.len(),
{
    if s.len() > 0 {
        lemma_split_nonempty(s.drop_last(), sep);
    }
}

/// Splits `s` at every `sep`.
pub fn split_chars(s: &[char], sep: char) -> (r: Vec<Vec<char>>)
    ensures
        crate::text::seqs_of(r@) == split_on(s@, sep),
{
    let n = s.len();
    let mut done: Vec<Vec<char>> = Vec::new();
    let mut cur: Vec<char> = Vec::new();
    let mut i: usize = 0;
    assert(s@.take(0) == Seq::<char>::empty());
    while i < n
        invariant
            n == s@.len(),
            i <= n,
            split_on(s@.take(i as int), sep) == crate::text::seqs_of(done@).push(cur@),
        decreases n - i,
    {
        let c = s[i];
        proof {
            assert(s@.take(i + 1).drop_last() == s@.take(i as int));
            assert(s@.take(i + 1).last() == c);
        }
        if c == sep {
            let w = cur;
            done.push(w);
            cur = Vec::new();
            assert(crate::text::seqs_of(done@) == crate::text::seqs_of(done@.drop_last()).push(w@));
        } else {
            cur.push(c);
        }
        i = i + 1;
    }
    let w = cur;
    done.push(w);
    assert(crate::text::seqs_of(done@) == crate::text::seqs_of(done@.drop_last()).push(w@));
    assert(s@.take(n as int) == s@);
    done
}

/// Value of a decimal digit character.
pub open spec fn digit_value(c: char) -> int {
    (c as int) - ('0' as int)
}

/// Whether `c` is an ASCII decimal digit.
pub open spec fn is_digit(c: char) -> bool {
    '0' <= c <= '9'
}

/// Value of a non-empty run of decimal digits.
pub open spec fn digits_value(s: Seq<char>) -> int
    decreases s.len(),
{
    if s.len() == 0 {
        0
    } else {
        digits_value(s.drop_last()) * 10 + digit_value(s.last())
    }
}

/// Every character of `s` is a decimal digit.
pub open spec fn all_digits(s: Seq<char>) -> bool {
    forall|i: int| 0 <= i < s.len() ==> is_digit(#[trigger] s[i])
}

/// The integer a string denotes under `str::parse::<i64>`: an optional `+`
/// or `-` followed by at least one decimal digit, within the `i64` range.
pub open spec fn parse_i64_spec(s: Seq<char>) -> Option<int> {
    let neg = s.len() > 0 && s[0] == '-';
    let signed = s.len() > 0 && (s[0] == '-' || s[0] == '+');
    let digits = if signed { s.drop_first() } else { s };
    if digits.len() == 0 || !all_digits(digits) {
        None
    } else {
        let v = if neg { -digits_value(digits) } else { digits_value(digits) };
        if i64::MIN <= v <= i64::MAX { Some(v) } else { None }
    }
}

proof fn lemma_digits_value_nonneg(s: Seq<char>)
    requires
        forall|i: int| 0 <= i < s.len() ==> is_digit(#[trigger] s[i]),
    ensures
        digits_value(s) >= 0,
    decreases s.len(),
{
    if s.len() > 0 {
        lemma_digits_value_nonneg(s.drop_last());
    }
}

proof fn lemma_digits_value_monotone(s: Seq<char>, k: int)
    requires
        0 <= k <= s.len(),
        forall|i: int| 0 <= i < s.len() ==> is_digit(#[trigger] s[i]),
    ensures
        digits_value(s.take(k)) <= digits_value(s),
    decreases s.len() - k,
{
    if k < s.len() {
        assert(s.drop_last().take(k) == s.take(k));
        lemma_digits_value_monotone(s.drop_last(), k);
        lemma_digits_value_nonneg(s.drop_last());
    } else {
        assert(s.take(k) == s);
    }
}

/// Parses a decimal `i64` the way `str::parse::<i64>` does.
pub fn parse_i64(s: &[char]) -> (r: Option<i64>)
    ensures
        r matches Some(v) ==> parse_i64_spec(s@) == Some(v as int),
        r is None ==> parse_i64_spec(s@) is None,
{
    let n = s.len();
    if n == 0 {
        return None;
    }
    let neg = s[0] == '-';
    let start: usize = if s[0] == '-' || s[0] == '+' { 1 } else { 0 };
    let ghost digits = s@.skip(start as int);
    proof {
        if start == 1 {
            assert(s@.skip(1) == s@.drop_first());
        } else {
            assert(s@.skip(0) == s@);
        }
    }
    if start >= n {
        assert(digits.len() == 0);
        return None;
    }
    // accumulate the magnitude, stopping once it exceeds the i64 range
    let mut acc: u64 = 0;
    let mut i: usize = start;
    while i < n
        invariant
            n == s@.len(),
            start <= i <= n,
            digits == s@.skip(start as int),
            n > 0,
            digits == (if s@[0] == '-' || s@[0] == '+' { s@.drop_first() } else { s@ }),
            forall|k: int| 0 <= k < i - start ==> is_digit(#[trigger] digits[k]),
            acc == digits_value(digits.take(i - start)),
            acc <= 9223372036854775808u64,
        decreases n - i,
    {
        let c = s[i];
        if c < '0' || c > '9' {
            proof {
                let sd = if s@.len() > 0 && (s@[0] == '-' || s@[0] == '+') { s@.drop_first() } else { s@ };
                assert(sd == digits);
                assert(!is_digit(sd[i - start]));
                assert(!all_digits(sd));
            }
            return None;
        }
        let d = (c as u32 - '0' as u32) as u64;
        assert(digits.take(i - start + 1).drop_last() == digits.take(i - start));
        assert(digits.take(i - start + 1).last() == c);
        if acc > 922337203685477580u64 || (acc == 922337203685477580u64 && d > 8) {
            // the magnitude is already beyond any i64
            proof {
                let k = i - start + 1;
                assert(digits_value(digits.take(k)) == acc * 10 + d);
                assert(digits_value(digits.take(k)) > 9223372036854775808);
                if all_digits(digits) {
                    lemma_digits_value_monotone(digits, k);
                    assert(digits_value(digits) > 9223372036854775808);
                }
            }
            return None;
        }
        acc = acc * 10 + d;
        i = i + 1;
    }
    assert(digits.take(n - start) == digits);
    proof {
        let sd = if s@.len() > 0 && (s@[0] == '-' || s@[0] == '+') { s@.drop_first() } else { s@ };
        assert(sd == digits);
        assert(all_digits(sd));
        assert(sd.len() > 0);
        assert(neg == (s@.len() > 0 && s@[0] == '-'));
    }
    if neg {
        if acc == 9223372036854775808u64 {
            Some(i64::MIN)
        } else {
            Some(-(acc as i64))
        }
    } else {
        if acc > 9223372036854775807u64 {
            None
        } else {
            Some(acc as i64)
        }
    }
}

/// Key and value of one `key=value` pair: the text before the first `=`
/// and the text between the first and second `=` (empty when missing).
pub open spec fn pair_key(pair: Seq<char>) -> Seq<char> {
    split_on(pair, '=')[0]
}

pub open spec fn pair_value(pair: Seq<char>) -> Seq<char> {
    if split_on(pair, '=').len() > 1 { split_on(pair, '=')[1] } else { seq![] }
}

/// The fields read from the `&`-separated pairs of a fragment.
pub open spec fn fields_of(pairs: Seq<Seq<char>>) -> (Option<Seq<char>>, Option<Option<int>>, Option<Option<int>>)
    decreases pairs.len(),
{
    if pairs.len() == 0 {
        (None, None, None)
    } else {
        let prev = fields_of(pairs.drop_last());
        let k = pair_key(pairs.last());
        let v = pair_value(pairs.last());
        if k == "access_token"@ {
            (Some(v), prev.1, prev.2)
        } else if k == "user_id"@ {
            (prev.0, Some(parse_i64_spec(v)), prev.2)
        } else if k == "expires_in"@ {
            (prev.0, prev.1, Some(parse_i64_spec(v)))
        } else {
            prev
        }
    }
}

/// Why a pasted redirect URL yields no token.
#[derive(Debug, Clone, Copy, PartialEq, Eq, Structural)]
pub enum TokenUrlError {
    /// There is no `#` fragment.
    NoFragment,
    /// The fragment has no `access_token`.
    NoAccessToken,
    /// The fragment has no `user_id` that parses.
    NoUserId,
}

impl TokenUrlError {
    /// The message shown for the error.
    pub fn message(&self) -> (r: String)
        ensures
            *self == TokenUrlError::NoFragment ==> r@ == "No fragment in URL (expected #access_token=...)"@,
            *self == TokenUrlError::NoAccessToken ==> r@ == "No access_token in URL"@,
            *self == TokenUrlError::NoUserId ==> r@ == "No user_id in URL"@,
    {
        match self {
            TokenUrlError::NoFragment => string_of("No fragment in URL (expected #access_token=...)"),
            TokenUrlError::NoAccessToken => string_of("No access_token in URL"),
            TokenUrlError::NoUserId => string_of("No user_id in URL"),
        }
    }
}

/// The token pasted in a redirect URL
/// `https://oauth.vk.com/blank.html#access_token=...&expires_in=...&user_id=...`:
/// the access token, the user id and the lifetime in seconds, if given.
#[derive(Debug)]
pub struct ParsedToken {
    pub access_token: String,
    pub user_id: i64,
    pub expires_in: Option<i64>,
}

/// The token a URL yields: its fragment is the text between the first and
/// second `#`; from its pairs the access token and a parsing user id are
/// required.
pub open spec fn token_of_url(url: Seq<char>) -> Result<(Seq<char>, int, Option<int>), TokenUrlError> {
    let parts = split_on(url, '#');
    if parts.len() < 2 {
        Err(TokenUrlError::NoFragment)
    } else {
        let f = fields_of(split_on(parts[1], '&'));
        match f.0 {
            None => Err(TokenUrlError::NoAccessToken),
            Some(tok) => match f.1 {
                Some(Some(uid)) => Ok((tok, uid, match f.2 { Some(e) => e, None => None })),
                _ => Err(TokenUrlError::NoUserId),
            },
        }
    }
}

/// Reads the token out of a pasted redirect URL. (Completing a scheme-less
/// URL, as `//oauth.vk.com/...` or `oauth.vk.com/...`, adds no `#` and so
/// does not change the fragment read here.)
pub fn parse_token_url(url: &str) -> (r: Result<ParsedToken, TokenUrlError>)
    ensures
        match token_of_url(url@) {
            Ok((tok, uid, exp)) => r matches Ok(t) && t.access_token@ == tok && t.user_id as int == uid
                && match exp { Some(e) => t.expires_in == Some(e as i64), None => t.expires_in is None },
            Err(e) => r == Err::<ParsedToken, TokenUrlError>(e),
        },
{
    let parts = split_chars(chars_of(url).as_slice(), '#');
    if parts.len() < 2 {
        return Err(TokenUrlError::NoFragment);
    }
    let pairs = split_chars(parts[1].as_slice(), '&');
    let ghost pseq = crate::text::seqs_of(pairs@);
    assert(parts[1]@ == split_on(url@, '#')[1]);
    assert(pseq == split_on(split_on(url@, '#')[1], '&'));
    let mut access_token: Option<Vec<char>> = None;
    let mut user_id: Option<Option<i64>> = None;
    let mut expires_in: Option<Option<i64>> = None;
    let key_token = chars_of("access_token");
    let key_user = chars_of("user_id");
    let key_exp = chars_of("expires_in");
    let n = pairs.len();
    let mut i: usize = 0;
    assert(pseq.take(0) == Seq::<Seq<char>>::empty());
    while i < n
        invariant
            n == pairs@.len(),
            i <= n,
            pseq == crate::text::seqs_of(pairs@),
            key_token@ == "access_token"@,
            key_user@ == "user_id"@,
            key_exp@ == "expires_in"@,
            ({
                let f = fields_of(pseq.take(i as int));
                &&& match f.0 { Some(t) => access_token matches Some(a) && a@ == t, None => access_token is None }
                &&& match f.1 {
                    Some(Some(u)) => user_id matches Some(Some(x)) && x as int == u,
                    Some(None) => user_id == Some(None::<i64>),
                    None => user_id is None,
                }
                &&& match f.2 {
                    Some(Some(e)) => expires_in matches Some(Some(x)) && x as int == e,
                    Some(None) => expires_in == Some(None::<i64>),
                    None => expires_in is None,
                }
            }),
        decreases n - i,
    {
        let kv = split_chars(pairs[i].as_slice(), '=');
        proof {
            lemma_split_nonempty(pseq[i as int], '=');
            assert(pseq.take(i + 1).drop_last() == pseq.take(i as int));
            assert(pseq.take(i + 1).last() == pseq[i as int]);
        }
        let key = &kv[0];
        let empty: Vec<char> = Vec::new();
        let value: &Vec<char> = if kv.len() > 1 { &kv[1] } else { &empty };
        assert(key@ == pair_key(pseq[i as int]));
        assert(value@ == pair_value(pseq[i as int]));
        if crate::text::chars_eq(key.as_slice(), key_token.as_slice()) {
            access_token = Some(value.clone());
        } else if crate::text::chars_eq(key.as_slice(), key_user.as_slice()) {
            user_id = Some(parse_i64(value.as_slice()));
        } else if crate::text::chars_eq(key.as_slice(), key_exp.as_slice()) {
            expires_in = Some(parse_i64(value.as_slice()));
        }
        i = i + 1;
    }
    assert(pseq.take(n as int) == pseq);
    let token = match access_token {
        Some(a) => a,
        None => {
            return Err(TokenUrlError::NoAccessToken);
        },
    };
    let uid = match user_id {
        Some(Some(u)) => u,
        _ => {
            return Err(TokenUrlError::NoUserId);
        },
    };
    let exp = match expires_in {
        Some(e) => e,
        None => None,
    };
    Ok(ParsedToken { access_token: string_from_chars(token.as_slice()), user_id: uid, expires_in: exp })
}

/// The stored token for a parsed one, its lifetime counted from `now`.
pub fn token_data_at(parsed: ParsedToken, now: i64) -> (r: TokenData)
    requires
        parsed.expires_in matches Some(e) ==> i64::MIN <= now + e <= i64::MAX,
    ensures
        r.access_token == parsed.access_token,
        r.user_id == parsed.user_id,
        r.expires_at == match parsed.expires_in { Some(e) => Some((now + e) as i64), None => None },
{
    let expires_at = match parsed.expires_in {
        Some(e) => Some(now + e),
        None => None,
    };
    TokenData { access_token: parsed.access_token, user_id: parsed.user_id, expires_at }
}

proof fn lemma_nat_digits_value(m: nat)
    ensures
        nat_digits(m).len() > 0,
        all_digits(nat_digits(m)),
        digits_value(nat_digits(m)) == m,
    decreases m,
{
    if m < 10 {
        assert(digit_value(digit_char(m as int)) == m);
        let d = nat_digits(m);
        assert(d.drop_last() =~= Seq::<char>::empty());
        assert(digits_value(d.drop_last()) == 0);
        assert(d.last() == digit_char(m as int));
    } else {
        lemma_nat_digits_value(m / 10);
        let d = nat_digits(m);
        assert(d.drop_last() =~= nat_digits(m / 10));
        assert(d.last() == digit_char((m % 10) as int));
        assert(digit_value(digit_char((m % 10) as int)) == m % 10);
        assert(digits_value(d) == digits_value(d.drop_last()) * 10 + digit_value(d.last()));
        assert((m / 10) * 10 + m % 10 == m);
        assert forall|i: int| 0 <= i < d.len() implies is_digit(#[trigger] d[i]) by {
            if i < d.len() - 1 {
                assert(d[i] == nat_digits(m / 10)[i]);
            }
        }
    }
}

/// Reading back the decimal rendering of any `i64` gives the number: what
/// `to_string` writes, `parse::<i64>` reads.
pub proof fn lemma_parse_decimal(n: i64)
    ensures
        parse_i64_spec(decimal(n as int)) == Some(n as int),
{
    if n < 0 {
        let m = (-(n as int)) as nat;
        lemma_nat_digits_value(m);
        let s = decimal(n as int);
        assert(s.drop_first() =~= nat_digits(m));
    } else {
        lemma_nat_digits_value(n as nat);
        let s = decimal(n as int);
        assert(is_digit(s[0]));
    }
}


proof fn lemma_split_no_sep(s: Seq<char>, sep: char)
    requires
        forall|i: int| 0 <= i < s.len() ==> s[i] != sep,
    ensures
        split_on(s, sep) == seq![s],
    decreases s.len(),
{
    if s.len() == 0 {
        assert(s =~= Seq::<char>::empty());
    } else {
        lemma_split_no_sep(s.drop_last(), sep);
        assert(s.drop_last().push(s.last()) =~= s);
    }
}

proof fn lemma_split_concat(a: Seq<char>, b: Seq<char>, sep: char)
    ensures
        split_on(a + seq![sep] + b, sep) == split_on(a, sep) + split_on(b, sep),
    decreases b.len(),
{
    let s = a + seq![sep] + b;
    if b.len() == 0 {
        assert(s.drop_last() =~= a);
        assert(split_on(a, sep).push(seq![]) =~= split_on(a, sep) + split_on(b, sep));
    } else {
        assert(s.drop_last() =~= a + seq![sep] + b.drop_last());
        lemma_split_concat(a, b.drop_last(), sep);
        lemma_split_nonempty(b.drop_last(), sep);
        let x = split_on(a, sep);
        let y = split_on(b.drop_last(), sep);
        if b.last() == sep {
            assert((x + y).push(seq![]) =~= x + y.push(seq![]));
        } else {
            let v = y.last().push(b.last());
            assert((x + y).last() == y.last());
            assert((x + y).update((x + y).len() - 1, v) =~= x + y.update(y.len() - 1, v));
        }
    }
}

proof fn lemma_decimal_chars(n: int)
    ensures
        forall|i: int| 0 <= i < decimal(n).len() ==> decimal(n)[i] == '-' || is_digit(#[trigger] decimal(n)[i]),
{
    if n < 0 {
        let m = (-n) as nat;
        lemma_nat_digits_value(m);
        assert forall|i: int| 0 <= i < decimal(n).len() implies decimal(n)[i] == '-' || is_digit(#[trigger] decimal(n)[i]) by {
            if i > 0 {
                assert(decimal(n)[i] == nat_digits(m)[i - 1]);
            }
        }
    } else {
        lemma_nat_digits_value(n as nat);
    }
}

/// The redirect URL the OAuth page sends the user to after authorizing:
/// `https://oauth.vk.com/blank.html#access_token=T&expires_in=E&user_id=U`.
pub open spec fn redirect_url(token: Seq<char>, expires_in: int, user_id: int) -> Seq<char> {
    "https://oauth.vk.com/blank.html#access_token="@ + token + "&expires_in="@ + decimal(expires_in) + "&user_id="@
        + decimal(user_id)
}

/// Pasting the redirect URL gives back what the OAuth page put in it: the
/// token (free of `#`, `&` and `=`), the user id and the lifetime.
pub proof fn lemma_redirect_url_token(token: Seq<char>, expires_in: i64, user_id: i64)
    requires
        forall|i: int| 0 <= i < token.len() ==> token[i] != '#' && token[i] != '&' && token[i] != '=',
    ensures
        token_of_url(redirect_url(token, expires_in as int, user_id as int)) == Ok::<(Seq<char>, int, Option<int>), TokenUrlError>(
            (token, user_id as int, Some(expires_in as int)),
        ),
{
    reveal_strlit("https://oauth.vk.com/blank.html#access_token=");
    reveal_strlit("&expires_in=");
    reveal_strlit("&user_id=");
    reveal_strlit("https://oauth.vk.com/blank.html");
    reveal_strlit("access_token");
    reveal_strlit("expires_in");
    reveal_strlit("user_id");
    let e = decimal(expires_in as int);
    let u = decimal(user_id as int);
    lemma_decimal_chars(expires_in as int);
    lemma_decimal_chars(user_id as int);
    let host = "https://oauth.vk.com/blank.html"@;
    let ka = "access_token"@;
    let ke = "expires_in"@;
    let ku = "user_id"@;
    let pa = ka + seq!['='] + token;
    let pe = ke + seq!['='] + e;
    let pu = ku + seq!['='] + u;
    let frag = pa + seq!['&'] + (pe + seq!['&'] + pu);
    let url = redirect_url(token, expires_in as int, user_id as int);
    assert(url =~= host + seq!['#'] + frag);
    // the fragment is everything after the one '#'
    lemma_split_no_sep(host, '#');
    assert forall|i: int| 0 <= i < frag.len() implies frag[i] != '#' by {
        if i >= pa.len() + 1 + pe.len() + 1 + ku.len() + 1 {
            assert(frag[i] == u[i - (pa.len() + 1 + pe.len() + 1 + ku.len() + 1)]);
        } else if i >= pa.len() + 1 + ke.len() + 1 && i < pa.len() + 1 + pe.len() {
            assert(frag[i] == e[i - (pa.len() + 1 + ke.len() + 1)]);
        } else if i >= ka.len() + 1 && i < pa.len() {
            assert(frag[i] == token[i - (ka.len() + 1)]);
        }
    }
    lemma_split_no_sep(frag, '#');
    lemma_split_concat(host, frag, '#');
    assert(split_on(url, '#') =~= seq![host, frag]);
    // the three pairs
    assert forall|i: int| 0 <= i < pa.len() implies pa[i] != '&' by {
        if i >= ka.len() + 1 {
            assert(pa[i] == token[i - (ka.len() + 1)]);
        }
    }
    assert forall|i: int| 0 <= i < pe.len() implies pe[i] != '&' by {
        if i >= ke.len() + 1 {
            assert(pe[i] == e[i - (ke.len() + 1)]);
        }
    }
    assert forall|i: int| 0 <= i < pu.len() implies pu[i] != '&' by {
        if i >= ku.len() + 1 {
            assert(pu[i] == u[i - (ku.len() + 1)]);
        }
    }
    lemma_split_no_sep(pa, '&');
    lemma_split_no_sep(pe, '&');
    lemma_split_no_sep(pu, '&');
    lemma_split_concat(pe, pu, '&');
    lemma_split_concat(pa, pe + seq!['&'] + pu, '&');
    let pairs = split_on(frag, '&');
    assert(pairs =~= seq![pa, pe, pu]);
    // each pair splits into its key and value
    lemma_split_no_sep(ka, '=');
    lemma_split_no_sep(ke, '=');
    lemma_split_no_sep(ku, '=');
    lemma_split_no_sep(token, '=');
    lemma_split_no_sep(e, '=');
    lemma_split_no_sep(u, '=');
    lemma_split_concat(ka, token, '=');
    lemma_split_concat(ke, e, '=');
    lemma_split_concat(ku, u, '=');
    assert(split_on(pa, '=') =~= seq![ka, token]);
    assert(split_on(pe, '=') =~= seq![ke, e]);
    assert(split_on(pu, '=') =~= seq![ku, u]);
    assert(pairs.drop_last() =~= seq![pa, pe]);
    assert(pairs.drop_last().drop_last() =~= seq![pa]);
    assert(pairs.drop_last().drop_last().drop_last() =~= Seq::<Seq<char>>::empty());
    assert(ke != ka && ke != ku && ku != ka);
    lemma_parse_decimal(expires_in);
    lemma_parse_decimal(user_id);
    assert(fields_of(Seq::<Seq<char>>::empty()) == (None::<Seq<char>>, None::<Option<int>>, None::<Option<int>>));
    assert(seq![pa].drop_last() =~= Seq::<Seq<char>>::empty());
    assert(seq![pa].last() == pa);
    assert(pair_key(pa) == ka && pair_value(pa) == token);
    assert(fields_of(seq![pa]) == (Some(token), None::<Option<int>>, None::<Option<int>>));
    assert(fields_of(seq![pa, pe]) == (Some(token), None::<Option<int>>, Some(Some(expires_in as int))));
    assert(fields_of(pairs) == (Some(token), Some(Some(user_id as int)), Some(Some(expires_in as int))));
}

} // verus!
