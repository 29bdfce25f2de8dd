//! Cookie codec: encodes a session identifier into a `Set-Cookie` value with
//! the fixed security attributes, and decodes the `session_id` entry out of a
//! request's `Cookie` header.

use vstd::prelude::*;
use vstd::string::*;

verus! {

/// The `Set-Cookie` value carrying a session identifier: HTTP-only,
/// secure-transport-only, `SameSite=Lax`, path `/`, thirty days of life.
pub open spec fn spec_session_cookie(uuid: Seq<char>) -> Seq<char> {
    "session_id="@ + uuid + "; HttpOnly; Secure; SameSite=Lax; Path=/; Max-Age=2592000"@
}

/// The `Set-Cookie` value that clears the session cookie on logout: the same
/// attributes, an empty value and a zero maximum age.
pub open spec fn spec_clear_cookie() -> Seq<char> {
    "session_id=; HttpOnly; Secure; SameSite=Lax; Path=/; Max-Age=0"@
}

/// Builds the session cookie for a freshly issued session identifier.
pub fn encode_session_cookie(uuid: &str) -> (r: String)
    ensures
        r@ == spec_session_cookie(uuid@),
{
    let mut cookie = String::from_str("session_id=");
    cookie.append(uuid);
    cookie.append("; HttpOnly; Secure; SameSite=Lax; Path=/; Max-Age=2592000");
    cookie
}

/// Builds the cookie that expires the session cookie immediately.
pub fn clear_session_cookie() -> (r: String)
    ensures
        r@ == spec_clear_cookie(),
{
    String::from_str("session_id=; HttpOnly; Secure; SameSite=Lax; Path=/; Max-Age=0")
}

/// A character that trimming removes from the ends of a cookie pair: the
/// Unicode white-space set, the same characters the standard trim removes.
pub open spec fn is_cookie_ws(c: char) -> bool {
    let u = c as u32;
    ||| u == 0x20
    ||| 0x9 <= u && u <= 0xd
    ||| u == 0x85
    ||| u == 0xa0
    ||| u == 0x1680
    ||| 0x2000 <= u && u <= 0x200a
    ||| u == 0x2028
    ||| u == 0x2029
    ||| u == 0x202f
    ||| u == 0x205f
    ||| u == 0x3000
}

/// The index of the first ';' at or after `i`, or the header's length.
pub open spec fn semi_end(h: Seq<char>, i: int) -> int
    decreases h.len() - i,
{
    if i >= h.len() {
        h.len() as int
    } else if h[i] == ';' {
        i
    } else {
        semi_end(h, i + 1)
    }
}

/// The first index in `[i, j)` holding a non-whitespace character, or `j`.
pub open spec fn trim_start(h: Seq<char>, i: int, j: int) -> int
    decreases j - i,
{
    if i >= j {
        j
    } else if is_cookie_ws(h[i]) {
        trim_start(h, i + 1, j)
    } else {
        i
    }
}

/// One past the last index in `[a, j)` holding a non-whitespace character,
/// or `a`.
pub open spec fn trim_end(h: Seq<char>, a: int, j: int) -> int
    decreases j - a,
{
    if j <= a {
        a
    } else if is_cookie_ws(h[j - 1]) {
        trim_end(h, a, j - 1)
    } else {
        j
    }
}

pub proof fn lemma_semi_end(h: Seq<char>, i: int)
    requires
        0 <= i <= h.len(),
    ensures
        i <= semi_end(h, i) <= h.len(),
        semi_end(h, i) < h.len() ==> h[semi_end(h, i)] == ';',
        forall|k: int| i <= k < semi_end(h, i) ==> h[k] != ';',
    decreases h.len() - i,
{
    if i < h.len() && h[i] != ';' {
        lemma_semi_end(h, i + 1);
    }
}

proof fn lemma_semi_end_unique(h: Seq<char>, i: int, j: int)
    requires
        0 <= i <= j <= h.len(),
        forall|k: int| i <= k < j ==> h[k] != ';',
        j == h.len() || h[j] == ';',
    ensures
        semi_end(h, i) == j,
    decreases j - i,
{
    if i < j {
        lemma_semi_end_unique(h, i + 1, j);
    }
}

proof fn lemma_trim_start_unique(h: Seq<char>, i: int, j: int, a: int)
    requires
        0 <= i <= a <= j <= h.len(),
        forall|k: int| i <= k < a ==> is_cookie_ws(h[k]),
        a < j ==> !is_cookie_ws(h[a]),
    ensures
        trim_start(h, i, j) == a,
    decreases a - i,
{
    if i < a {
        lemma_trim_start_unique(h, i + 1, j, a);
    }
}

proof fn lemma_trim_end_unique(h: Seq<char>, a: int, j: int, b: int)
    requires
        0 <= a <= b <= j <= h.len(),
        forall|k: int| b <= k < j ==> is_cookie_ws(h[k]),
        a < b ==> !is_cookie_ws(h[b - 1]),
    ensures
        trim_end(h, a, j) == b,
    decreases j - b,
{
    if b < j {
        lemma_trim_end_unique(h, a, j - 1, b);
    }
}

/// The decode of a cookie header, starting at index `i`: the header is cut
/// at every ';', each piece is trimmed of surrounding whitespace, and the
/// value of the first piece that begins with `session_id=` is returned.
pub open spec fn spec_parse_from(h: Seq<char>, i: int) -> Option<Seq<char>>
    decreases h.len() - i,
    via spec_parse_from_decreases
{
    if !(0 <= i <= h.len()) {
        None
    } else {
        let j = semi_end(h, i);
        let a = trim_start(h, i, j);
        let b = trim_end(h, a, j);
        if b - a >= 11 && h.subrange(a, a + 11) == "session_id="@ {
            Some(h.subrange(a + 11, b))
        } else if j >= h.len() {
            None
        } else {
            spec_parse_from(h, j + 1)
        }
    }
}

#[via_fn]
proof fn spec_parse_from_decreases(h: Seq<char>, i: int) {
    if 0 <= i <= h.len() {
        lemma_semi_end(h, i);
    }
}

/// What decoding a `Cookie` header yields: the first `session_id` pair's
/// value, or nothing when no such pair exists. A pair's name is matched
/// case-sensitively after trimming.
pub open spec fn spec_parse_session_id(h: Seq<char>) -> Option<Seq<char>> {
    spec_parse_from(h, 0)
}

fn is_ws_char(c: char) -> (r: bool)
    ensures
        r == is_cookie_ws(c),
{
    let u = c as u32;
    u == 0x20 || (0x9 <= u && u <= 0xd) || u == 0x85 || u == 0xa0 || u == 0x1680 || (0x2000 <= u
        && u <= 0x200a) || u == 0x2028 || u == 0x2029 || u == 0x202f || u == 0x205f || u == 0x3000
}

#[verifier::loop_isolation(false)]
fn matches_key(header: &str, a: usize) -> (r: bool)
    requires
        a + 11 <= header@.len() <= usize::MAX,
    ensures
        r == (header@.subrange(a as int, a as int + 11) == "session_id="@),
{
    let key = "session_id=";
    proof {
        reveal_strlit("session_id=");
    }
    let mut k: usize = 0;
    while k < 11
        invariant
            0 <= k <= 11,
            forall|t: int| 0 <= t < k ==> header@[a + t] == key@[t],
        decreases 11 - k,
    {
        if header.get_char(a + k) != key.get_char(k) {
            proof {
                assert(header@.subrange(a as int, a as int + 11)[k as int] != key@[k as int]);
            }
            return false;
        }
        k += 1;
    }
    proof {
        assert(header@.subrange(a as int, a as int + 11) =~= key@);
    }
    true
}

/// Scans the semicolon-delimited cookie header for a pair named
/// `session_id`, trimming surrounding whitespace per pair, and returns the
/// first match; `None` means the header holds no such pair.
#[verifier::loop_isolation(false)]
pub fn parse_session_id<'a>(header: &'a str) -> (r: Option<&'a str>)
    ensures
        match r {
            Some(s) => spec_parse_session_id(header@) == Some(s@),
            None => spec_parse_session_id(header@) is None,
        },
{
    let n = header.unicode_len();
    let mut i: usize = 0;
    loop
        invariant
            i <= n,
            spec_parse_from(header@, i as int) == spec_parse_session_id(header@),
        decreases n - i,
    {
        let mut j: usize = i;
        while j < n && header.get_char(j) != ';'
            invariant
                i <= j <= n,
                forall|k: int| i <= k < j ==> header@[k] != ';',
            decreases n - j,
        {
            j += 1;
        }
        proof {
            lemma_semi_end_unique(header@, i as int, j as int);
        }
        let mut a: usize = i;
        while a < j && is_ws_char(header.get_char(a))
            invariant
                i <= a <= j,
                forall|k: int| i <= k < a ==> is_cookie_ws(header@[k]),
            decreases j - a,
        {
            a += 1;
        }
        proof {
            lemma_trim_start_unique(header@, i as int, j as int, a as int);
        }
        let mut b: usize = j;
        while b > a && is_ws_char(header.get_char(b - 1))
            invariant
                a <= b <= j,
                forall|k: int| b <= k < j ==> is_cookie_ws(header@[k]),
            decreases b,
        {
            b -= 1;
        }
        proof {
            lemma_trim_end_unique(header@, a as int, j as int, b as int);
        }
        if b - a >= 11 && matches_key(header, a) {
            let s = header.substring_char(a + 11, b);
            return Some(s);
        }
        if j == n {
            return None;
        }
        i = j + 1;
    }
}

/// Decoding inverts encoding: any identifier free of ';' and not ending in
/// whitespace survives the round trip through the cookie header unchanged.
pub proof fn lemma_cookie_round_trip(uuid: Seq<char>)
    requires
        forall|k: int| 0 <= k < uuid.len() ==> uuid[k] != ';',
        uuid.len() > 0 ==> !is_cookie_ws(uuid[uuid.len() - 1]),
    ensures
        spec_parse_session_id(spec_session_cookie(uuid)) == Some(uuid),
{
    let h = spec_session_cookie(uuid);
    let key = "session_id="@;
    let suffix = "; HttpOnly; Secure; SameSite=Lax; Path=/; Max-Age=2592000"@;
    reveal_strlit("session_id=");
    reveal_strlit("; HttpOnly; Secure; SameSite=Lax; Path=/; Max-Age=2592000");
    assert(key =~= seq!['s', 'e', 's', 's', 'i', 'o', 'n', '_', 'i', 'd', '=']);
    let m = uuid.len() as int;
    let j = 11 + m;
    assert(h.len() == j + suffix.len());
    assert(suffix[0] == ';');
    assert(h[j] == ';');
    assert forall|k: int| 0 <= k < j implies h[k] != ';' by {
        if k < 11 {
            assert(h[k] == key[k]);
        } else {
            assert(h[k] == uuid[k - 11]);
        }
    }
    lemma_semi_end_unique(h, 0, j);
    assert(!is_cookie_ws(h[0]));
    lemma_trim_start_unique(h, 0, j, 0);
    assert(!is_cookie_ws(h[j - 1])) by {
        if m > 0 {
            assert(h[j - 1] == uuid[m - 1]);
        } else {
            assert(h[10] == key[10]);
        }
    }
    lemma_trim_end_unique(h, 0, j, j);
    assert(h.subrange(0, 11) =~= key);
    assert(h.subrange(11, j) =~= uuid);
}

} // verus!
