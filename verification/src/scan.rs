//! Scanning the Apple Music web player's pages: the script bundles that the
//! home page loads, and the MusicKit JWT that a bundle embeds.
//!
//! The script grammar is `<script[^>]+src="([^"]+\.js)"`, searched
//! left to right as a leftmost-first, greedy pattern: at each start the
//! `[^>]+` run takes the longest stretch that still lets the rest match, and
//! the next search begins where the previous match ended.
//!
//! The token grammar is the fixed ES256 header of the web player's tokens
//! (`"kid":"WebPlayKid"`), a dot, a run of base64url characters, a dot and a
//! second such run; the first position where it matches wins, and each run is
//! as long as it can be.

use vstd::prelude::*;
use crate::text::{chars_of, occurs_at, occurs_at_exec};

verus! {

pub open spec fn script_open() -> Seq<char> {
    "<script"@
}

pub open spec fn src_attr() -> Seq<char> {
    "src=\""@
}

pub open spec fn js_suffix() -> Seq<char> {
    ".js"@
}

/// No `c` in `s[from..to]`.
pub open spec fn char_absent(s: Seq<char>, c: char, from: int, to: int) -> bool {
    forall|k: int| from <= k < to ==> s[k] != c
}

/// The script grammar matches at `i`, with `src="` at `q` and the closing
/// quote of the captured path at `e`.
pub open spec fn script_match(s: Seq<char>, i: int, q: int, e: int) -> bool {
    &&& occurs_at(s, script_open(), i)
    &&& i + script_open().len() < q
    &&& char_absent(s, '>', i + script_open().len(), q)
    &&& occurs_at(s, src_attr(), q)
    &&& q + src_attr().len() + js_suffix().len() < e < s.len()
    &&& s[e] == '"'
    &&& char_absent(s, '"', q + src_attr().len(), e)
    &&& occurs_at(s, js_suffix(), e - js_suffix().len())
}

/// The match at `i` that a greedy `[^>]+` picks: the one whose `src="` stands last.
pub open spec fn greedy_script_match(s: Seq<char>, i: int, q: int, e: int) -> bool {
    &&& script_match(s, i, q, e)
    &&& forall|q2: int, e2: int| #[trigger] script_match(s, i, q2, e2) ==> q2 <= q
}

/// The captured script paths of all successive matches from position `p` on.
pub open spec fn script_urls_from(s: Seq<char>, p: int) -> Seq<Seq<char>>
    decreases s.len() - p,
{
    if p < 0 || p >= s.len() {
        Seq::empty()
    } else if exists|q: int, e: int| greedy_script_match(s, p, q, e) {
        let (q, e) = choose|q: int, e: int| greedy_script_match(s, p, q, e);
        seq![s.subrange(q + src_attr().len(), e)] + script_urls_from(s, e + 1)
    } else {
        script_urls_from(s, p + 1)
    }
}

/// At a given start there is at most one greedy match.
pub proof fn lemma_greedy_script_match_unique(s: Seq<char>, i: int, q: int, e: int, q2: int, e2: int)
    requires
        greedy_script_match(s, i, q, e),
        greedy_script_match(s, i, q2, e2),
    ensures
        q == q2,
        e == e2,
{
    assert(script_match(s, i, q2, e2));
    assert(script_match(s, i, q, e));
    assert(q == q2);
    if e < e2 {
        assert(s[e] == '"');
    } else if e2 < e {
        assert(s[e2] == '"');
    }
}

/// The greedy match of the script grammar at `i`, as `(q, e)`.
fn match_script_at(cs: &Vec<char>, open: &Vec<char>, src: &Vec<char>, js: &Vec<char>, i: usize) -> (r:
    Option<(usize, usize)>)
    requires
        open@ == script_open(),
        src@ == src_attr(),
        js@ == js_suffix(),
    ensures
        r matches Some((q, e)) ==> greedy_script_match(cs@, i as int, q as int, e as int),
        r is None ==> forall|q: int, e: int| !script_match(cs@, i as int, q, e),
{
    let ghost s = cs@;
    if !occurs_at_exec(cs, open, i) {
        return None;
    }
    assert(i + open.len() <= cs.len());
    let start = i + open.len();
    let mut g: usize = start;
    while g < cs.len() && cs[g] != '>'
        invariant
            start <= g <= cs@.len(),
            char_absent(s, '>', start as int, g as int),
            s == cs@,
        decreases cs@.len() - g,
    {
        g = g + 1;
    }
    if src.len() > cs.len() {
        return None;
    }
    let top = if g <= cs.len() - src.len() {
        g
    } else {
        cs.len() - src.len()
    };
    assert forall|q2: int, e2: int| top < q2 implies !#[trigger] script_match(s, i as int, q2, e2) by {
        if script_match(s, i as int, q2, e2) {
            if g < q2 && g < s.len() {
                assert(s[g as int] == '>');
            }
        }
    }
    let mut q: usize = top;
    while q > start
        invariant
            start == i + open@.len(),
            occurs_at(s, open@, i as int),
            q <= top <= g,
            char_absent(s, '>', start as int, g as int),
            forall|q2: int, e2: int| q < q2 ==> !#[trigger] script_match(s, i as int, q2, e2),
            s == cs@,
            open@ == script_open(),
            src@ == src_attr(),
            js@ == js_suffix(),
        decreases q,
    {
        if occurs_at_exec(cs, src, q) {
            assert(q + src.len() <= cs.len());
            let body = q + src.len();
            let mut e: usize = body;
            while e < cs.len() && cs[e] != '"'
                invariant
                    body <= e <= cs@.len(),
                    char_absent(s, '"', body as int, e as int),
                    s == cs@,
                decreases cs@.len() - e,
            {
                e = e + 1;
            }
            if e < cs.len() && e - body > js.len() && occurs_at_exec(cs, js, e - js.len()) {
                assert(script_match(s, i as int, q as int, e as int));
                return Some((q, e));
            }
            assert forall|e2: int| !#[trigger] script_match(s, i as int, q as int, e2) by {
                if script_match(s, i as int, q as int, e2) {
                    if e2 < e {
                        assert(s[e2] == '"');
                    } else if e < e2 {
                        assert(s[e as int] == '"');
                    }
                }
            }
        }
        q = q - 1;
    }
    None
}

/// The script paths that the page `html` loads, in document order, as the
/// script grammar's captures yield them.
pub fn find_script_urls(html: &str) -> (r: Vec<String>)
    ensures
        r@.map_values(|u: String| u@) == script_urls_from(html@, 0),
{
    let cs = chars_of(html);
    let open = chars_of("<script");
    let src = chars_of("src=\"");
    let js = chars_of(".js");
    let mut out: Vec<String> = Vec::new();
    let mut p: usize = 0;
    while p < cs.len()
        invariant
            p <= cs@.len(),
            cs@ == html@,
            open@ == script_open(),
            src@ == src_attr(),
            js@ == js_suffix(),
            out@.map_values(|u: String| u@) + script_urls_from(cs@, p as int) == script_urls_from(
                cs@,
                0,
            ),
        decreases cs@.len() - p,
    {
        let ghost before = out@.map_values(|u: String| u@);
        match match_script_at(&cs, &open, &src, &js, p) {
            Some((q, e)) => {
                proof {
                    let (q2, e2) = choose|q2: int, e2: int| greedy_script_match(cs@, p as int, q2, e2);
                    lemma_greedy_script_match_unique(cs@, p as int, q as int, e as int, q2, e2);
                }
                let path = html.substring_char(q + src.len(), e).to_owned();
                out.push(path);
                assert(out@.map_values(|u: String| u@) =~= before.push(
                    cs@.subrange(q + src@.len(), e as int),
                ));
                p = e + 1;
            },
            None => {
                p = p + 1;
            },
        }
    }
    out
}

/// Capture law: every path that the script grammar captures has at least one
/// character before a final `.js`, and holds no quote.
pub proof fn law_script_paths_end_in_js(s: Seq<char>, p: int)
    ensures
        forall|k: int|
            0 <= k < script_urls_from(s, p).len() ==> {
                let u = #[trigger] script_urls_from(s, p)[k];
                &&& u.len() > js_suffix().len()
                &&& u.subrange(u.len() - js_suffix().len(), u.len() as int) == js_suffix()
                &&& forall|m: int| 0 <= m < u.len() ==> u[m] != '"'
            },
    decreases s.len() - p,
{
    if p < 0 || p >= s.len() {
    } else if exists|q: int, e: int| greedy_script_match(s, p, q, e) {
        let (q, e) = choose|q: int, e: int| greedy_script_match(s, p, q, e);
        law_script_paths_end_in_js(s, e + 1);
        let u = s.subrange(q + src_attr().len(), e);
        let rest = script_urls_from(s, e + 1);
        assert(script_urls_from(s, p) == seq![u] + rest);
        assert(u.subrange(u.len() - js_suffix().len(), u.len() as int) =~= s.subrange(
            e - js_suffix().len(),
            e,
        ));
        assert forall|k: int| 0 <= k < script_urls_from(s, p).len() implies {
            let w = #[trigger] script_urls_from(s, p)[k];
            &&& w.len() > js_suffix().len()
            &&& w.subrange(w.len() - js_suffix().len(), w.len() as int) == js_suffix()
            &&& forall|m: int| 0 <= m < w.len() ==> w[m] != '"'
        } by {
            if k > 0 {
                assert(script_urls_from(s, p)[k] == rest[k - 1]);
            } else {
                assert(script_urls_from(s, p)[k] == u);
                assert forall|m: int| 0 <= m < u.len() implies u[m] != '"' by {
                    assert(u[m] == s[q + src_attr().len() + m]);
                }
            }
        }
    } else {
        law_script_paths_end_in_js(s, p + 1);
        assert(script_urls_from(s, p) == script_urls_from(s, p + 1));
    }
}

/// The fixed header of the web player's tokens: `{"alg":"ES256","typ":"JWT","kid":"WebPlayKid"}`.
pub open spec fn jwt_header() -> Seq<char> {
    "eyJhbGciOiJFUzI1NiIsInR5cCI6IkpXVCIsImtpZCI6IldlYlBsYXlLaWQifQ"@
}

/// A base64url character: `[A-Za-z0-9_-]`.
pub open spec fn is_token_char(c: char) -> bool {
    ||| ('A' <= c && c <= 'Z')
    ||| ('a' <= c && c <= 'z')
    ||| ('0' <= c && c <= '9')
    ||| c == '_'
    ||| c == '-'
}

/// Length of the longest run of base64url characters in `s` from `j` on.
pub open spec fn token_run(s: Seq<char>, j: int) -> nat
    decreases s.len() - j,
{
    if 0 <= j < s.len() && is_token_char(s[j]) {
        1 + token_run(s, j + 1)
    } else {
        0
    }
}

/// Length of the token that starts at `i`, if the token grammar matches there.
pub open spec fn jwt_match_len(s: Seq<char>, i: int) -> Option<int> {
    let h = jwt_header().len() as int;
    if occurs_at(s, jwt_header(), i) && i + h < s.len() && s[i + h] == '.' {
        let a = token_run(s, i + h + 1) as int;
        let j = i + h + 1 + a;
        if a >= 1 && j < s.len() && s[j] == '.' && token_run(s, j + 1) >= 1 {
            Some(h + 1 + a + 1 + token_run(s, j + 1))
        } else {
            None
        }
    } else {
        None
    }
}

/// The first token in `s` at or after position `p`.
pub open spec fn first_jwt_from(s: Seq<char>, p: int) -> Option<Seq<char>>
    decreases s.len() + 1 - p,
{
    if p < 0 || p > s.len() {
        None
    } else {
        match jwt_match_len(s, p) {
            Some(n) => Some(s.subrange(p, p + n)),
            None => first_jwt_from(s, p + 1),
        }
    }
}

proof fn lemma_token_run_bound(s: Seq<char>, j: int)
    requires
        0 <= j <= s.len(),
    ensures
        j + token_run(s, j) <= s.len(),
    decreases s.len() - j,
{
    if j < s.len() && is_token_char(s[j]) {
        lemma_token_run_bound(s, j + 1);
    }
}

/// Token law: every token found begins with the web player's fixed header,
/// followed by more characters.
pub proof fn law_token_starts_with_header(s: Seq<char>, p: int)
    ensures
        first_jwt_from(s, p) matches Some(t) ==> t.len() > jwt_header().len() && t.subrange(
            0,
            jwt_header().len() as int,
        ) == jwt_header(),
    decreases s.len() + 1 - p,
{
    if 0 <= p <= s.len() {
        match jwt_match_len(s, p) {
            Some(n) => {
                let h = jwt_header().len() as int;
                let j = p + h + 1 + token_run(s, p + h + 1);
                lemma_token_run_bound(s, j + 1);
                let t = s.subrange(p, p + n);
                assert(t.subrange(0, jwt_header().len() as int) =~= s.subrange(
                    p,
                    p + jwt_header().len(),
                ));
            },
            None => law_token_starts_with_header(s, p + 1),
        }
    }
}

/// `t` stands in `s` at `i` as a whole web player token, whose payload and
/// signature are split by the dot at `d` (an index into `t`): the fixed
/// header, a dot, a non-empty base64url run, a dot and a non-empty base64url
/// run that reaches as far as base64url characters go in `s`.
pub open spec fn is_whole_token_at(s: Seq<char>, i: int, d: int, t: Seq<char>) -> bool {
    let h = jwt_header().len() as int;
    &&& 0 <= i && i + t.len() <= s.len() && t == s.subrange(i, i + t.len())
    &&& t.subrange(0, h) == jwt_header()
    &&& t[h] == '.'
    &&& h + 1 < d < t.len() - 1
    &&& t[d] == '.'
    &&& forall|k: int| h + 1 <= k < d ==> is_token_char(#[trigger] t[k])
    &&& forall|k: int| d < k < t.len() ==> is_token_char(#[trigger] t[k])
    &&& (i + t.len() == s.len() || !is_token_char(s[i + t.len()]))
}

/// The run of base64url characters from `j` consists of such characters and
/// ends where the text ends or a non-base64url character stands.
proof fn lemma_token_run_props(s: Seq<char>, j: int)
    requires
        0 <= j <= s.len(),
    ensures
        j + token_run(s, j) <= s.len(),
        forall|k: int| j <= k < j + token_run(s, j) ==> is_token_char(#[trigger] s[k]),
        j + token_run(s, j) == s.len() || !is_token_char(s[j + token_run(s, j)]),
    decreases s.len() - j,
{
    if j < s.len() && is_token_char(s[j]) {
        lemma_token_run_props(s, j + 1);
    }
}

proof fn lemma_found_token_is_whole(s: Seq<char>, p: int)
    ensures
        first_jwt_from(s, p) is Some ==> exists|i: int, d: int| #![trigger is_whole_token_at(s, i, d, first_jwt_from(s, p)->0)]
            is_whole_token_at(s, i, d, first_jwt_from(s, p)->0),
    decreases s.len() + 1 - p,
{
    if 0 <= p <= s.len() {
        match jwt_match_len(s, p) {
            Some(n) => {
                let h = jwt_header().len() as int;
                let a = token_run(s, p + h + 1) as int;
                let j = p + h + 1 + a;
                lemma_token_run_props(s, p + h + 1);
                lemma_token_run_props(s, j + 1);
                let t = s.subrange(p, p + n);
                let d = h + 1 + a;
                assert(t.subrange(0, h) =~= s.subrange(p, p + h));
                assert forall|k: int| h + 1 <= k < d implies is_token_char(#[trigger] t[k]) by {
                    assert(t[k] == s[p + k]);
                }
                assert forall|k: int| d < k < t.len() implies is_token_char(#[trigger] t[k]) by {
                    assert(t[k] == s[p + k]);
                }
                assert(is_whole_token_at(s, p, d, t));
                assert(first_jwt_from(s, p) == Some(t));
                assert(first_jwt_from(s, p)->0 == t);
                assert(is_whole_token_at(s, p, d, first_jwt_from(s, p)->0));
            },
            None => {
                lemma_found_token_is_whole(s, p + 1);
                assert(first_jwt_from(s, p) == first_jwt_from(s, p + 1));
            },
        }
    }
}

/// Whole-token law: the token found in a text is a whole token of the web
/// player's form standing in that text, and its signature is not cut short:
/// the character after it, if any, is not a base64url character.
pub proof fn law_found_token_is_whole(s: Seq<char>)
    ensures
        first_jwt_from(s, 0) is Some ==> exists|i: int, d: int| #![trigger is_whole_token_at(s, i, d, first_jwt_from(s, 0)->0)]
            is_whole_token_at(s, i, d, first_jwt_from(s, 0)->0),
{
    lemma_found_token_is_whole(s, 0);
}

/// The leftmost token in `s`.
pub open spec fn is_leftmost_jwt(s: Seq<char>, i: int, t: Seq<char>) -> bool {
    &&& 0 <= i
    &&& jwt_match_len(s, i) matches Some(n) && t == s.subrange(i, i + n)
    &&& forall|j: int| 0 <= j < i ==> #[trigger] jwt_match_len(s, j) is None
}

fn is_token_char_exec(c: char) -> (b: bool)
    ensures
        b == is_token_char(c),
{
    (c >= 'A' && c <= 'Z') || (c >= 'a' && c <= 'z') || (c >= '0' && c <= '9') || c == '_' || c
        == '-'
}

/// The run of base64url characters from `j` covers `j..k` and ends at `k`.
proof fn lemma_token_run_split(s: Seq<char>, j: int, k: int)
    requires
        0 <= j <= k <= s.len(),
        forall|m: int| j <= m < k ==> is_token_char(s[m]),
    ensures
        token_run(s, j) == (k - j) + token_run(s, k),
    decreases k - j,
{
    if j < k {
        lemma_token_run_split(s, j + 1, k);
    }
}

/// The run of base64url characters in `cs` from `j`: its end.
fn run_end(cs: &Vec<char>, j: usize) -> (k: usize)
    requires
        j <= cs@.len(),
    ensures
        k == j + token_run(cs@, j as int),
        k <= cs@.len(),
{
    let mut k: usize = j;
    while k < cs.len() && is_token_char_exec(cs[k])
        invariant
            j <= k <= cs@.len(),
            forall|m: int| j <= m < k ==> is_token_char(cs@[m]),
        decreases cs@.len() - k,
    {
        k = k + 1;
    }
    proof {
        lemma_token_run_split(cs@, j as int, k as int);
    }
    k
}

/// Length of the token at `i`, if the token grammar matches there.
fn jwt_match_len_exec(cs: &Vec<char>, header: &Vec<char>, i: usize) -> (r: Option<usize>)
    requires
        header@ == jwt_header(),
        i <= cs@.len(),
    ensures
        r matches Some(n) ==> jwt_match_len(cs@, i as int) == Some(n as int) && i + n <= cs@.len(),
        r is None ==> jwt_match_len(cs@, i as int) is None,
{
    if !occurs_at_exec(cs, header, i) {
        return None;
    }
    assert(i + header.len() <= cs.len());
    let h = i + header.len();
    if h >= cs.len() || cs[h] != '.' {
        return None;
    }
    let a_end = run_end(cs, h + 1);
    if a_end == h + 1 || a_end >= cs.len() || cs[a_end] != '.' {
        return None;
    }
    let b_end = run_end(cs, a_end + 1);
    if b_end == a_end + 1 {
        return None;
    }
    Some(b_end - i)
}

/// The MusicKit token embedded in a script bundle: the first match of the
/// token grammar, or `None` when the bundle holds none.
pub fn find_jwt_token(js: &str) -> (r: Option<String>)
    ensures
        r is Some ==> exists|i: int| is_leftmost_jwt(js@, i, r->0@),
        r is None ==> forall|i: int| 0 <= i ==> #[trigger] jwt_match_len(js@, i) is None,
        r matches Some(t) ==> first_jwt_from(js@, 0) == Some(t@),
        r is None ==> first_jwt_from(js@, 0) is None,
        r is Some ==> exists|i: int, d: int| #![trigger is_whole_token_at(js@, i, d, r->0@)]
            is_whole_token_at(js@, i, d, r->0@),
{
    let cs = chars_of(js);
    let header = chars_of("eyJhbGciOiJFUzI1NiIsInR5cCI6IkpXVCIsImtpZCI6IldlYlBsYXlLaWQifQ");
    let mut i: usize = 0;
    while i <= cs.len()
        invariant
            i <= cs@.len() + 1,
            cs@ == js@,
            header@ == jwt_header(),
            forall|j: int| 0 <= j < i ==> #[trigger] jwt_match_len(cs@, j) is None,
            first_jwt_from(cs@, 0) == first_jwt_from(cs@, i as int),
        decreases cs@.len() + 1 - i,
    {
        if let Some(n) = jwt_match_len_exec(&cs, &header, i) {
            let t = js.substring_char(i, i + n).to_owned();
            assert(is_leftmost_jwt(js@, i as int, t@));
            let r = Some(t);
            assert(is_leftmost_jwt(js@, i as int, r->0@));
            proof {
                law_found_token_is_whole(js@);
            }
            return r;
        }
        if i == cs.len() {
            assert forall|j: int| 0 <= j implies #[trigger] jwt_match_len(js@, j) is None by {
                if j > i {
                    assert(!occurs_at(js@, jwt_header(), j));
                }
            }
            assert(first_jwt_from(cs@, i + 1) is None);
            return None;
        }
        i = i + 1;
    }
    None
}

} // verus!
