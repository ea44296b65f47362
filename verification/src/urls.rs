//! Addresses of the Apple Music web player and API, and the order in which
//! the home page's script bundles are searched for a token.

use vstd::prelude::*;
use crate::text::{chars_of, contains_exec, contains_seq, has_prefix};

verus! {

/// The web player, whose pages and bundles carry the MusicKit token.
pub const BETA_URL: &'static str = "https://beta.music.apple.com";

/// The catalog API.
pub const API_BASE_URL: &'static str = "https://amp-api.music.apple.com";

/// `s` without its leading `/` characters.
pub open spec fn trim_leading_slashes(s: Seq<char>) -> Seq<char>
    decreases s.len(),
{
    if s.len() > 0 && s[0] == '/' {
        trim_leading_slashes(s.drop_first())
    } else {
        s
    }
}

/// Where a script `src` points: absolute `http://` and `https://` addresses
/// stay as they are; anything else is a path on the web player.
pub open spec fn spec_resolve_asset_url(src: Seq<char>) -> Seq<char> {
    if has_prefix(src, "http://"@) || has_prefix(src, "https://"@) {
        src
    } else {
        BETA_URL@ + "/"@ + trim_leading_slashes(src)
    }
}

proof fn lemma_trim_leading_slashes(s: Seq<char>, k: int)
    requires
        0 <= k <= s.len(),
        forall|j: int| 0 <= j < k ==> s[j] == '/',
        k == s.len() || s[k] != '/',
    ensures
        trim_leading_slashes(s) == s.skip(k),
    decreases k,
{
    if k > 0 {
        let t = s.drop_first();
        assert forall|j: int| 0 <= j < k - 1 implies t[j] == '/' by {
            assert(t[j] == s[j + 1]);
        }
        if k < s.len() {
            assert(t[k - 1] == s[k]);
        }
        lemma_trim_leading_slashes(t, k - 1);
        assert(t.skip(k - 1) =~= s.skip(k));
    } else {
        assert(s.skip(0) =~= s);
    }
}

/// The absolute address of a script that the home page loads.
pub fn resolve_asset_url(script_src: &str) -> (r: String)
    ensures
        r@ == spec_resolve_asset_url(script_src@),
{
    let cs = chars_of(script_src);
    let http = chars_of("http://");
    let https = chars_of("https://");
    if crate::text::occurs_at_exec(&cs, &http, 0) || crate::text::occurs_at_exec(&cs, &https, 0) {
        return script_src.to_owned();
    }
    let mut k: usize = 0;
    while k < cs.len() && cs[k] == '/'
        invariant
            k <= cs@.len(),
            forall|j: int| 0 <= j < k ==> cs@[j] == '/',
        decreases cs@.len() - k,
    {
        k = k + 1;
    }
    proof {
        lemma_trim_leading_slashes(cs@, k as int);
    }
    let mut out = BETA_URL.to_owned();
    out.append("/");
    out.append(script_src.substring_char(k, cs.len()));
    out
}

/// Address law: every resolved script address is an absolute `http://` or
/// `https://` address.
pub proof fn law_resolved_urls_are_absolute(src: Seq<char>)
    ensures
        has_prefix(spec_resolve_asset_url(src), "http://"@) || has_prefix(
            spec_resolve_asset_url(src),
            "https://"@,
        ),
{
    if !(has_prefix(src, "http://"@) || has_prefix(src, "https://"@)) {
        reveal_strlit("https://");
        reveal_strlit("https://beta.music.apple.com");
        let r = spec_resolve_asset_url(src);
        assert(r.subrange(0, 8) =~= "https://"@);
    }
}

/// The web player's main entry bundle (the non-legacy `index` chunk), where
/// the token lives.
pub open spec fn is_main_bundle(url: Seq<char>) -> bool {
    contains_seq(url, "index"@) && contains_seq(url, ".js"@) && !contains_seq(url, "legacy"@)
}

pub fn is_main_bundle_exec(url: &str) -> (b: bool)
    ensures
        b == is_main_bundle(url@),
{
    let cs = chars_of(url);
    contains_exec(&cs, &chars_of("index")) && contains_exec(&cs, &chars_of(".js"))
        && !contains_exec(&cs, &chars_of("legacy"))
}

/// The views of a list of strings.
pub open spec fn views(v: Seq<String>) -> Seq<Seq<char>> {
    v.map_values(|u: String| u@)
}

/// The search order of the script bundles: the main bundles first, then the
/// rest, each group in page order.
pub open spec fn spec_order_script_urls(urls: Seq<Seq<char>>) -> Seq<Seq<char>> {
    urls.filter(|u: Seq<char>| is_main_bundle(u)) + urls.filter(|u: Seq<char>| !is_main_bundle(u))
}

/// Orders the home page's script bundles for the token search.
pub fn order_script_urls(urls: Vec<String>) -> (r: Vec<String>)
    ensures
        views(r@) == spec_order_script_urls(views(urls@)),
{
    broadcast use Seq::lemma_filter_push;

    let ghost all = views(urls@);
    let ghost main_p = |u: Seq<char>| is_main_bundle(u);
    let ghost rest_p = |u: Seq<char>| !is_main_bundle(u);
    let mut main: Vec<String> = Vec::new();
    let mut rest: Vec<String> = Vec::new();
    let mut i: usize = 0;
    while i < urls.len()
        invariant
            i <= urls@.len(),
            all == views(urls@),
            main_p == (|u: Seq<char>| is_main_bundle(u)),
            rest_p == (|u: Seq<char>| !is_main_bundle(u)),
            views(main@) == all.take(i as int).filter(main_p),
            views(rest@) == all.take(i as int).filter(rest_p),
        decreases urls@.len() - i,
    {
        let u = urls[i].clone();
        let ghost mv = views(main@);
        let ghost rv = views(rest@);
        assert(u@ == all[i as int]);
        assert(all.take(i + 1) =~= all.take(i as int).push(u@));
        proof {
            all.take(i as int).lemma_filter_push(u@, main_p);
            all.take(i as int).lemma_filter_push(u@, rest_p);
        }
        let ghost uv = u@;
        if is_main_bundle_exec(u.as_str()) {
            main.push(u);
            assert(views(main@) =~= mv.push(uv));
        } else {
            rest.push(u);
            assert(views(rest@) =~= rv.push(uv));
        }
        i = i + 1;
    }
    assert(all.take(i as int) =~= all);
    let ghost mv = views(main@);
    let ghost rv = views(rest@);
    let mut j: usize = 0;
    while j < rest.len()
        invariant
            j <= rest@.len(),
            views(main@) == mv + rv.take(j as int),
            rv == views(rest@),
        decreases rest@.len() - j,
    {
        let ghost before = views(main@);
        let x = rest[j].clone();
        assert(x@ == rv[j as int]);
        main.push(x);
        assert(views(main@) =~= before.push(rv[j as int]));
        assert(views(main@) =~= mv + rv.take(j + 1));
        j = j + 1;
    }
    assert(rv.take(j as int) =~= rv);
    main
}

/// Ordering law: the search order holds every bundle of the page exactly as
/// often as the page does.
pub proof fn law_order_keeps_every_url(urls: Seq<Seq<char>>)
    ensures
        spec_order_script_urls(urls).to_multiset() == urls.to_multiset(),
    decreases urls.len(),
{
    broadcast use Seq::lemma_filter_push;
    broadcast use vstd::seq_lib::group_seq_properties;

    if urls.len() > 0 {
        let init = urls.drop_last();
        let x = urls.last();
        law_order_keeps_every_url(init);
        assert(init.push(x) =~= urls);
        let m = init.filter(|u: Seq<char>| is_main_bundle(u));
        let r = init.filter(|u: Seq<char>| !is_main_bundle(u));
        if is_main_bundle(x) {
            assert(spec_order_script_urls(urls) =~= (m + r).insert(m.len() as int, x));
        } else {
            assert(spec_order_script_urls(urls) =~= (m + r).push(x));
        }
    } else {
        assert(spec_order_script_urls(urls) =~= Seq::<Seq<char>>::empty());
    }
}

} // verus!
