//! The requests the plugin sends: to the web player for its token, and to
//! the catalog API for lyrics; and the cache entries it keeps.

use vstd::prelude::*;
use crate::config::LoadedConfig;
use crate::digits::{decimal_digits, push_decimal};
use crate::urls::{API_BASE_URL, BETA_URL};

verus! {

/// An HTTP request for the host to send.
#[derive(Debug)]
pub struct HttpRequest {
    pub method: String,
    pub url: String,
    /// Header names and values; no name occurs twice.
    pub headers: Vec<(String, String)>,
    pub no_follow_redirects: bool,
    pub body: Vec<u8>,
    pub timeout_ms: u32,
}

/// How long the plugin waits for an answer.
pub const REQUEST_TIMEOUT_MS: u32 = 10_000;

/// Header names and values as text.
pub open spec fn header_views(h: Seq<(String, String)>) -> Seq<(Seq<char>, Seq<char>)> {
    h.map_values(|p: (String, String)| (p.0@, p.1@))
}

/// No header name occurs twice.
pub open spec fn distinct_names(h: Seq<(Seq<char>, Seq<char>)>) -> bool {
    forall|i: int, j: int| 0 <= i < j < h.len() ==> h[i].0 != h[j].0
}

/// A plain `GET` of `url` that follows redirects and gives up after ten seconds.
pub open spec fn is_get_request(r: HttpRequest, url: Seq<char>, headers: Seq<(Seq<char>, Seq<char>)>) -> bool {
    &&& r.method@ == "GET"@
    &&& r.url@ == url
    &&& header_views(r.headers@) == headers
    &&& !r.no_follow_redirects
    &&& r.body@.len() == 0
    &&& r.timeout_ms == REQUEST_TIMEOUT_MS
}

/// The `GET` request that fetches the text at `url`.
pub fn get_request(url: String, headers: Vec<(String, String)>) -> (r: HttpRequest)
    ensures
        is_get_request(r, url@, header_views(headers@)),
{
    HttpRequest {
        method: "GET".to_owned(),
        url,
        headers,
        no_follow_redirects: false,
        body: Vec::new(),
        timeout_ms: REQUEST_TIMEOUT_MS,
    }
}

/// The web player's home page for a storefront.
pub open spec fn spec_home_page_url(country: Seq<char>) -> Seq<char> {
    BETA_URL@ + "/"@ + country + "/home"@
}

pub fn home_page_url(country: &str) -> (r: String)
    ensures
        r@ == spec_home_page_url(country@),
{
    let mut u = BETA_URL.to_owned();
    u.append("/");
    u.append(country);
    u.append("/home");
    u
}

/// The headers sent to the web player: the session's user agent, and the
/// web player as origin and referrer.
pub open spec fn spec_web_headers(user_agent: Seq<char>) -> Seq<(Seq<char>, Seq<char>)> {
    seq![("User-Agent"@, user_agent), ("Origin"@, BETA_URL@), ("Referer"@, BETA_URL@ + "/"@)]
}

pub fn web_headers(config: &LoadedConfig) -> (r: Vec<(String, String)>)
    ensures
        header_views(r@) == spec_web_headers(config.spec_user_agent()),
{
    let mut referer = BETA_URL.to_owned();
    referer.append("/");
    let r = vec![
        ("User-Agent".to_owned(), config.user_agent().clone()),
        ("Origin".to_owned(), BETA_URL.to_owned()),
        ("Referer".to_owned(), referer),
    ];
    assert(header_views(r@) =~= spec_web_headers(config.spec_user_agent()));
    r
}

/// The request for the web player's home page.
pub fn home_page_request(config: &LoadedConfig) -> (r: HttpRequest)
    ensures
        is_get_request(
            r,
            spec_home_page_url(config.spec_account_country()),
            spec_web_headers(config.spec_user_agent()),
        ),
{
    get_request(home_page_url(config.account_country().as_str()), web_headers(config))
}

/// The request for a script bundle of the web player.
pub fn script_request(config: &LoadedConfig, url: String) -> (r: HttpRequest)
    ensures
        is_get_request(r, url@, spec_web_headers(config.spec_user_agent())),
{
    get_request(url, web_headers(config))
}

/// The catalog API's syllable lyrics of a song, with the translation in the
/// configured language.
pub open spec fn spec_lyrics_url(country: Seq<char>, language: Seq<char>, catalog_id: u64) -> Seq<char> {
    API_BASE_URL@ + "/v1/catalog/"@ + country + "/songs/"@ + decimal_digits(catalog_id as nat)
        + "/syllable-lyrics?l[lyrics]="@ + language
        + "&l[script]=und-Latn&extend=ttmlLocalizations"@
}

pub fn lyrics_url(config: &LoadedConfig, catalog_id: u64) -> (r: String)
    ensures
        r@ == spec_lyrics_url(
            config.spec_account_country(),
            config.spec_translation_language(),
            catalog_id,
        ),
{
    let mut u = API_BASE_URL.to_owned();
    u.append("/v1/catalog/");
    u.append(config.account_country().as_str());
    u.append("/songs/");
    push_decimal(&mut u, catalog_id);
    u.append("/syllable-lyrics?l[lyrics]=");
    u.append(config.translation_language().as_str());
    u.append("&l[script]=und-Latn&extend=ttmlLocalizations");
    u
}

/// The headers sent to the catalog API: the session's user agent, the token
/// as bearer, the subscriber's media token, and the web player as origin
/// and referrer.
pub open spec fn spec_api_headers(user_agent: Seq<char>, jwt: Seq<char>, media_token: Seq<char>) -> Seq<
    (Seq<char>, Seq<char>),
> {
    seq![
        ("User-Agent"@, user_agent),
        ("Authorization"@, "Bearer "@ + jwt),
        ("media-user-token"@, media_token),
        ("Origin"@, "https://beta.music.apple.com"@),
        ("Referer"@, "https://beta.music.apple.com/"@),
    ]
}

pub fn api_headers(config: &LoadedConfig, jwt: &str) -> (r: Vec<(String, String)>)
    ensures
        header_views(r@) == spec_api_headers(
            config.spec_user_agent(),
            jwt@,
            config.spec_media_token(),
        ),
{
    let mut bearer = "Bearer ".to_owned();
    bearer.append(jwt);
    let r = vec![
        ("User-Agent".to_owned(), config.user_agent().clone()),
        ("Authorization".to_owned(), bearer),
        ("media-user-token".to_owned(), config.media_token().clone()),
        ("Origin".to_owned(), "https://beta.music.apple.com".to_owned()),
        ("Referer".to_owned(), "https://beta.music.apple.com/".to_owned()),
    ];
    assert(header_views(r@) =~= spec_api_headers(
        config.spec_user_agent(),
        jwt@,
        config.spec_media_token(),
    ));
    r
}

/// The request for a song's lyrics.
pub fn lyrics_request(config: &LoadedConfig, catalog_id: u64, jwt: &str) -> (r: HttpRequest)
    ensures
        is_get_request(
            r,
            spec_lyrics_url(config.spec_account_country(), config.spec_translation_language(), catalog_id),
            spec_api_headers(config.spec_user_agent(), jwt@, config.spec_media_token()),
        ),
{
    get_request(lyrics_url(config, catalog_id), api_headers(config, jwt))
}

/// Header law: no request of the plugin names a header twice.
pub proof fn law_header_names_distinct(user_agent: Seq<char>, jwt: Seq<char>, media_token: Seq<char>)
    ensures
        distinct_names(spec_web_headers(user_agent)),
        distinct_names(spec_api_headers(user_agent, jwt, media_token)),
{
    reveal_strlit("User-Agent");
    reveal_strlit("Origin");
    reveal_strlit("Referer");
    reveal_strlit("Authorization");
    reveal_strlit("media-user-token");
    let w = spec_web_headers(user_agent);
    assert forall|i: int, j: int| 0 <= i < j < w.len() implies w[i].0 != w[j].0 by {
        assert(w[i].0.len() != w[j].0.len() || w[i].0[0] != w[j].0[0]);
    }
    let a = spec_api_headers(user_agent, jwt, media_token);
    assert forall|i: int, j: int| 0 <= i < j < a.len() implies a[i].0 != a[j].0 by {
        assert(a[i].0.len() != a[j].0.len() || a[i].0[0] != a[j].0[0]);
    }
}

/// The cache key of a song's lyrics.
pub open spec fn spec_lyrics_cache_key(catalog_id: u64) -> Seq<char> {
    "lyrics:"@ + decimal_digits(catalog_id as nat)
}

pub fn lyrics_cache_key(catalog_id: u64) -> (r: String)
    ensures
        r@ == spec_lyrics_cache_key(catalog_id),
{
    let mut k = "lyrics:".to_owned();
    push_decimal(&mut k, catalog_id);
    k
}

/// For how many seconds fetched lyrics stay cached.
pub fn lyrics_cache_ttl_seconds(config: &LoadedConfig) -> (r: i64)
    ensures
        r == config.spec_cache_days() * 24 * 60 * 60,
        86_400 <= r <= 2_592_000,
{
    config.cache_days() * 24 * 60 * 60
}

/// The cache key of the web player's token.
pub const JWT_CACHE_KEY: &'static str = "apm_jwt_token";

/// For how many seconds the token stays cached: one day.
pub const JWT_CACHE_TTL_SECONDS: i64 = 86_400;

} // verus!
