//! The decisions of a lyrics request, between the host calls that the
//! plugin makes: which call comes next, with what, and what its answer means.

use vstd::prelude::*;
use crate::config::LoadedConfig;
use crate::digits::{coerce_to_digit, spec_parse_u64};
use crate::errors::LyricsError;
use crate::models::{LyricsText, SyllableLyricsResponse, lyrics_from_response, lyrics_of, lyrics_view};
use crate::requests::{
    HttpRequest, JWT_CACHE_KEY, JWT_CACHE_TTL_SECONDS, home_page_request, is_get_request,
    lyrics_cache_key, lyrics_cache_ttl_seconds, lyrics_request, script_request, spec_api_headers,
    spec_home_page_url, spec_lyrics_cache_key, spec_lyrics_url, spec_web_headers,
};
use crate::scan::{find_jwt_token, find_script_urls, first_jwt_from, script_urls_from};
use crate::urls::{order_script_urls, resolve_asset_url, spec_order_script_urls, spec_resolve_asset_url, views};

verus! {

/// The track must lie in a library and have a path there; its library ID is
/// then positive.
pub fn check_track(library_id: i64, path: &str) -> (r: Result<u64, LyricsError>)
    ensures
        r is Ok <==> library_id > 0 && path@.len() > 0,
        r matches Ok(id) ==> id == library_id,
        r matches Err(e) ==> e == LyricsError::NoLibraryAccess,
{
    if library_id > 0 && !path.is_empty() {
        Ok(library_id as u64)
    } else {
        Err(LyricsError::NoLibraryAccess)
    }
}

/// The mount point of the track's library, as the host answered for it.
pub fn require_library(library_id: u64, mount_point: Option<String>) -> (r: Result<String, LyricsError>)
    ensures
        match mount_point {
            Some(m) => r == Ok::<String, LyricsError>(m),
            None => r == Err::<String, LyricsError>(LyricsError::LibraryNotFound(library_id)),
        },
{
    match mount_point {
        Some(m) => Ok(m),
        None => Err(LyricsError::LibraryNotFound(library_id)),
    }
}

/// The catalog ID as a number, from the tag value found in the track's file.
pub fn catalog_id_from_tag(tag: Option<String>, song_id: &str) -> (r: Result<u64, LyricsError>)
    ensures
        match tag {
            None => (r matches Err(LyricsError::NoTags(s)) && s@ == song_id@),
            Some(t) => match spec_parse_u64(t@) {
                Ok(v) => r == Ok::<u64, LyricsError>(v),
                Err(d) => r == Err::<u64, LyricsError>(LyricsError::BadCatalogId(d)),
            },
        },
{
    match tag {
        None => Err(LyricsError::NoTags(song_id.to_owned())),
        Some(t) => match coerce_to_digit(t) {
            Ok(v) => Ok(v),
            Err(d) => Err(LyricsError::BadCatalogId(d)),
        },
    }
}

/// What the host does next to obtain the web player's token.
#[derive(Debug)]
pub enum JwtStep {
    /// The token is ready.
    Use(String),
    /// Send this request and hand its text to the search.
    Fetch(HttpRequest),
    /// A token was found: cache it under `key` for `ttl_seconds`, then use it.
    Store { key: String, jwt: String, ttl_seconds: i64 },
    /// The token cannot be had.
    Failed(LyricsError),
}

/// The search for the token through the web player's script bundles.
pub struct JwtSearch {
    candidates: Vec<String>,
    next: usize,
}

/// The step that caches a freshly found token.
pub open spec fn is_store_step(step: JwtStep, jwt: Seq<char>) -> bool {
    step matches JwtStep::Store { key, jwt: t, ttl_seconds } && key@ == JWT_CACHE_KEY@ && t@ == jwt
        && ttl_seconds == JWT_CACHE_TTL_SECONDS
}

/// The step that fetches a script bundle.
pub open spec fn is_script_fetch(step: JwtStep, config: LoadedConfig, src: Seq<char>) -> bool {
    step matches JwtStep::Fetch(req) && is_get_request(
        req,
        spec_resolve_asset_url(src),
        spec_web_headers(config.spec_user_agent()),
    )
}

/// The bundles that a home page offers, in search order.
pub open spec fn spec_candidates(html: Seq<char>) -> Seq<Seq<char>> {
    spec_order_script_urls(script_urls_from(html, 0))
}

impl JwtSearch {
    #[verifier::type_invariant]
    spec fn wf(self) -> bool {
        self.next <= self.candidates@.len()
    }

    /// The bundles in search order.
    pub closed spec fn spec_candidates(self) -> Seq<Seq<char>> {
        views(self.candidates@)
    }

    /// How many bundles have been fetched.
    pub closed spec fn spec_next(self) -> int {
        self.next as int
    }

    /// A cached token is used as it is; without one the search begins with
    /// the web player's home page.
    pub fn start(config: &LoadedConfig, cached: Option<String>) -> (r: JwtStep)
        ensures
            match cached {
                Some(t) => r == JwtStep::Use(t),
                None => (r matches JwtStep::Fetch(req) && is_get_request(
                    req,
                    spec_home_page_url(config.spec_account_country()),
                    spec_web_headers(config.spec_user_agent()),
                )),
            },
    {
        match cached {
            Some(t) => JwtStep::Use(t),
            None => JwtStep::Fetch(home_page_request(config)),
        }
    }

    /// From the home page's text: the search fails when the page loads no
    /// bundle, and otherwise fetches the first bundle in search order.
    pub fn on_home_page(config: &LoadedConfig, html: &str) -> (r: (JwtSearch, JwtStep))
        ensures
            r.0.spec_candidates() == spec_candidates(html@),
            spec_candidates(html@).len() == 0 ==> r.1 == JwtStep::Failed(LyricsError::NoScriptAssets),
            spec_candidates(html@).len() > 0 ==> r.0.spec_next() == 1 && is_script_fetch(
                r.1,
                *config,
                spec_candidates(html@)[0],
            ),
    {
        let candidates = order_script_urls(find_script_urls(html));
        if candidates.len() == 0 {
            return (JwtSearch { candidates, next: 0 }, JwtStep::Failed(LyricsError::NoScriptAssets));
        }
        let url = resolve_asset_url(candidates[0].as_str());
        let step = JwtStep::Fetch(script_request(config, url));
        (JwtSearch { candidates, next: 1 }, step)
    }

    /// From a bundle's text: its token, if it holds one, is cached and used;
    /// otherwise the next bundle is fetched, and when none is left the
    /// search fails.
    pub fn on_script(&mut self, config: &LoadedConfig, js: &str) -> (r: JwtStep)
        ensures
            final(self).spec_candidates() == old(self).spec_candidates(),
            match first_jwt_from(js@, 0) {
                Some(t) => is_store_step(r, t) && final(self).spec_next() == old(self).spec_next(),
                None => if old(self).spec_next() < old(self).spec_candidates().len() {
                    final(self).spec_next() == old(self).spec_next() + 1 && is_script_fetch(
                        r,
                        *config,
                        old(self).spec_candidates()[old(self).spec_next()],
                    )
                } else {
                    final(self).spec_next() == old(self).spec_next() && r == JwtStep::Failed(
                        LyricsError::NoJwtToken,
                    )
                },
            },
    {
        proof {
            use_type_invariant(&*self);
        }
        match find_jwt_token(js) {
            Some(t) => JwtStep::Store {
                key: JWT_CACHE_KEY.to_owned(),
                jwt: t,
                ttl_seconds: JWT_CACHE_TTL_SECONDS,
            },
            None => {
                if self.next < self.candidates.len() {
                    let url = resolve_asset_url(self.candidates[self.next].as_str());
                    self.next = self.next + 1;
                    JwtStep::Fetch(script_request(config, url))
                } else {
                    JwtStep::Failed(LyricsError::NoJwtToken)
                }
            },
        }
    }
}

/// Where the token search stands after a bundle's text.
pub enum SearchOutcome {
    /// The bundle with this `src` is fetched next.
    Fetching(Seq<char>),
    /// This token was found, and is cached and used.
    Stored(Seq<char>),
    /// No bundle is left: the search fails.
    NoToken,
}

/// One step of the search, as `JwtSearch::on_script` takes it: with `n`
/// bundles fetched out of `c`, the text `js` of the last one.
pub open spec fn search_step(c: Seq<Seq<char>>, n: int, js: Seq<char>) -> (int, SearchOutcome) {
    match first_jwt_from(js, 0) {
        Some(t) => (n, SearchOutcome::Stored(t)),
        None => if n < c.len() {
            (n + 1, SearchOutcome::Fetching(c[n]))
        } else {
            (n, SearchOutcome::NoToken)
        },
    }
}

/// Where the search ends when `bodies` answer its fetches in turn.
pub open spec fn run_search(c: Seq<Seq<char>>, n: int, bodies: Seq<Seq<char>>) -> SearchOutcome
    decreases bodies.len(),
{
    if bodies.len() == 0 {
        SearchOutcome::NoToken
    } else {
        let (n2, o) = search_step(c, n, bodies[0]);
        match o {
            SearchOutcome::Fetching(_) => run_search(c, n2, bodies.drop_first()),
            _ => o,
        }
    }
}

/// The token of the first text, in order, that holds one.
pub open spec fn first_token(bodies: Seq<Seq<char>>) -> Option<Seq<char>>
    decreases bodies.len(),
{
    if bodies.len() == 0 {
        None
    } else {
        match first_jwt_from(bodies[0], 0) {
            Some(t) => Some(t),
            None => first_token(bodies.drop_first()),
        }
    }
}

proof fn lemma_run_search(c: Seq<Seq<char>>, n: int, bodies: Seq<Seq<char>>)
    requires
        1 <= n <= c.len(),
        bodies.len() == c.len() - n + 1,
    ensures
        run_search(c, n, bodies) == match first_token(bodies) {
            Some(t) => SearchOutcome::Stored(t),
            None => SearchOutcome::NoToken,
        },
    decreases bodies.len(),
{
    if first_jwt_from(bodies[0], 0) is None {
        if n < c.len() {
            lemma_run_search(c, n + 1, bodies.drop_first());
        } else {
            assert(bodies.drop_first().len() == 0);
            assert(first_token(bodies.drop_first()) is None);
        }
    }
}

/// Search law: when every bundle in search order answers its fetch with its
/// text, the search ends with the token of the first bundle that holds one,
/// and fails when none does.
pub proof fn law_search_finds_first_token(c: Seq<Seq<char>>, bodies: Seq<Seq<char>>)
    requires
        c.len() >= 1,
        bodies.len() == c.len(),
    ensures
        run_search(c, 1, bodies) == match first_token(bodies) {
            Some(t) => SearchOutcome::Stored(t),
            None => SearchOutcome::NoToken,
        },
{
    lemma_run_search(c, 1, bodies);
}

/// What the host does next to obtain a song's lyrics.
#[derive(Debug)]
pub enum LyricsStep {
    /// Look up the cache under `key` and hand back what it holds.
    Lookup { key: String },
    /// Send this request and hand back the API's answer.
    Fetch(HttpRequest),
    /// Cache the lyrics under `key` for `ttl_seconds`, then return them.
    Store { key: String, ttl_seconds: i64, lyrics: Vec<LyricsText> },
    /// Return these lyrics.
    Done(Vec<LyricsText>),
}

/// The request for a song's lyrics with the configured language and token.
pub open spec fn is_lyrics_fetch(step: LyricsStep, config: LoadedConfig, catalog_id: u64, jwt: Seq<char>) -> bool {
    step matches LyricsStep::Fetch(req) && is_get_request(
        req,
        spec_lyrics_url(config.spec_account_country(), config.spec_translation_language(), catalog_id),
        spec_api_headers(config.spec_user_agent(), jwt, config.spec_media_token()),
    )
}

/// Fetching a song's lyrics through the cache.
pub struct LyricsFetch {
    catalog_id: u64,
    key: String,
    ttl_seconds: i64,
}

impl LyricsFetch {
    pub closed spec fn spec_catalog_id(self) -> u64 {
        self.catalog_id
    }

    pub closed spec fn spec_key(self) -> Seq<char> {
        self.key@
    }

    pub closed spec fn spec_ttl_seconds(self) -> i64 {
        self.ttl_seconds
    }

    /// With `skip_cache` the lyrics are fetched at once; otherwise the cache
    /// is looked up first, under `lyrics:<catalog ID>`.
    pub fn start(config: &LoadedConfig, catalog_id: u64, jwt: &str) -> (r: (LyricsFetch, LyricsStep))
        ensures
            r.0.spec_catalog_id() == catalog_id,
            r.0.spec_key() == spec_lyrics_cache_key(catalog_id),
            r.0.spec_ttl_seconds() == config.spec_cache_days() * 86_400,
            config.spec_skip_cache() ==> is_lyrics_fetch(r.1, *config, catalog_id, jwt@),
            !config.spec_skip_cache() ==> (r.1 matches LyricsStep::Lookup { key } && key@
                == spec_lyrics_cache_key(catalog_id)),
    {
        let state = LyricsFetch {
            catalog_id,
            key: lyrics_cache_key(catalog_id),
            ttl_seconds: lyrics_cache_ttl_seconds(config),
        };
        if config.skip_cache() {
            (state, LyricsStep::Fetch(lyrics_request(config, catalog_id, jwt)))
        } else {
            let key = lyrics_cache_key(catalog_id);
            (state, LyricsStep::Lookup { key })
        }
    }

    /// From the cache's answer: cached lyrics are returned as they are;
    /// without them the lyrics are fetched.
    pub fn on_cache(&self, config: &LoadedConfig, jwt: &str, cached: Option<Vec<LyricsText>>) -> (r: LyricsStep)
        ensures
            match cached {
                Some(l) => r == LyricsStep::Done(l),
                None => is_lyrics_fetch(r, *config, self.spec_catalog_id(), jwt@),
            },
    {
        match cached {
            Some(l) => LyricsStep::Done(l),
            None => LyricsStep::Fetch(lyrics_request(config, self.catalog_id, jwt)),
        }
    }

    /// From the API's answer: its lyrics are cached under the song's key for
    /// the configured number of days, and returned.
    pub fn on_response(&self, response: &SyllableLyricsResponse) -> (r: LyricsStep)
        ensures
            r matches LyricsStep::Store { key, ttl_seconds, lyrics } && key@ == self.spec_key()
                && ttl_seconds == self.spec_ttl_seconds() && lyrics@.map_values(
                |l: LyricsText| lyrics_view(l),
            ) == lyrics_of(response.data@),
    {
        LyricsStep::Store {
            key: self.key.clone(),
            ttl_seconds: self.ttl_seconds,
            lyrics: lyrics_from_response(response),
        }
    }
}

} // verus!
