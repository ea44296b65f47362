//! The plugin's settings, as the host's configuration store answers for them.

use vstd::prelude::*;
use crate::errors::{ConfigKey, LyricsError};

verus! {

/// What the host's configuration store answered for each setting, in the
/// order the plugin asks: a value, no value, or the text of a failed lookup.
pub struct ConfigValues {
    pub media_token: Result<Option<String>, String>,
    pub user_agent: Result<Option<String>, String>,
    pub storefront: Result<Option<String>, String>,
    pub cache_days: Result<Option<i64>, String>,
    pub skip_cache: Result<Option<String>, String>,
    pub translation_language: Result<Option<String>, String>,
}

/// For how many days lyrics stay cached when `cache_days` is not set.
pub const DEFAULT_CACHE_DAYS: i64 = 7;

/// The setting names under which the host stores the plugin's configuration.
pub const MEDIA_TOKEN: &'static str = "media_token";
pub const USER_AGENT: &'static str = "user_agent";
pub const ACCOUNT_COUNTRY: &'static str = "storefront";
pub const CACHE_DAYS: &'static str = "cache_days";
pub const SKIP_CACHE: &'static str = "skip_cache";
pub const TRANSLATION_LANGUAGE: &'static str = "translation_language";

/// The Unicode lowercase of a text, as `str::to_lowercase` maps it.
pub uninterp spec fn lowercase(s: Seq<char>) -> Seq<char>;

/// `str::to_lowercase` (std): maps every character to its Unicode lowercase.
/// The contract names the result and says nothing more of the mapping.
#[verifier::external_body]
fn to_lowercase(s: &str) -> (r: String)
    ensures
        r@ == lowercase(s@),
{
    s.to_lowercase()
}

/// Whether the lowercased `skip_cache` setting turns the cache off.
pub fn is_true_setting(lowered: &String) -> (b: bool)
    ensures
        b == (lowered@ == "true"@),
{
    *lowered == "true".to_owned()
}

/// The plugin's configuration, once every required setting is present and
/// `cache_days` lies in `1..=30`.
#[derive(Debug)]
pub struct LoadedConfig {
    media_token: String,
    user_agent: String,
    account_country: String,
    cache_days: i64,
    skip_cache: bool,
    translation_language: String,
}

/// The first error that reading the settings in order meets, if any.
pub open spec fn config_error(v: ConfigValues) -> Option<LyricsError> {
    match (v.media_token, v.user_agent, v.storefront, v.cache_days, v.skip_cache, v.translation_language) {
        (Err(e), _, _, _, _, _) => Some(LyricsError::Host(e)),
        (Ok(None), _, _, _, _, _) => Some(LyricsError::ConfigNotSet(ConfigKey::MediaToken)),
        (_, Err(e), _, _, _, _) => Some(LyricsError::Host(e)),
        (_, Ok(None), _, _, _, _) => Some(LyricsError::ConfigNotSet(ConfigKey::UserAgent)),
        (_, _, Err(e), _, _, _) => Some(LyricsError::Host(e)),
        (_, _, Ok(None), _, _, _) => Some(LyricsError::ConfigNotSet(ConfigKey::Storefront)),
        (_, _, _, Err(e), _, _) => Some(LyricsError::Host(e)),
        (_, _, _, Ok(Some(d)), _, _) if d < 1 || d > 30 => Some(LyricsError::CacheDaysOutOfRange),
        (_, _, _, _, Err(e), _) => Some(LyricsError::Host(e)),
        (_, _, _, _, _, Err(e)) => Some(LyricsError::Host(e)),
        _ => None,
    }
}

impl LoadedConfig {
    #[verifier::type_invariant]
    spec fn wf(self) -> bool {
        1 <= self.cache_days <= 30
    }

    pub closed spec fn spec_media_token(self) -> Seq<char> {
        self.media_token@
    }

    pub closed spec fn spec_user_agent(self) -> Seq<char> {
        self.user_agent@
    }

    pub closed spec fn spec_account_country(self) -> Seq<char> {
        self.account_country@
    }

    pub closed spec fn spec_cache_days(self) -> i64 {
        self.cache_days
    }

    pub closed spec fn spec_skip_cache(self) -> bool {
        self.skip_cache
    }

    pub closed spec fn spec_translation_language(self) -> Seq<char> {
        self.translation_language@
    }

    /// Builds the configuration from the store's answers: the first missing
    /// required setting or failed lookup, in the order media token, user
    /// agent, storefront, cache days (then its range), skip cache,
    /// translation language, is the error. `cache_days` defaults to 7;
    /// `skip_cache` is on when its value lowercases to `true`; the
    /// translation language defaults to `en-GB`.
    pub fn read(values: ConfigValues) -> (r: Result<LoadedConfig, LyricsError>)
        ensures
            r is Err <==> config_error(values) is Some,
            r matches Err(e) ==> Some(e) == config_error(values),
            r matches Ok(c) ==> {
                &&& values.media_token matches Ok(Some(v)) && v@ == c.spec_media_token()
                &&& values.user_agent matches Ok(Some(v)) && v@ == c.spec_user_agent()
                &&& values.storefront matches Ok(Some(v)) && v@ == c.spec_account_country()
                &&& match values.cache_days {
                    Ok(Some(d)) => c.spec_cache_days() == d,
                    _ => c.spec_cache_days() == DEFAULT_CACHE_DAYS,
                }
                &&& c.spec_skip_cache() == (values.skip_cache matches Ok(Some(v)) && lowercase(
                    v@,
                ) == "true"@)
                &&& c.spec_translation_language() == (match values.translation_language {
                    Ok(Some(t)) => t@,
                    _ => "en-GB"@,
                })
            },
    {
        let media_token = match values.media_token {
            Err(e) => return Err(LyricsError::Host(e)),
            Ok(None) => return Err(LyricsError::ConfigNotSet(ConfigKey::MediaToken)),
            Ok(Some(v)) => v,
        };
        let user_agent = match values.user_agent {
            Err(e) => return Err(LyricsError::Host(e)),
            Ok(None) => return Err(LyricsError::ConfigNotSet(ConfigKey::UserAgent)),
            Ok(Some(v)) => v,
        };
        let account_country = match values.storefront {
            Err(e) => return Err(LyricsError::Host(e)),
            Ok(None) => return Err(LyricsError::ConfigNotSet(ConfigKey::Storefront)),
            Ok(Some(v)) => v,
        };
        let cache_days = match values.cache_days {
            Err(e) => return Err(LyricsError::Host(e)),
            Ok(None) => DEFAULT_CACHE_DAYS,
            Ok(Some(v)) => v,
        };
        if cache_days < 1 || cache_days > 30 {
            return Err(LyricsError::CacheDaysOutOfRange);
        }
        let skip_cache = match values.skip_cache {
            Err(e) => return Err(LyricsError::Host(e)),
            Ok(None) => false,
            Ok(Some(v)) => is_true_setting(&to_lowercase(v.as_str())),
        };
        let translation_language = match values.translation_language {
            Err(e) => return Err(LyricsError::Host(e)),
            Ok(None) => "en-GB".to_owned(),
            Ok(Some(v)) => v,
        };
        Ok(LoadedConfig {
            media_token,
            user_agent,
            account_country,
            cache_days,
            skip_cache,
            translation_language,
        })
    }
}

impl LoadedConfig {
    /// The `media-user-token` of the subscriber's session.
    pub fn media_token(&self) -> (r: &String)
        ensures
            r@ == self.spec_media_token(),
    {
        &self.media_token
    }

    /// The `User-Agent` that the session was issued to.
    pub fn user_agent(&self) -> (r: &String)
        ensures
            r@ == self.spec_user_agent(),
    {
        &self.user_agent
    }

    /// The account's storefront country code.
    pub fn account_country(&self) -> (r: &String)
        ensures
            r@ == self.spec_account_country(),
    {
        &self.account_country
    }

    /// For how many days fetched lyrics stay cached; always in `1..=30`.
    pub fn cache_days(&self) -> (r: i64)
        ensures
            r == self.spec_cache_days(),
            1 <= r <= 30,
    {
        proof {
            use_type_invariant(self);
        }
        self.cache_days
    }

    /// Whether lyrics are always fetched afresh.
    pub fn skip_cache(&self) -> (r: bool)
        ensures
            r == self.spec_skip_cache(),
    {
        self.skip_cache
    }

    /// The language of the lyrics' translation.
    pub fn translation_language(&self) -> (r: &String)
        ensures
            r@ == self.spec_translation_language(),
    {
        &self.translation_language
    }
}

} // verus!
