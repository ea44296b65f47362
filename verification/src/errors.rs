//! The ways a lyrics request fails, and the message that each one reports.

use vstd::prelude::*;
use crate::digits::{DigitError, push_decimal, decimal_digits};

verus! {

/// A configuration setting that the plugin cannot do without.
#[derive(Debug, Clone, Copy, PartialEq, Eq, Structural)]
pub enum ConfigKey {
    MediaToken,
    UserAgent,
    Storefront,
}

/// Why a lyrics request failed.
#[derive(Debug, Clone)]
pub enum LyricsError {
    /// A call to the host failed; the text says which call and how.
    Host(String),
    /// A required setting has no value.
    ConfigNotSet(ConfigKey),
    /// `cache_days` lies outside `1..=30`.
    CacheDaysOutOfRange,
    /// The track has no library or no path, so its file cannot be read.
    NoLibraryAccess,
    /// The host knows no library with this ID.
    LibraryNotFound(u64),
    /// The track's file carries no catalog ID tag; the value is the song ID.
    NoTags(String),
    /// The catalog ID tag is not a decimal number.
    BadCatalogId(DigitError),
    /// The MP4 `cnID` atom holds a kind of data other than an integer or
    /// text; the value describes that data.
    UnexpectedMp4Data(String),
    /// The web player's home page loads no script bundle.
    NoScriptAssets,
    /// No script bundle of the web player holds a token.
    NoJwtToken,
}

/// The text that `str::parse::<u64>` gives for each of its errors.
pub open spec fn digit_error_text(e: DigitError) -> Seq<char> {
    match e {
        DigitError::Empty => "cannot parse integer from empty string"@,
        DigitError::InvalidDigit => "invalid digit found in string"@,
        DigitError::PosOverflow => "number too large to fit in target type"@,
    }
}

/// The name by which the message of a missing setting calls it.
pub open spec fn config_key_name(k: ConfigKey) -> Seq<char> {
    match k {
        ConfigKey::MediaToken => "media_token"@,
        ConfigKey::UserAgent => "user_agent"@,
        ConfigKey::Storefront => "country"@,
    }
}

/// The message reported for each error.
pub open spec fn error_message(e: LyricsError) -> Seq<char> {
    match e {
        LyricsError::Host(text) => text@,
        LyricsError::ConfigNotSet(k) => "Configuration not set for "@ + config_key_name(k),
        LyricsError::CacheDaysOutOfRange => "cache_days must be between 1 and 30"@,
        LyricsError::NoLibraryAccess => "No permissions to get library data"@,
        LyricsError::LibraryNotFound(id) => "Unable to find the provided library with ID: "@
            + decimal_digits(id as nat),
        LyricsError::NoTags(song) => "No tags found for song ID: "@ + song@,
        LyricsError::BadCatalogId(d) => "Failed to parse content ID into number: "@
            + digit_error_text(d),
        LyricsError::UnexpectedMp4Data(what) => "mp4a_meta_read failed: unexpected data type: "@
            + what@,
        LyricsError::NoScriptAssets => "Failed to find any script assets on the Apple Music home page"@,
        LyricsError::NoJwtToken => "Failed to find the JWT token in any Apple Music script asset"@,
    }
}

fn digit_error_str(e: DigitError) -> (r: &'static str)
    ensures
        r@ == digit_error_text(e),
{
    match e {
        DigitError::Empty => "cannot parse integer from empty string",
        DigitError::InvalidDigit => "invalid digit found in string",
        DigitError::PosOverflow => "number too large to fit in target type",
    }
}

fn config_key_str(k: ConfigKey) -> (r: &'static str)
    ensures
        r@ == config_key_name(k),
{
    match k {
        ConfigKey::MediaToken => "media_token",
        ConfigKey::UserAgent => "user_agent",
        ConfigKey::Storefront => "country",
    }
}

impl LyricsError {
    /// The message reported to the host for this error.
    pub fn message(&self) -> (r: String)
        ensures
            r@ == error_message(*self),
    {
        match self {
            LyricsError::Host(text) => text.clone(),
            LyricsError::ConfigNotSet(k) => {
                let mut m = "Configuration not set for ".to_owned();
                m.append(config_key_str(*k));
                m
            },
            LyricsError::CacheDaysOutOfRange => "cache_days must be between 1 and 30".to_owned(),
            LyricsError::NoLibraryAccess => "No permissions to get library data".to_owned(),
            LyricsError::LibraryNotFound(id) => {
                let mut m = "Unable to find the provided library with ID: ".to_owned();
                push_decimal(&mut m, *id);
                m
            },
            LyricsError::NoTags(song) => {
                let mut m = "No tags found for song ID: ".to_owned();
                m.append(song.as_str());
                m
            },
            LyricsError::BadCatalogId(d) => {
                let mut m = "Failed to parse content ID into number: ".to_owned();
                m.append(digit_error_str(*d));
                m
            },
            LyricsError::UnexpectedMp4Data(what) => {
                let mut m = "mp4a_meta_read failed: unexpected data type: ".to_owned();
                m.append(what.as_str());
                m
            },
            LyricsError::NoScriptAssets => "Failed to find any script assets on the Apple Music home page".to_owned(),
            LyricsError::NoJwtToken => "Failed to find the JWT token in any Apple Music script asset".to_owned(),
        }
    }
}

} // verus!
