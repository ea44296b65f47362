use apm_lyrics_ndp::config::{ConfigValues, LoadedConfig};
use apm_lyrics_ndp::digits::DigitError;
use apm_lyrics_ndp::errors::{ConfigKey, LyricsError};
use apm_lyrics_ndp::flows::{
    catalog_id_from_tag, check_track, require_library, JwtSearch, JwtStep, LyricsFetch, LyricsStep,
};
use apm_lyrics_ndp::models::{LyricsText, SyllableAttributes, SyllableData, SyllableLyricsResponse, lyrics_from_response};
use apm_lyrics_ndp::requests::{api_headers, home_page_request, lyrics_cache_key, lyrics_cache_ttl_seconds, lyrics_url, web_headers};
use apm_lyrics_ndp::tags::{catalog_id_from_tags, catalog_keys_exec, first_present, get_mp4_catalog_id, AudioFormat, FileTags, Mp4Data, TagLookups};
use apm_lyrics_ndp::urls::{is_main_bundle_exec, order_script_urls, resolve_asset_url};

fn values() -> ConfigValues {
    ConfigValues {
        media_token: Ok(Some("mut".to_string())),
        user_agent: Ok(Some("Mozilla/5.0".to_string())),
        storefront: Ok(Some("gb".to_string())),
        cache_days: Ok(Some(7)),
        skip_cache: Ok(None),
        translation_language: Ok(None),
    }
}

fn config() -> LoadedConfig {
    LoadedConfig::read(values()).unwrap()
}

fn message(r: Result<LoadedConfig, LyricsError>) -> String {
    match r {
        Ok(_) => panic!("expected an error"),
        Err(e) => e.message(),
    }
}

#[test]
fn config_reads_defaults() {
    let c = config();
    assert_eq!(c.media_token(), "mut");
    assert_eq!(c.user_agent(), "Mozilla/5.0");
    assert_eq!(c.account_country(), "gb");
    assert_eq!(c.cache_days(), 7);
    assert!(!c.skip_cache());
    assert_eq!(c.translation_language(), "en-GB");
}

#[test]
fn config_skip_cache_is_case_insensitive_true() {
    for (text, expected) in [("true", true), ("TRUE", true), ("True", true), ("false", false), ("yes", false), ("1", false)] {
        let mut v = values();
        v.skip_cache = Ok(Some(text.to_string()));
        v.translation_language = Ok(Some("ja".to_string()));
        let c = LoadedConfig::read(v).unwrap();
        assert_eq!(c.skip_cache(), expected, "{}", text);
        assert_eq!(c.translation_language(), "ja");
    }
}

#[test]
fn config_reports_missing_settings_in_order() {
    let mut v = values();
    v.media_token = Ok(None);
    v.user_agent = Ok(None);
    assert_eq!(message(LoadedConfig::read(v)), "Configuration not set for media_token");
    let mut v = values();
    v.user_agent = Ok(None);
    assert_eq!(message(LoadedConfig::read(v)), "Configuration not set for user_agent");
    let mut v = values();
    v.storefront = Ok(None);
    assert_eq!(message(LoadedConfig::read(v)), "Configuration not set for country");
    let mut v = values();
    v.user_agent = Err("get_config[user_agent] failed: boom".to_string());
    v.storefront = Ok(None);
    assert_eq!(message(LoadedConfig::read(v)), "get_config[user_agent] failed: boom");
}

#[test]
fn config_cache_days_defaults_to_seven() {
    let v = ConfigValues {
        media_token: Ok(Some("m".to_string())),
        user_agent: Ok(Some("ua".to_string())),
        storefront: Ok(Some("us".to_string())),
        cache_days: Ok(None),
        skip_cache: Ok(None),
        translation_language: Ok(None),
    };
    let c = LoadedConfig::read(v).unwrap();
    assert_eq!(c.media_token(), "m");
    assert_eq!(c.user_agent(), "ua");
    assert_eq!(c.account_country(), "us");
    assert_eq!(c.cache_days(), 7);
    assert!(!c.skip_cache());
    assert_eq!(c.translation_language(), "en-GB");
    assert_eq!(lyrics_cache_ttl_seconds(&c), 7 * 86_400);
}

#[test]
fn config_checks_cache_days_range() {
    for (days, ok) in [(0, false), (1, true), (30, true), (31, false), (-5, false)] {
        let mut v = values();
        v.cache_days = Ok(Some(days));
        v.skip_cache = Err("unreachable".to_string());
        let r = LoadedConfig::read(v);
        if ok {
            assert_eq!(message(r), "unreachable");
        } else {
            assert_eq!(message(r), "cache_days must be between 1 and 30");
        }
    }
}

#[test]
fn error_messages() {
    assert_eq!(LyricsError::NoLibraryAccess.message(), "No permissions to get library data");
    assert_eq!(LyricsError::LibraryNotFound(42).message(), "Unable to find the provided library with ID: 42");
    assert_eq!(LyricsError::NoTags("tr-1".to_string()).message(), "No tags found for song ID: tr-1");
    assert_eq!(
        LyricsError::BadCatalogId(DigitError::InvalidDigit).message(),
        "Failed to parse content ID into number: invalid digit found in string"
    );
    assert_eq!(
        LyricsError::BadCatalogId(DigitError::Empty).message(),
        "Failed to parse content ID into number: cannot parse integer from empty string"
    );
    assert_eq!(
        LyricsError::BadCatalogId(DigitError::PosOverflow).message(),
        "Failed to parse content ID into number: number too large to fit in target type"
    );
    assert_eq!(LyricsError::ConfigNotSet(ConfigKey::Storefront).message(), "Configuration not set for country");
    assert_eq!(
        LyricsError::NoScriptAssets.message(),
        "Failed to find any script assets on the Apple Music home page"
    );
    assert_eq!(
        LyricsError::NoJwtToken.message(),
        "Failed to find the JWT token in any Apple Music script asset"
    );
    assert_eq!(
        LyricsError::UnexpectedMp4Data("Bmp([1])".to_string()).message(),
        "mp4a_meta_read failed: unexpected data type: Bmp([1])"
    );
}

#[test]
fn resolve_asset_url_cases() {
    assert_eq!(resolve_asset_url("/assets/index.js"), "https://beta.music.apple.com/assets/index.js");
    assert_eq!(resolve_asset_url("///assets/a.js"), "https://beta.music.apple.com/assets/a.js");
    assert_eq!(resolve_asset_url("assets/a.js"), "https://beta.music.apple.com/assets/a.js");
    assert_eq!(resolve_asset_url("https://cdn.example/a.js"), "https://cdn.example/a.js");
    assert_eq!(resolve_asset_url("http://cdn.example/a.js"), "http://cdn.example/a.js");
    assert_eq!(resolve_asset_url("httpx://a.js"), "https://beta.music.apple.com/httpx://a.js");
}

#[test]
fn main_bundles_come_first() {
    assert!(is_main_bundle_exec("/assets/index~abc.js"));
    assert!(!is_main_bundle_exec("/assets/index-legacy~abc.js"));
    assert!(!is_main_bundle_exec("/assets/vendor.js"));
    let urls = vec![
        "/assets/vendor.js".to_string(),
        "/assets/index-legacy.js".to_string(),
        "/assets/index~1.js".to_string(),
        "/assets/other.js".to_string(),
        "/assets/index~2.js".to_string(),
    ];
    assert_eq!(
        order_script_urls(urls),
        vec![
            "/assets/index~1.js".to_string(),
            "/assets/index~2.js".to_string(),
            "/assets/vendor.js".to_string(),
            "/assets/index-legacy.js".to_string(),
            "/assets/other.js".to_string(),
        ]
    );
}

#[test]
fn requests_carry_session_headers() {
    let c = config();
    let req = home_page_request(&c);
    assert_eq!(req.method, "GET");
    assert_eq!(req.url, "https://beta.music.apple.com/gb/home");
    assert_eq!(req.timeout_ms, 10_000);
    assert!(!req.no_follow_redirects);
    assert!(req.body.is_empty());
    assert_eq!(
        web_headers(&c),
        vec![
            ("User-Agent".to_string(), "Mozilla/5.0".to_string()),
            ("Origin".to_string(), "https://beta.music.apple.com".to_string()),
            ("Referer".to_string(), "https://beta.music.apple.com/".to_string()),
        ]
    );
    assert_eq!(
        api_headers(&c, "tok"),
        vec![
            ("User-Agent".to_string(), "Mozilla/5.0".to_string()),
            ("Authorization".to_string(), "Bearer tok".to_string()),
            ("media-user-token".to_string(), "mut".to_string()),
            ("Origin".to_string(), "https://beta.music.apple.com".to_string()),
            ("Referer".to_string(), "https://beta.music.apple.com/".to_string()),
        ]
    );
}

#[test]
fn lyrics_url_and_cache_entry() {
    let c = config();
    assert_eq!(
        lyrics_url(&c, 6777110273),
        "https://amp-api.music.apple.com/v1/catalog/gb/songs/6777110273/syllable-lyrics?l[lyrics]=en-GB&l[script]=und-Latn&extend=ttmlLocalizations"
    );
    assert_eq!(lyrics_cache_key(6777110273), "lyrics:6777110273");
    assert_eq!(lyrics_cache_ttl_seconds(&c), 7 * 86_400);
}

#[test]
fn track_checks() {
    assert_eq!(check_track(3, "a/b.flac").unwrap(), 3);
    assert_eq!(check_track(0, "a/b.flac").unwrap_err().message(), "No permissions to get library data");
    assert!(check_track(3, "").is_err());
    assert_eq!(require_library(3, Some("/music".to_string())).unwrap(), "/music");
    assert_eq!(
        require_library(3, None).unwrap_err().message(),
        "Unable to find the provided library with ID: 3"
    );
    assert_eq!(catalog_id_from_tag(Some("1440857781".to_string()), "s1").unwrap(), 1440857781);
    assert_eq!(catalog_id_from_tag(None, "s1").unwrap_err().message(), "No tags found for song ID: s1");
    assert_eq!(
        catalog_id_from_tag(Some("abc".to_string()), "s1").unwrap_err().message(),
        "Failed to parse content ID into number: invalid digit found in string"
    );
}

fn lookups() -> TagLookups {
    TagLookups { id3v2: None, ape: Vec::new(), vorbis: None, riff: Vec::new() }
}

fn found(tags: FileTags) -> Option<String> {
    catalog_id_from_tags(tags).unwrap()
}

#[test]
fn catalog_keys_in_order() {
    assert_eq!(catalog_keys_exec(), vec!["iTunesCatalogId", "ITUNESCATALOGID", "iTunes Catalog ID"]);
    assert_eq!(first_present(&vec![None, Some("2".to_string()), Some("3".to_string())]), Some("2".to_string()));
    assert_eq!(first_present(&vec![None, None]), None);
}

#[test]
fn tag_preference_per_format() {
    let mut t = lookups();
    t.id3v2 = Some("1".to_string());
    t.ape = vec![None, Some("2".to_string()), None];
    t.vorbis = Some("3".to_string());
    t.riff = vec![Some("4".to_string())];
    let f = |format| found(FileTags::Tagged { format, lookups: t.clone() });
    assert_eq!(f(AudioFormat::Aac), Some("1".to_string()));
    assert_eq!(f(AudioFormat::Mpeg), Some("1".to_string()));
    assert_eq!(f(AudioFormat::Flac), Some("3".to_string()));
    assert_eq!(f(AudioFormat::Ape), Some("2".to_string()));
    assert_eq!(f(AudioFormat::Opus), Some("3".to_string()));
    assert_eq!(f(AudioFormat::Vorbis), Some("3".to_string()));
    assert_eq!(f(AudioFormat::Speex), Some("3".to_string()));
    assert_eq!(f(AudioFormat::WavPack), Some("2".to_string()));
    assert_eq!(f(AudioFormat::Wav), Some("4".to_string()));
    assert_eq!(f(AudioFormat::Aiff), Some("1".to_string()));
    assert_eq!(f(AudioFormat::Mpc), Some("2".to_string()));

    let mut only_id3 = lookups();
    only_id3.id3v2 = Some("9".to_string());
    assert_eq!(found(FileTags::Tagged { format: AudioFormat::Mpeg, lookups: only_id3.clone() }), Some("9".to_string()));
    assert_eq!(found(FileTags::Tagged { format: AudioFormat::Wav, lookups: only_id3.clone() }), Some("9".to_string()));
    assert_eq!(found(FileTags::Tagged { format: AudioFormat::WavPack, lookups: only_id3 }), None);
    assert_eq!(found(FileTags::Unsupported), None);
}

#[test]
fn mp4_catalog_id() {
    assert_eq!(get_mp4_catalog_id(None).unwrap(), None);
    assert_eq!(get_mp4_catalog_id(Some(Mp4Data::BeSigned(vec![0x55, 0xe1, 0x3c, 0x0b]))).unwrap(), Some("1440824331".to_string()));
    assert_eq!(get_mp4_catalog_id(Some(Mp4Data::Reserved(vec![0x01, 0x00]))).unwrap(), Some("256".to_string()));
    assert_eq!(get_mp4_catalog_id(Some(Mp4Data::Reserved(Vec::new()))).unwrap(), None);
    assert_eq!(get_mp4_catalog_id(Some(Mp4Data::BeSigned(vec![1; 9]))).unwrap(), None);
    assert_eq!(get_mp4_catalog_id(Some(Mp4Data::Utf8("123".to_string()))).unwrap(), Some("123".to_string()));
    assert_eq!(get_mp4_catalog_id(Some(Mp4Data::Utf16("456".to_string()))).unwrap(), Some("456".to_string()));
    assert_eq!(
        get_mp4_catalog_id(Some(Mp4Data::Other("Jpeg([])".to_string()))).unwrap_err().message(),
        "mp4a_meta_read failed: unexpected data type: Jpeg([])"
    );
    assert_eq!(found(FileTags::Mp4 { cnid: Some(Mp4Data::Utf8("7".to_string())) }), Some("7".to_string()));
}

fn response() -> SyllableLyricsResponse {
    SyllableLyricsResponse {
        data: vec![
            SyllableData {
                id: "1".to_string(),
                kind: "syllable-lyrics".to_string(),
                attributes: SyllableAttributes { ttml_localizations: Some("<tt>a</tt>".to_string()) },
            },
            SyllableData {
                id: "2".to_string(),
                kind: "syllable-lyrics".to_string(),
                attributes: SyllableAttributes { ttml_localizations: None },
            },
            SyllableData {
                id: "3".to_string(),
                kind: "syllable-lyrics".to_string(),
                attributes: SyllableAttributes { ttml_localizations: Some("<tt>b</tt>".to_string()) },
            },
        ],
    }
}

fn texts(l: &[LyricsText]) -> Vec<(String, String)> {
    l.iter().map(|t| (t.lang.clone(), t.text.clone())).collect()
}

#[test]
fn lyrics_keep_songs_with_ttml() {
    assert_eq!(
        texts(&lyrics_from_response(&response())),
        vec![("xxx".to_string(), "<tt>a</tt>".to_string()), ("xxx".to_string(), "<tt>b</tt>".to_string())]
    );
    assert!(lyrics_from_response(&SyllableLyricsResponse { data: Vec::new() }).is_empty());
}

const HEADER: &str = "eyJhbGciOiJFUzI1NiIsInR5cCI6IkpXVCIsImtpZCI6IldlYlBsYXlLaWQifQ";

#[test]
fn jwt_cached_token_is_used() {
    let c = config();
    match JwtSearch::start(&c, Some("cached".to_string())) {
        JwtStep::Use(t) => assert_eq!(t, "cached"),
        other => panic!("{:?}", other),
    }
    match JwtSearch::start(&c, None) {
        JwtStep::Fetch(req) => assert_eq!(req.url, "https://beta.music.apple.com/gb/home"),
        other => panic!("{:?}", other),
    }
}

#[test]
fn jwt_search_tries_main_bundle_first_then_the_rest() {
    let c = config();
    let html = r#"<script src="/assets/vendor.js"></script><script src="/assets/index~x.js"></script>"#;
    let (mut search, step) = JwtSearch::on_home_page(&c, html);
    match step {
        JwtStep::Fetch(req) => {
            assert_eq!(req.url, "https://beta.music.apple.com/assets/index~x.js");
            assert_eq!(req.headers[0], ("User-Agent".to_string(), "Mozilla/5.0".to_string()));
        }
        other => panic!("{:?}", other),
    }
    match search.on_script(&c, "no token") {
        JwtStep::Fetch(req) => assert_eq!(req.url, "https://beta.music.apple.com/assets/vendor.js"),
        other => panic!("{:?}", other),
    }
    let token = format!("{}.payload.signature", HEADER);
    match search.on_script(&c, &format!("x=\"{}\"", token)) {
        JwtStep::Store { key, jwt, ttl_seconds } => {
            assert_eq!(key, "apm_jwt_token");
            assert_eq!(jwt, token);
            assert_eq!(ttl_seconds, 86_400);
        }
        other => panic!("{:?}", other),
    }
}

#[test]
fn jwt_search_fails_without_bundles_or_token() {
    let c = config();
    let (_, step) = JwtSearch::on_home_page(&c, "<html></html>");
    match step {
        JwtStep::Failed(e) => assert_eq!(e.message(), "Failed to find any script assets on the Apple Music home page"),
        other => panic!("{:?}", other),
    }
    let (mut search, _) = JwtSearch::on_home_page(&c, r#"<script src="/a.js">"#);
    match search.on_script(&c, "nothing") {
        JwtStep::Failed(e) => assert_eq!(e.message(), "Failed to find the JWT token in any Apple Music script asset"),
        other => panic!("{:?}", other),
    }
}

#[test]
fn lyrics_fetch_goes_through_the_cache() {
    let c = config();
    let (fetch, step) = LyricsFetch::start(&c, 42, "tok");
    match step {
        LyricsStep::Lookup { key } => assert_eq!(key, "lyrics:42"),
        other => panic!("{:?}", other),
    }
    let cached = vec![LyricsText { lang: "xxx".to_string(), text: "t".to_string() }];
    match fetch.on_cache(&c, "tok", Some(cached)) {
        LyricsStep::Done(l) => assert_eq!(texts(&l), vec![("xxx".to_string(), "t".to_string())]),
        other => panic!("{:?}", other),
    }
    match fetch.on_cache(&c, "tok", None) {
        LyricsStep::Fetch(req) => {
            assert!(req.url.contains("/songs/42/"));
            assert_eq!(req.headers[1], ("Authorization".to_string(), "Bearer tok".to_string()));
        }
        other => panic!("{:?}", other),
    }
    match fetch.on_response(&response()) {
        LyricsStep::Store { key, ttl_seconds, lyrics } => {
            assert_eq!(key, "lyrics:42");
            assert_eq!(ttl_seconds, 7 * 86_400);
            assert_eq!(lyrics.len(), 2);
        }
        other => panic!("{:?}", other),
    }
}

#[test]
fn lyrics_fetch_skips_the_cache_when_configured() {
    let mut v = values();
    v.skip_cache = Ok(Some("true".to_string()));
    let c = LoadedConfig::read(v).unwrap();
    let (_, step) = LyricsFetch::start(&c, 42, "tok");
    match step {
        LyricsStep::Fetch(req) => assert!(req.url.starts_with("https://amp-api.music.apple.com/v1/catalog/gb/songs/42/")),
        other => panic!("{:?}", other),
    }
}
