use apm_lyrics_ndp::bytes::be_uint;
use apm_lyrics_ndp::digits::{coerce_to_digit, u64_to_decimal, DigitError};
use apm_lyrics_ndp::scan::{find_jwt_token, find_script_urls};

#[test]
fn be_uint_rejects_empty_and_long_input() {
    assert_eq!(be_uint(&[]), None);
    assert_eq!(be_uint(&[1, 2, 3, 4, 5, 6, 7, 8, 9]), None);
}

#[test]
fn be_uint_reads_big_endian() {
    assert_eq!(be_uint(&[0x01, 0x02]), Some(0x0102));
    assert_eq!(be_uint(&[0x55, 0xe1, 0x3c, 0x0b]), Some(1440824331));
    assert_eq!(be_uint(&[0xff; 8]), Some(u64::MAX));
    assert_eq!(be_uint(&[0x00, 0x00, 0x01]), be_uint(&[0x01]));
    assert_eq!(be_uint(&[0x80]), Some(128));
}

#[test]
fn be_uint_decodes_every_width_of_an_encoding() {
    let n: u64 = 0x0123_4567_89ab_cdef;
    let bytes = n.to_be_bytes();
    for k in 1..=8usize {
        let expected = if k == 8 { n } else { n & ((1u64 << (8 * k)) - 1) };
        assert_eq!(be_uint(&bytes[8 - k..]), Some(expected));
    }
}

#[test]
fn coerce_to_digit_parses_catalog_ids() {
    assert_eq!(coerce_to_digit("1440857781".to_string()), Ok(1440857781));
    assert_eq!(coerce_to_digit("+12".to_string()), Ok(12));
    assert_eq!(coerce_to_digit("007".to_string()), Ok(7));
    assert_eq!(coerce_to_digit("18446744073709551615".to_string()), Ok(u64::MAX));
}

#[test]
fn coerce_to_digit_reports_each_error() {
    assert_eq!(coerce_to_digit(String::new()), Err(DigitError::Empty));
    assert_eq!(coerce_to_digit("+".to_string()), Err(DigitError::InvalidDigit));
    assert_eq!(coerce_to_digit("-".to_string()), Err(DigitError::InvalidDigit));
    assert_eq!(coerce_to_digit("-1".to_string()), Err(DigitError::InvalidDigit));
    assert_eq!(coerce_to_digit("12a".to_string()), Err(DigitError::InvalidDigit));
    assert_eq!(coerce_to_digit(" 12".to_string()), Err(DigitError::InvalidDigit));
    assert_eq!(coerce_to_digit("18446744073709551616".to_string()), Err(DigitError::PosOverflow));
    assert_eq!(coerce_to_digit("99999999999999999999x".to_string()), Err(DigitError::PosOverflow));
    assert_eq!(coerce_to_digit("1x999999999999999999999".to_string()), Err(DigitError::InvalidDigit));
}

#[test]
fn coerce_to_digit_agrees_with_std_parse() {
    let inputs = [
        "", "+", "-", "0", "+0", "-0", "++1", "+-1", "42", "4 2", "١٢", "12é", "18446744073709551615",
        "18446744073709551616", "000000000000000000000018446744073709551615", "184467440737095516150",
        "99999999999999999999x", "x99999999999999999999",
    ];
    for s in inputs {
        let ours = coerce_to_digit(s.to_string());
        let std = s.parse::<u64>();
        match (ours, std) {
            (Ok(a), Ok(b)) => assert_eq!(a, b, "input {:?}", s),
            (Err(e), Err(f)) => {
                let kind = match f.kind() {
                    std::num::IntErrorKind::Empty => DigitError::Empty,
                    std::num::IntErrorKind::InvalidDigit => DigitError::InvalidDigit,
                    std::num::IntErrorKind::PosOverflow => DigitError::PosOverflow,
                    other => panic!("unexpected kind {:?}", other),
                };
                assert_eq!(e, kind, "input {:?}", s);
            }
            (a, b) => panic!("input {:?}: {:?} vs {:?}", s, a, b),
        }
    }
}

#[test]
fn u64_to_decimal_writes_digits() {
    assert_eq!(u64_to_decimal(0), "0");
    assert_eq!(u64_to_decimal(7), "7");
    assert_eq!(u64_to_decimal(1440857781), "1440857781");
    assert_eq!(u64_to_decimal(u64::MAX), u64::MAX.to_string());
}

#[test]
fn decimal_text_parses_back() {
    for n in [0u64, 9, 10, 99, 100, 12345, u64::MAX / 10, u64::MAX - 1, u64::MAX] {
        assert_eq!(coerce_to_digit(u64_to_decimal(n)), Ok(n));
    }
}

#[test]
fn find_script_urls_reads_script_sources() {
    let html = r#"<html><head>
<script type="module" crossorigin src="/assets/index~a1b2c3.js"></script>
<script src="https://js-cdn.music.apple.com/musickit/v3/musickit.js"></script>
<script nomodule src="/assets/index-legacy~d4.js"></script>
<script>inline()</script>
<link rel="stylesheet" href="/assets/index.css">
</head></html>"#;
    assert_eq!(
        find_script_urls(html),
        vec![
            "/assets/index~a1b2c3.js".to_string(),
            "https://js-cdn.music.apple.com/musickit/v3/musickit.js".to_string(),
            "/assets/index-legacy~d4.js".to_string(),
        ]
    );
    assert!(find_script_urls("<p>no scripts</p>").is_empty());
}

#[test]
fn find_script_urls_takes_the_last_src_in_a_tag() {
    assert_eq!(find_script_urls(r#"<script src="a.js" data-src="b.js">"#), vec!["b.js".to_string()]);
    assert_eq!(find_script_urls(r#"<script src="a.js" src="b.css">"#), vec!["a.js".to_string()]);
    assert!(find_script_urls(r#"<script src=".js">"#).is_empty());
    assert!(find_script_urls(r#"<scriptsrc="a.js">"#).is_empty());
    assert!(find_script_urls(r#"<script> src="a.js">"#).is_empty());
}

fn regex_script_urls(html: &str) -> Vec<String> {
    let re = regex::Regex::new(r#"<script[^>]+src="([^"]+\.js)""#).unwrap();
    re.captures_iter(html).filter_map(|c| c.get(1).map(|m| m.as_str().to_string())).collect()
}

#[test]
fn find_script_urls_agrees_with_the_pattern() {
    let pages = [
        r#"<script src="a.js"><script src="b.js">"#,
        r#"<script src="a.js" src="b.js" src="c.jsx">"#,
        r#"<script a="x>y" src="q.js">"#,
        r#"<script src="a>b.js">"#,
        r#"<script src="x.js"src="y.js""#,
        r#"<script
  src="über/ünï.js">"#,
        r#"<script <script src="a.js">"#,
        r#"<script src="a.js.js"><script src="b.min.js?x=1"><script src="c.js">"#,
        r#"<script src="""a.js">"#,
        r#"<script src="a.js" ><script src="b.js"src="c.js"  >"#,
        "",
        "<script",
    ];
    for p in pages {
        assert_eq!(find_script_urls(p), regex_script_urls(p), "page {:?}", p);
    }
}

const HEADER: &str = "eyJhbGciOiJFUzI1NiIsInR5cCI6IkpXVCIsImtpZCI6IldlYlBsYXlLaWQifQ";

#[test]
fn find_jwt_token_finds_the_web_player_token() {
    let token = format!("{}.eyJpc3MiOiJBTVBXZWJQbGF5In0.sig_-123", HEADER);
    let js = format!("const a=\"{}\",b=1;", token);
    assert_eq!(find_jwt_token(&js), Some(token));
    assert_eq!(find_jwt_token("no token here"), None);
    assert_eq!(find_jwt_token(&format!("{}.abc", HEADER)), None);
    assert_eq!(find_jwt_token(&format!("{}..x", HEADER)), None);
}

fn regex_jwt(js: &str) -> Option<String> {
    let re = regex::Regex::new(
        r"eyJhbGciOiJFUzI1NiIsInR5cCI6IkpXVCIsImtpZCI6IldlYlBsYXlLaWQifQ\.[A-Za-z0-9_-]+\.[A-Za-z0-9_-]+",
    )
    .unwrap();
    re.find(js).map(|m| m.as_str().to_string())
}

#[test]
fn find_jwt_token_agrees_with_the_pattern() {
    let texts = [
        format!("{}.a.b", HEADER),
        format!("x{}.a.b.c", HEADER),
        format!("{}.a.{}.b.c", HEADER, HEADER),
        format!("{}.a..{}.b.c", HEADER, HEADER),
        format!("{}.ä.b {}.c.d", HEADER, HEADER),
        format!("{}.-_.-_", HEADER),
        format!("{}.", HEADER),
        HEADER.to_string(),
    ];
    for t in texts {
        assert_eq!(find_jwt_token(&t), regex_jwt(&t), "text {:?}", t);
    }
}
