use homeryland_api::email::check_email;
use homeryland_api::config::server::ServerConfig;
use homeryland_api::config::token::TokenConfig;
use homeryland_api::text::{
    blank, contains_text, decimal, parse_i64, parse_u16, str_eq, whitespace,
};

#[test]
fn text_equality() {
    assert!(str_eq("", ""));
    assert!(str_eq("abc", "abc"));
    assert!(!str_eq("abc", "abd"));
    assert!(!str_eq("abc", "ab"));
    assert!(!str_eq("", "a"));
    assert!(str_eq("\u{e9}\u{4e2d}", "\u{e9}\u{4e2d}"));
    assert!(!str_eq("e\u{301}", "\u{e9}"));
}

#[test]
fn decimal_digits() {
    assert_eq!(decimal(0), "0");
    assert_eq!(decimal(7), "7");
    assert_eq!(decimal(10), "10");
    assert_eq!(decimal(128), "128");
    assert_eq!(decimal(1_000_000), "1000000");
    assert_eq!(decimal(9_876_543_210), "9876543210");
    assert_eq!(decimal(u64::MAX), "18446744073709551615");
}

#[test]
fn white_space() {
    for c in [' ', '\t', '\n', '\r', '\u{b}', '\u{c}', '\u{85}', '\u{a0}', '\u{1680}', '\u{2000}', '\u{200a}', '\u{2028}', '\u{2029}', '\u{202f}', '\u{205f}', '\u{3000}'] {
        assert!(whitespace(c), "{:?}", c);
    }
    for c in ['a', '0', '_', '\u{8}', '\u{e}', '\u{200b}', '\u{feff}', '\u{1f}'] {
        assert!(!whitespace(c), "{:?}", c);
    }
    for code in 0u32..0x4000 {
        if let Some(c) = char::from_u32(code) {
            assert_eq!(whitespace(c), c.is_whitespace(), "{:x}", code);
        }
    }
}

#[test]
fn blank_text() {
    assert!(blank(""));
    assert!(blank("   "));
    assert!(blank(" \t\n\u{3000}"));
    assert!(!blank(" a "));
    assert!(!blank("a"));
    assert!(!blank("\u{200b}"));
}

#[test]
fn text_search() {
    assert!(contains_text("record not found", "not found"));
    assert!(contains_text("not found", "not found"));
    assert!(contains_text("abc", ""));
    assert!(contains_text("", ""));
    assert!(!contains_text("", "a"));
    assert!(!contains_text("not foun", "not found"));
    assert!(!contains_text("Not Found", "not found"));
    assert!(contains_text("xxabxab", "xab"));
    assert!(contains_text("aab", "ab"));
    assert!(contains_text("\u{e9}t\u{e9}", "t\u{e9}"));
}

#[test]
fn email_addresses() {
    for good in [
        "a@b.co",
        "alice@example.com",
        "first.last+tag@sub.domain-name.org",
        "A_1%x-y@D0.main.IO",
        "a@b.c.de",
        "a@-.ab",
        ".@..ab",
        "a@b..co",
        "x@1.ab",
    ] {
        assert!(check_email(good), "{}", good);
    }
    for bad in [
        "",
        "a",
        "@b.co",
        "a@.co",
        "a@b.c",
        "a@b.",
        "a@b",
        "a@bco",
        "a b@c.de",
        "a@b.c0",
        "a@b.co ",
        " a@b.co",
        "a@b@c.de",
        "a@b_c.de",
        "a!@b.co",
        "a@b.co\n",
        "\u{e9}@b.co",
        "a@b.c\u{e9}",
        "a@b.co.",
        "a.b.co",
        "a@b.c-d",
    ] {
        assert!(!check_email(bad), "{:?}", bad);
    }
}

#[test]
fn email_check_agrees_with_the_pattern() {
    let pattern = regex::Regex::new(r"^[a-zA-Z0-9._%+-]+@[a-zA-Z0-9.-]+\.[a-zA-Z]{2,}$").unwrap();
    let alphabet = ['a', 'Z', '0', '.', '@', '-', '_', '%', '+', ' ', '\n', '\u{e9}'];
    // every text of up to four characters over the alphabet, and longer ones around them
    let mut texts: Vec<String> = vec![String::new()];
    let mut frontier = texts.clone();
    for _ in 0..4 {
        let mut next = Vec::new();
        for t in &frontier {
            for c in alphabet {
                let mut u = t.clone();
                u.push(c);
                next.push(u);
            }
        }
        texts.extend(next.iter().cloned());
        frontier = next;
    }
    for t in &texts {
        assert_eq!(check_email(t), pattern.is_match(t), "{:?}", t);
        let wrapped = format!("a{}b.cd", t);
        assert_eq!(check_email(&wrapped), pattern.is_match(&wrapped), "{:?}", wrapped);
        let tail = format!("x@y.{}", t);
        assert_eq!(check_email(&tail), pattern.is_match(&tail), "{:?}", tail);
    }
}

#[test]
fn numbers_in_text() {
    assert_eq!(parse_u16("0"), Some(0));
    assert_eq!(parse_u16("8080"), Some(8080));
    assert_eq!(parse_u16("+8080"), Some(8080));
    assert_eq!(parse_u16("0008080"), Some(8080));
    assert_eq!(parse_u16("65535"), Some(65535));
    assert_eq!(parse_u16("65536"), None);
    assert_eq!(parse_u16("-1"), None);
    assert_eq!(parse_u16("-0"), None);
    assert_eq!(parse_u16(""), None);
    assert_eq!(parse_u16("+"), None);
    assert_eq!(parse_u16("80 "), None);
    assert_eq!(parse_u16("8o"), None);
    assert_eq!(parse_u16("\u{0668}"), None);
    assert_eq!(parse_u16("99999999999999999999999999"), None);
    assert_eq!(parse_i64("900"), Some(900));
    assert_eq!(parse_i64("-900"), Some(-900));
    assert_eq!(parse_i64("+900"), Some(900));
    assert_eq!(parse_i64("-0"), Some(0));
    assert_eq!(parse_i64("9223372036854775807"), Some(i64::MAX));
    assert_eq!(parse_i64("9223372036854775808"), None);
    assert_eq!(parse_i64("-9223372036854775808"), Some(i64::MIN));
    assert_eq!(parse_i64("-9223372036854775809"), None);
    assert_eq!(parse_i64("-"), None);
    assert_eq!(parse_i64("--1"), None);
    assert_eq!(parse_i64("+-1"), None);
    assert_eq!(parse_i64("1.5"), None);
    assert_eq!(parse_i64(""), None);
}

#[test]
fn number_reading_agrees_with_the_standard_one() {
    let alphabet = ['0', '1', '9', '+', '-', ' ', 'a', '\u{e9}'];
    let mut texts: Vec<String> = vec![String::new()];
    let mut frontier = texts.clone();
    for _ in 0..5 {
        let mut next = Vec::new();
        for t in &frontier {
            for c in alphabet {
                let mut u = t.clone();
                u.push(c);
                next.push(u);
            }
        }
        texts.extend(next.iter().cloned());
        frontier = next;
    }
    for n in [65534u64, 65535, 65536, 9223372036854775806, 9223372036854775807, 9223372036854775808, 9223372036854775809, 18446744073709551615] {
        for sign in ["", "+", "-"] {
            texts.push(format!("{}{}", sign, n));
            texts.push(format!("{}000{}", sign, n));
            texts.push(format!("{}{}0", sign, n));
        }
    }
    for t in &texts {
        assert_eq!(parse_u16(t), t.parse::<u16>().ok(), "{:?}", t);
        assert_eq!(parse_i64(t), t.parse::<i64>().ok(), "{:?}", t);
    }
}

#[test]
fn configuration_from_text() {
    assert_eq!(ServerConfig::from_text("8080"), Some(ServerConfig::new(8080)));
    assert_eq!(ServerConfig::from_text("eighty"), None);
    assert_eq!(ServerConfig::from_text("70000"), None);
    let read = |a: &str, r: &str, c: &str| {
        TokenConfig::from_text(
            "s1".to_string(),
            "s2".to_string(),
            "s3".to_string(),
            "s4".to_string(),
            a,
            r,
            c,
        )
    };
    let config = read("900", "604800", "-1").unwrap();
    assert_eq!(config.jwt_access_secret, "s1");
    assert_eq!(config.jwt_refresh_secret, "s2");
    assert_eq!(config.email_verification_secret, "s3");
    assert_eq!(config.password_reset_secret, "s4");
    assert_eq!(config.access_token_expires_in, 900);
    assert_eq!(config.refresh_token_expires_in, 604_800);
    assert_eq!(config.token_cleanup_interval, -1);
    assert!(config.is_well_formed());
    assert!(read("x", "1", "1").is_none());
    assert!(read("1", "", "1").is_none());
    assert!(read("1", "1", "1s").is_none());
    assert!(!read("0", "1", "1").unwrap().is_well_formed());
}
