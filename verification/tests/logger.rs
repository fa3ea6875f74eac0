use todos::text::{chars_of, contains, decimal_string, digit, number_exceeds, str_eq};
use todos::tracing::logger::{Level, Logger};

#[test]
fn level_names() {
    assert_eq!(Level::Off.as_str(), "off");
    assert_eq!(Level::Trace.as_str(), "trace");
    assert_eq!(Level::Debug.as_str(), "debug");
    assert_eq!(Level::Info.as_str(), "info");
    assert_eq!(Level::Warn.as_str(), "warn");
    assert_eq!(Level::Error.as_str(), "error");
    assert_eq!(Level::Warn.to_string(), "warn");
    assert_eq!(Level::default(), Level::Info);
}

#[test]
fn level_from_a_name() {
    assert_eq!(Level::from("trace"), Level::Trace);
    assert_eq!(Level::from("DEBUG"), Level::Debug);
    assert_eq!(Level::from("Info"), Level::Info);
    assert_eq!(Level::from("wArN"), Level::Warn);
    assert_eq!(Level::from("error"), Level::Error);
    assert_eq!(Level::from("off"), Level::Off);
    assert_eq!(Level::from("verbose"), Level::Off);
    assert_eq!(Level::from(""), Level::Off);
    assert_eq!(Level::from_lowercase("INFO"), Level::Off);
    for level in [Level::Off, Level::Trace, Level::Debug, Level::Info, Level::Warn, Level::Error] {
        assert_eq!(Level::from(level.as_str()), level);
    }
}

#[test]
fn logger_names() {
    assert_eq!(Logger::Compact.to_string(), "compact");
    assert_eq!(Logger::Full.to_string(), "full");
    assert_eq!(Logger::Json.to_string(), "json");
    assert_eq!(Logger::Pretty.to_string(), "pretty");
    assert_eq!(Logger::default(), Logger::Compact);
}

#[test]
fn logger_from_a_name() {
    assert_eq!(Logger::from("full"), Logger::Full);
    assert_eq!(Logger::from("JSON"), Logger::Json);
    assert_eq!(Logger::from("Pretty"), Logger::Pretty);
    assert_eq!(Logger::from("compact"), Logger::Compact);
    assert_eq!(Logger::from("anything"), Logger::Compact);
    assert_eq!(Logger::from_lowercase("JSON"), Logger::Compact);
    for logger in [Logger::Compact, Logger::Full, Logger::Json, Logger::Pretty] {
        assert_eq!(Logger::from(logger.to_string().as_str()), logger);
    }
}

#[test]
fn numbers_in_decimal() {
    assert_eq!(decimal_string(0), "0");
    assert_eq!(decimal_string(7), "7");
    assert_eq!(decimal_string(10), "10");
    assert_eq!(decimal_string(8000), "8000");
    assert_eq!(decimal_string(65535), "65535");
    assert_eq!(decimal_string(u64::MAX), "18446744073709551615");
    for n in [1u64, 9, 11, 99, 100, 101, 12345, 1_000_000_007] {
        assert_eq!(decimal_string(n), n.to_string());
    }
}

#[test]
fn numbers_read_from_digits() {
    assert_eq!(digit('0'), Some(0));
    assert_eq!(digit('7'), Some(7));
    assert_eq!(digit('9'), Some(9));
    assert_eq!(digit('a'), None);
    assert_eq!(digit('\u{663}'), None);
    let text = chars_of("p=16777216,x");
    assert_eq!(text.len(), 12);
    assert!(number_exceeds(&text, 2, 16_777_215));
    assert!(!number_exceeds(&text, 2, 16_777_216));
    assert!(!number_exceeds(&text, 0, 0));
    assert!(number_exceeds(&text, 9, 5));
    assert!(!number_exceeds(&text, 9, 6));
    assert!(!number_exceeds(&text, 12, 0));
    assert!(!number_exceeds(&text, 40, 0));
    let long = chars_of("99999999999999999999999999999999");
    assert!(number_exceeds(&long, 0, u32::MAX));
    assert!(!number_exceeds(&chars_of("4294967295"), 0, u32::MAX));
    assert!(number_exceeds(&chars_of("4294967296"), 0, u32::MAX));
}

#[test]
fn text_search() {
    assert!(contains("users_email_key", "email"));
    assert!(contains("email", "email"));
    assert!(contains("xemail", "email"));
    assert!(!contains("users_username_key", "email"));
    assert!(!contains("emai", "email"));
    assert!(!contains("", "email"));
    assert!(contains("", ""));
    assert!(contains("abc", ""));
    assert!(contains("caf\u{e9} email", "email"));
    assert!(contains("e-mail \u{e9}mail", "\u{e9}mail"));
    assert!(!contains("emaiemaiemai", "email"));
    assert!(contains("emaiemaiemail", "email"));
}

#[test]
fn text_equality() {
    assert!(str_eq("", ""));
    assert!(str_eq("abc", "abc"));
    assert!(!str_eq("abc", "abd"));
    assert!(!str_eq("abc", "ab"));
    assert!(str_eq("h\u{e9}!", "h\u{e9}!"));
    assert!(!str_eq("h\u{e9}!", "he!"));
}
