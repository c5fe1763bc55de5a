//! The values exchanged with the filesystem, and the messages of errors.

use std::num::IntErrorKind;

use pwmd::decimal::{parse_unsigned, push_decimal};
use pwmd::text::{
    char_ascii_lower, char_is_whitespace, join_path, reads_as, trimmed, trimmed_end, trimmed_start,
};
use pwmd::{
    format_duration, parse_bool, parse_count, parse_duration, Access, Channel, Controller,
    DecimalError, IoFailure, Polarity, PwmError,
};

#[test]
fn parse_bool_reads_the_canonical_spellings() {
    for text in ["1", "y", "yes", "true"] {
        assert_eq!(parse_bool(text.to_string()), Ok(true));
    }
    for text in ["0", "n", "no", "false", ""] {
        assert_eq!(parse_bool(text.to_string()), Ok(false));
    }
}

#[test]
fn parse_bool_ignores_case_and_trailing_whitespace() {
    for text in ["1\n", "Y", "YES", "yEs \t\r\n", "True", "TRUE\u{a0}", "tRuE\u{2003}\u{3000}"] {
        assert_eq!(parse_bool(text.to_string()), Ok(true), "{:?}", text);
    }
    for text in ["0\n", "N", "No", "FALSE", "false  ", "\n", "   ", "\u{85}"] {
        assert_eq!(parse_bool(text.to_string()), Ok(false), "{:?}", text);
    }
}

#[test]
fn parse_bool_hands_back_what_is_no_flag() {
    for text in [
        "2", "10", "01", "on", "off", "ye", "yess", "t", "f", "nope", " 1", "\n1", " yes", "y e s",
        "true!", "tru\u{e9}", "\u{212a}", "1\u{200b}", "-1", "+1", "yes\0",
    ] {
        assert_eq!(
            parse_bool(text.to_string()),
            Err(PwmError::NotBoolean(text.to_string())),
            "{:?}",
            text
        );
    }
    // The text comes back with its whitespace and its case.
    assert_eq!(
        parse_bool("Maybe \n".to_string()),
        Err(PwmError::NotBoolean("Maybe \n".to_string()))
    );
}

#[test]
fn parse_bool_reads_as_trimming_and_lowering_does() {
    let samples = [
        "", "1", "0", "y", "n", "Yes", "NO", "TRUE", "False", "tRue\n", " true", "true ", "İ", "K",
        "\u{212a}", "ｙｅｓ", "yes\u{feff}", "ΝΟ", "no\u{1680}", "Y\u{2028}", "n\u{2029}\u{202f}",
        "1\u{205f}", "0\u{180e}", "ſ", "yeſ", "TRUE\u{b}\u{c}",
    ];
    for text in samples {
        let expected = match text.trim_end().to_lowercase().as_ref() {
            "1" | "y" | "yes" | "true" => Ok(true),
            "0" | "n" | "no" | "false" | "" => Ok(false),
            _ => Err(PwmError::NotBoolean(text.to_string())),
        };
        assert_eq!(parse_bool(text.to_string()), expected, "{:?}", text);
    }
}

#[test]
fn parse_duration_reads_nanoseconds() {
    assert_eq!(parse_duration("0".to_string()), Ok(0));
    assert_eq!(parse_duration("100".to_string()), Ok(100));
    assert_eq!(parse_duration("70\n".to_string()), Ok(70));
    assert_eq!(parse_duration("1000000000 \t\n".to_string()), Ok(1_000_000_000));
    assert_eq!(parse_duration("0007".to_string()), Ok(7));
    assert_eq!(parse_duration("+5".to_string()), Ok(5));
    assert_eq!(parse_duration("18446744073709551615".to_string()), Ok(u64::MAX));
    assert_eq!(parse_duration("00018446744073709551615\n".to_string()), Ok(u64::MAX));
}

#[test]
fn parse_duration_says_why_a_text_is_no_duration() {
    let no = |text: &str, reason: DecimalError| {
        assert_eq!(
            parse_duration(text.to_string()),
            Err(PwmError::NotADuration(text.to_string(), reason)),
            "{:?}",
            text
        );
    };
    no("", DecimalError::Empty);
    no("\n", DecimalError::Empty);
    no("  \t", DecimalError::Empty);
    no("+", DecimalError::InvalidDigit);
    no("-", DecimalError::InvalidDigit);
    no("-5", DecimalError::InvalidDigit);
    no("++5", DecimalError::InvalidDigit);
    no(" 5", DecimalError::InvalidDigit);
    no("5 5", DecimalError::InvalidDigit);
    no("5ns", DecimalError::InvalidDigit);
    no("1_000", DecimalError::InvalidDigit);
    no("0x10", DecimalError::InvalidDigit);
    no("1.5", DecimalError::InvalidDigit);
    no("٣", DecimalError::InvalidDigit);
    no("18446744073709551616", DecimalError::TooLarge);
    no("99999999999999999999", DecimalError::TooLarge);
    no("184467440737095516150", DecimalError::TooLarge);
    // The first thing that is wrong decides.
    no("99999999999999999999x", DecimalError::TooLarge);
    no("1x99999999999999999999", DecimalError::InvalidDigit);
    no("18446744073709551615x", DecimalError::InvalidDigit);
    no("1844674407370955161x", DecimalError::InvalidDigit);
}

fn reason_of(kind: &IntErrorKind) -> DecimalError {
    match kind {
        IntErrorKind::Empty => DecimalError::Empty,
        IntErrorKind::InvalidDigit => DecimalError::InvalidDigit,
        IntErrorKind::PosOverflow => DecimalError::TooLarge,
        other => panic!("no such reason for an unsigned number: {:?}", other),
    }
}

#[test]
fn numbers_parse_as_the_standard_library_parses_them() {
    let samples = [
        "", "0", "1", "9", "10", "+0", "+", "-", "-0", "+-1", "00", "4294967295", "4294967296",
        "4294967295x", "42949672950", "18446744073709551615", "18446744073709551616",
        "18446744073709551615 ", "1e9", "１２", "12\n", " 12", "12 \n", "\t12\t", "99999999999",
        "999999999999999999999999x", "9x9999999999999999999999", "0000000000000000000000001",
        "+18446744073709551615", "+18446744073709551616", "1\u{0}", "\u{a0}7\u{a0}",
    ];
    for text in samples {
        let expected = match text.trim_end().parse::<u64>() {
            Ok(nanos) => Ok(nanos),
            Err(e) => Err(PwmError::NotADuration(text.to_string(), reason_of(e.kind()))),
        };
        assert_eq!(parse_duration(text.to_string()), expected, "{:?}", text);
        let count = text.trim().parse::<u32>().map_err(|e| reason_of(e.kind()));
        assert_eq!(parse_count(text), count, "{:?}", text);
    }
}

#[test]
fn parse_unsigned_keeps_to_its_bound() {
    assert_eq!(parse_unsigned("123", 1000), Ok(123));
    assert_eq!(parse_unsigned("123", 123), Ok(123));
    assert_eq!(parse_unsigned("123", 122), Err(DecimalError::TooLarge));
    assert_eq!(parse_unsigned("123c", 1000), Err(DecimalError::InvalidDigit));
    assert_eq!(parse_unsigned("", 1000), Err(DecimalError::Empty));
    assert_eq!(parse_unsigned("+7", 7), Ok(7));
    assert_eq!(parse_unsigned("7", 0), Err(DecimalError::TooLarge));
    assert_eq!(parse_unsigned("0", 0), Ok(0));
    assert_eq!(parse_unsigned("000", 0), Ok(0));
    assert_eq!(parse_unsigned("\u{e9}7", 7), Err(DecimalError::InvalidDigit));
}

#[test]
fn format_duration_writes_decimal_digits() {
    assert_eq!(format_duration(0), "0");
    assert_eq!(format_duration(7), "7");
    assert_eq!(format_duration(10), "10");
    assert_eq!(format_duration(700), "700");
    assert_eq!(format_duration(1000), "1000");
    assert_eq!(format_duration(1_000_000_007), "1000000007");
    assert_eq!(format_duration(u64::MAX), "18446744073709551615");

    let mut text = "period=".to_string();
    push_decimal(&mut text, 1200);
    assert_eq!(text, "period=1200");
}

#[test]
fn a_duration_that_was_written_reads_back() {
    for nanos in [0, 1, 9, 10, 99, 100, 12345, u32::MAX as u64, u64::MAX - 1, u64::MAX] {
        assert_eq!(format_duration(nanos), nanos.to_string());
        assert_eq!(parse_duration(format_duration(nanos)), Ok(nanos));
    }
}

#[test]
fn parse_count_reads_a_count() {
    assert_eq!(parse_count("1"), Ok(1));
    assert_eq!(parse_count("4\n"), Ok(4));
    assert_eq!(parse_count(" \t 16 \n"), Ok(16));
    assert_eq!(parse_count("4294967295"), Ok(u32::MAX));
    assert_eq!(parse_count("4294967296"), Err(DecimalError::TooLarge));
    assert_eq!(parse_count(""), Err(DecimalError::Empty));
    assert_eq!(parse_count("\n"), Err(DecimalError::Empty));
    assert_eq!(parse_count("four"), Err(DecimalError::InvalidDigit));
    assert_eq!(parse_count("1 2"), Err(DecimalError::InvalidDigit));
}

#[test]
fn polarity_goes_to_its_name_and_back() {
    assert_eq!(Polarity::Normal.as_str(), "normal");
    assert_eq!(Polarity::Inversed.as_str(), "inversed");
    assert_eq!(Polarity::from_str("normal"), Ok(Polarity::Normal));
    assert_eq!(Polarity::from_str("inversed"), Ok(Polarity::Inversed));
    for polarity in [Polarity::Normal, Polarity::Inversed] {
        assert_eq!(Polarity::from_str(polarity.as_str()), Ok(polarity));
    }
}

#[test]
fn any_other_text_is_no_polarity() {
    for text in ["", "Normal", "INVERSED", "normal\n", " normal", "inverted", "norma", "normall"] {
        assert_eq!(Polarity::from_str(text), Err(PwmError::InvalidPolarity), "{:?}", text);
    }
}

#[test]
fn every_error_has_its_message() {
    let c = Controller(4);
    let ch = Channel(1);
    let io = |message: &str| IoFailure { message: message.to_string() };

    assert_eq!(PwmError::ControllerNotFound(c).message(), "Controller(4) not found");
    assert_eq!(PwmError::ChannelNotFound(c, ch).message(), "Controller(4)/Channel(1) not found");
    assert_eq!(PwmError::NotExported(c).message(), "Controller(4) not exported");
    assert_eq!(
        PwmError::Sysfs(
            Access::Read("/sys/class/pwm/pwmchip4/npwm".to_string()),
            io("Permission denied (os error 13)")
        )
        .message(),
        "failed to Read(\"/sys/class/pwm/pwmchip4/npwm\"): Permission denied (os error 13)"
    );
    assert_eq!(
        PwmError::Sysfs(Access::Write("/a b/\"c\"".to_string()), io("No space left")).message(),
        "failed to Write(\"/a b/\\\"c\\\"\"): No space left"
    );
    // A path is quoted as a text is.
    assert_eq!(
        PwmError::Sysfs(Access::Read("/a'b".to_string()), io("why")).message(),
        "failed to Read(\"/a'b\"): why"
    );
    assert_eq!(
        PwmError::Sysfs(
            Access::Read("/t/pwmchip0/npwm".to_string()),
            io(DecimalError::InvalidDigit.as_str())
        )
        .message(),
        "failed to Read(\"/t/pwmchip0/npwm\"): invalid digit found in string"
    );
    assert_eq!(
        PwmError::DutyCycleNotLessThanPeriod.message(),
        "duty cycle value must be less than the period value"
    );
    assert_eq!(PwmError::InvalidPolarity.message(), "legal polarity values: 'normal', 'inversed'");
    assert_eq!(
        PwmError::IllegalChangeWhileEnabled("polarity").message(),
        "polarity cannot be changed while channel is enabled"
    );
    assert_eq!(
        PwmError::NotBoolean("maybe\n".to_string()).message(),
        "expected boolean value, got \"maybe\\n\""
    );
    assert_eq!(
        PwmError::NotADuration("1e3".to_string(), DecimalError::InvalidDigit).message(),
        "expected a duration in nanoseconds, got \"1e3\": invalid digit found in string"
    );
    assert_eq!(
        PwmError::NotADuration(String::new(), DecimalError::Empty).message(),
        "expected a duration in nanoseconds, got \"\": cannot parse integer from empty string"
    );
    assert_eq!(
        PwmError::NotADuration("99999999999999999999".to_string(), DecimalError::TooLarge)
            .message(),
        "expected a duration in nanoseconds, got \"99999999999999999999\": \
         number too large to fit in target type"
    );
}

#[test]
fn a_message_takes_its_quoted_part_as_given() {
    let error = PwmError::NotBoolean("x".to_string());
    assert_eq!(error.message_quoting("<x>"), "expected boolean value, got <x>");
    assert_eq!(error.message_quoting(""), "expected boolean value, got ");
    let error = PwmError::Sysfs(
        Access::Read("/p".to_string()),
        IoFailure { message: "why".to_string() },
    );
    assert_eq!(error.message_quoting("'/p'"), "failed to Read('/p'): why");
    assert_eq!(
        PwmError::ControllerNotFound(Controller(u32::MAX)).message_quoting("unused"),
        "Controller(4294967295) not found"
    );
    assert_eq!(Access::Read("/p".to_string()).path(), "/p");
    assert_eq!(Access::Write("/q".to_string()).path(), "/q");
}

#[test]
fn the_reasons_read_as_the_standard_library_s() {
    for text in ["", "x", "18446744073709551616"] {
        let error = text.parse::<u64>().unwrap_err();
        assert_eq!(reason_of(error.kind()).as_str(), error.to_string());
    }
}

#[test]
fn whitespace_is_what_unicode_calls_white_space() {
    for code in 0..=0x3100u32 {
        if let Some(c) = char::from_u32(code) {
            assert_eq!(char_is_whitespace(c), c.is_whitespace(), "{:?}", c);
        }
    }
    for c in ['\u{feff}', '\u{10000}', '\u{10ffff}', '\u{e000}', '\u{d7ff}'] {
        assert_eq!(char_is_whitespace(c), c.is_whitespace(), "{:?}", c);
    }
}

#[test]
fn only_ascii_capitals_are_lowered() {
    for code in 0..=0x250u32 {
        if let Some(c) = char::from_u32(code) {
            assert_eq!(char_ascii_lower(c), c.to_ascii_lowercase(), "{:?}", c);
        }
    }
    assert_eq!(char_ascii_lower('A'), 'a');
    assert_eq!(char_ascii_lower('Z'), 'z');
    assert_eq!(char_ascii_lower('@'), '@');
    assert_eq!(char_ascii_lower('['), '[');
    assert_eq!(char_ascii_lower('É'), 'É');
}

#[test]
fn trimming_is_the_standard_library_s() {
    for text in ["", "a", " a ", "\t\n a b \r\n", "é \u{3000}", "\u{a0}é", "   ", "a\u{200b} "] {
        assert_eq!(trimmed_end(text), text.trim_end(), "{:?}", text);
        assert_eq!(trimmed_start(text), text.trim_start(), "{:?}", text);
        assert_eq!(trimmed(text), text.trim(), "{:?}", text);
    }
    assert_eq!(trimmed_end("  ab  "), "  ab");
    assert_eq!(trimmed_start("  ab  "), "ab  ");
    assert_eq!(trimmed("  a b  "), "a b");
}

#[test]
fn reads_as_compares_whole_texts() {
    assert!(reads_as("yes", "yes", false));
    assert!(reads_as("YeS", "yes", true));
    assert!(!reads_as("YeS", "yes", false));
    assert!(!reads_as("yes\n", "yes", true));
    assert!(!reads_as("ye", "yes", true));
    assert!(reads_as("", "", true));
    assert!(!reads_as("yes", "YES", true));
    assert!(reads_as("éa", "éa", false));
    assert!(!reads_as("É", "é", true));
}

#[test]
fn joining_puts_one_separator_between() {
    for (base, name) in [
        ("/sys", "pwm"),
        ("/sys/", "pwm"),
        ("", "pwm"),
        ("/", "pwm"),
        ("a", "b/c"),
        ("a", ""),
        ("a/", ""),
        ("a", "/abs"),
        ("", "/abs"),
        ("a//", "b"),
        ("é", "ü"),
    ] {
        let expected = std::path::Path::new(base).join(name);
        assert_eq!(Some(join_path(base, name).as_str()), expected.to_str(), "{:?} {:?}", base, name);
    }
    assert_eq!(join_path("/sys/class/pwm", "pwmchip0"), "/sys/class/pwm/pwmchip0");
}
