use game_optimizer::text::{
    char_is_whitespace, decimal_string, decimal_string_padded, replace_char_in,
    split_whitespace_words, str_eq, str_eq_ignore_ascii_case, to_ascii_lower,
};
use game_optimizer::time::{elapsed_seconds, format_hms, Timestamp};

#[test]
fn ascii_case_folding_only_touches_ascii_letters() {
    assert_eq!(to_ascii_lower('Q'), 'q');
    assert_eq!(to_ascii_lower('q'), 'q');
    assert_eq!(to_ascii_lower('É'), 'É');
    assert!(str_eq_ignore_ascii_case("WinDefend", "windefend"));
    assert!(!str_eq_ignore_ascii_case("É", "é"));
    assert!(!str_eq_ignore_ascii_case("abc", "abcd"));
    assert!(str_eq("abc", "abc"));
    assert!(!str_eq("abc", "abC"));
}

#[test]
fn launch_arguments_split_at_unicode_whitespace() {
    assert_eq!(
        split_whitespace_words("  --force_enable_VR \t -w\u{3000}x "),
        vec!["--force_enable_VR".to_string(), "-w".to_string(), "x".to_string()]
    );
    assert!(split_whitespace_words("   ").is_empty());
    assert!(split_whitespace_words("").is_empty());
    assert!(char_is_whitespace('\u{a0}'));
    assert!(!char_is_whitespace('a'));
}

#[test]
fn replacing_and_lowercasing() {
    assert_eq!(replace_char_in("DCS World VR", ' ', '-'), "DCS-World-VR");
}

#[test]
fn decimal_rendering() {
    assert_eq!(decimal_string(0), "0");
    assert_eq!(decimal_string(1234), "1234");
    assert_eq!(decimal_string(u64::MAX), u64::MAX.to_string());
    assert_eq!(decimal_string_padded(5, 2), "05");
    assert_eq!(decimal_string_padded(123, 2), "123");
    assert_eq!(decimal_string_padded(0, 3), "000");
}

#[test]
fn session_timer_text() {
    assert_eq!(format_hms(0), "00:00:00");
    assert_eq!(format_hms(3725), "01:02:05");
    assert_eq!(format_hms(100 * 3600 + 59), "100:00:59");
}

#[test]
fn elapsed_time_is_whole_seconds_and_never_negative() {
    let start = Timestamp { secs: 100, nanos: 900_000_000 };
    assert_eq!(elapsed_seconds(start, Timestamp { secs: 102, nanos: 800_000_000 }), 1);
    assert_eq!(elapsed_seconds(start, Timestamp { secs: 102, nanos: 900_000_000 }), 2);
    assert_eq!(elapsed_seconds(start, Timestamp { secs: 50, nanos: 0 }), 0);
    assert_eq!(
        elapsed_seconds(Timestamp { secs: i64::MIN, nanos: 0 }, Timestamp { secs: i64::MAX, nanos: 999_999_999 }),
        u64::MAX
    );
    assert_eq!(Timestamp::unix_epoch(), Timestamp::default());
}
