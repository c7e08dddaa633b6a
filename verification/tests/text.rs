use doken::text::{format_u64, parse_u64, remove_all};

#[test]
fn parse_u64_reads_plain_decimal_numbers() {
    assert_eq!(parse_u64("0"), Some(0));
    assert_eq!(parse_u64("7"), Some(7));
    assert_eq!(parse_u64("3600"), Some(3600));
    assert_eq!(parse_u64("0042"), Some(42));
    assert_eq!(parse_u64("+5"), Some(5));
    assert_eq!(parse_u64("18446744073709551615"), Some(u64::MAX));
    assert_eq!(parse_u64("00018446744073709551615"), Some(u64::MAX));
}

#[test]
fn parse_u64_refuses_everything_else() {
    for bad in [
        "", "+", "-", "-0", "-5", "++5", "5+", " 5", "5 ", "1_000", "1.0", "0x10", "ten",
        "18446744073709551616", "99999999999999999999", "٣",
    ] {
        assert_eq!(parse_u64(bad), None, "{:?}", bad);
    }
}

#[test]
fn parse_u64_agrees_with_the_standard_library() {
    for text in ["0", "+0", "12", "+12", "-12", "", "+", "18446744073709551615", "18446744073709551616", "1a", "a1"] {
        assert_eq!(parse_u64(text), text.parse::<u64>().ok(), "{:?}", text);
    }
}

#[test]
fn format_u64_writes_plain_decimal_numbers() {
    assert_eq!(format_u64(0), "0");
    assert_eq!(format_u64(9), "9");
    assert_eq!(format_u64(10), "10");
    assert_eq!(format_u64(30_000), "30000");
    assert_eq!(format_u64(1_234_567_890), "1234567890");
    assert_eq!(format_u64(u64::MAX), "18446744073709551615");
}

#[test]
fn what_is_written_is_read_back() {
    for n in [0u64, 1, 9, 10, 99, 100, 30_000, u64::MAX - 1, u64::MAX] {
        assert_eq!(parse_u64(&format_u64(n)), Some(n));
        assert_eq!(format_u64(n), n.to_string());
    }
}

#[test]
fn remove_all_takes_every_occurrence_out() {
    assert_eq!(remove_all("offline_access", "offline_access"), "");
    assert_eq!(remove_all("openid offline_access email", "offline_access"), "openid  email");
    assert_eq!(remove_all("offline_accessoffline_access", "offline_access"), "");
    assert_eq!(remove_all("offline_access email offline_access", "offline_access"), " email ");
    assert_eq!(remove_all("email", "offline_access"), "email");
    assert_eq!(remove_all("", "offline_access"), "");
    assert_eq!(remove_all("offline_acces", "offline_access"), "offline_acces");
    assert_eq!(remove_all("xoffline_accessy", "offline_access"), "xy");
}

#[test]
fn remove_all_goes_from_the_left_without_overlap() {
    assert_eq!(remove_all("aaa", "aa"), "a");
    assert_eq!(remove_all("aaaa", "aa"), "");
    assert_eq!(remove_all("ababa", "aba"), "ba");
    assert_eq!(remove_all("abc", ""), "abc");
    assert_eq!(remove_all("żółw żółw", "żółw"), " ");
    for (text, pattern) in [("aaa", "aa"), ("ababa", "aba"), ("offline_access x", "offline_access"), ("abc", "")] {
        assert_eq!(remove_all(text, pattern), text.replace(pattern, ""));
    }
}
