use xfighter_contracts::keys::{archive_key, counter_key, digit_value, parse_archive_key, parse_decimal};

#[test]
fn archive_keys_are_number_colon_name() {
    assert_eq!(archive_key(0, &"alice".to_string()), "0:alice");
    assert_eq!(archive_key(12, &"bob".to_string()), "12:bob");
    assert_eq!(archive_key(7, &String::new()), "7:");
    assert_eq!(archive_key(3, &"a:b".to_string()), "3:a:b");
    assert_eq!(archive_key(u64::MAX, &"x".to_string()), "18446744073709551615:x");
    assert_eq!(counter_key(0), "0");
    assert_eq!(counter_key(305), "305");
}

#[test]
fn archive_keys_are_read_back() {
    let read = |text: &str| parse_archive_key(&text.to_string());
    assert_eq!(read("0:alice"), Some((0, "alice".to_string())));
    assert_eq!(read("12:bob"), Some((12, "bob".to_string())));
    assert_eq!(read("7:"), Some((7, String::new())));
    assert_eq!(read("3:a:b"), Some((3, "a:b".to_string())));
    assert_eq!(read("18446744073709551615:x"), Some((u64::MAX, "x".to_string())));
    assert_eq!(read("5:żółw"), Some((5, "żółw".to_string())));
    for (season, user) in [(1u64, "u"), (10, "1:2"), (999, ""), (1_000_000, "name with spaces")] {
        assert_eq!(read(&archive_key(season, &user.to_string())), Some((season, user.to_string())));
    }
}

#[test]
fn texts_that_are_no_keys_are_refused() {
    let read = |text: &str| parse_archive_key(&text.to_string());
    assert_eq!(read(""), None);
    assert_eq!(read("alice"), None);
    assert_eq!(read("12"), None);
    assert_eq!(read(":alice"), None);
    assert_eq!(read("01:alice"), None);
    assert_eq!(read("+1:alice"), None);
    assert_eq!(read("1 :alice"), None);
    assert_eq!(read("x1:alice"), None);
    assert_eq!(read("18446744073709551616:x"), None);
    assert_eq!(read("99999999999999999999999:x"), None);
}

#[test]
fn decimals_are_read_strictly() {
    assert_eq!(parse_decimal("0"), Some(0));
    assert_eq!(parse_decimal("7"), Some(7));
    assert_eq!(parse_decimal("10"), Some(10));
    assert_eq!(parse_decimal("18446744073709551615"), Some(u64::MAX));
    assert_eq!(parse_decimal("18446744073709551616"), None);
    assert_eq!(parse_decimal("184467440737095516150"), None);
    assert_eq!(parse_decimal(""), None);
    assert_eq!(parse_decimal("00"), None);
    assert_eq!(parse_decimal("007"), None);
    assert_eq!(parse_decimal("-1"), None);
    assert_eq!(parse_decimal("1a"), None);
    assert_eq!(parse_decimal("١٢"), None);
    assert_eq!(digit_value('0'), Some(0));
    assert_eq!(digit_value('9'), Some(9));
    assert_eq!(digit_value('a'), None);
    assert_eq!(digit_value(':'), None);
}
