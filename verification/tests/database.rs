use comic_collection::database::get_connection_pool;
use comic_collection::database::parse_u32;
use comic_collection::database::read_setting;
use comic_collection::database::PoolSettings;
use comic_collection::database::DEFAULT_MAX_SIZE;
use comic_collection::database::DEFAULT_MIN_IDLE;

#[test]
fn defaults_when_nothing_is_set() {
    let settings = get_connection_pool(None, None);
    assert_eq!(settings, PoolSettings { max_size: 64, min_idle: 32 });
    assert_eq!(DEFAULT_MAX_SIZE, 64);
    assert_eq!(DEFAULT_MIN_IDLE, 32);
    assert!(settings.is_buildable());
}

#[test]
fn settings_are_read_as_written() {
    let settings = get_connection_pool(Some("10"), Some("2"));
    assert_eq!(settings, PoolSettings { max_size: 10, min_idle: 2 });
    assert!(settings.is_buildable());
}

#[test]
fn each_setting_has_its_own_default() {
    assert_eq!(get_connection_pool(Some("many"), Some("4")), PoolSettings { max_size: 64, min_idle: 4 });
    assert_eq!(get_connection_pool(Some("8"), Some("")), PoolSettings { max_size: 8, min_idle: 32 });
    assert_eq!(get_connection_pool(Some("-1"), Some(" 5")), PoolSettings { max_size: 64, min_idle: 32 });
    assert_eq!(get_connection_pool(None, Some("7")), PoolSettings { max_size: 64, min_idle: 7 });
}

#[test]
fn settings_that_build_no_pool_are_told_apart() {
    assert!(!get_connection_pool(Some("0"), Some("0")).is_buildable());
    assert!(!get_connection_pool(Some("4"), Some("5")).is_buildable());
    assert!(!get_connection_pool(Some("16"), None).is_buildable());
    assert!(get_connection_pool(Some("5"), Some("5")).is_buildable());
}

#[test]
fn read_setting_falls_back() {
    assert_eq!(read_setting(Some("12"), 3), 12);
    assert_eq!(read_setting(Some("twelve"), 3), 3);
    assert_eq!(read_setting(None, 3), 3);
    assert_eq!(read_setting(Some("4294967296"), 3), 3);
}

#[test]
fn parse_u32_known_values() {
    assert_eq!(parse_u32(b"0"), Some(0));
    assert_eq!(parse_u32(b"64"), Some(64));
    assert_eq!(parse_u32(b"+64"), Some(64));
    assert_eq!(parse_u32(b"007"), Some(7));
    assert_eq!(parse_u32(b"4294967295"), Some(u32::MAX));
    assert_eq!(parse_u32(b"4294967296"), None);
    assert_eq!(parse_u32(b"99999999999999999999999999"), None);
    assert_eq!(parse_u32(b""), None);
    assert_eq!(parse_u32(b"+"), None);
    assert_eq!(parse_u32(b"-"), None);
    assert_eq!(parse_u32(b"-5"), None);
    assert_eq!(parse_u32(b"++5"), None);
    assert_eq!(parse_u32(b"5+"), None);
    assert_eq!(parse_u32(b" 5"), None);
    assert_eq!(parse_u32(b"5 "), None);
    assert_eq!(parse_u32(b"1_000"), None);
    assert_eq!(parse_u32(b"0x10"), None);
    assert_eq!(parse_u32(b"12a"), None);
    assert_eq!(parse_u32("٣".as_bytes()), None);
}

#[test]
fn parse_u32_agrees_with_the_standard_parser() {
    let samples = [
        "", "+", "-", "0", "+0", "-0", "00", "1", "9", "10", "64", "32", "+32", "0032", "4294967295",
        "4294967296", "+4294967295", "+4294967296", "42949672950", "18446744073709551616", "1e3",
        "1.0", " 1", "1 ", "\t1", "1\n", "a", "1a", "a1", "+-1", "-+1", "++1", "+1+", "1_0", "٣",
        "１２", "0x1f", "/", ":", "09", "0000000000000000000000001", "+0000000000004294967295",
    ];
    for sample in samples {
        assert_eq!(parse_u32(sample.as_bytes()), sample.parse::<u32>().ok(), "{:?}", sample);
    }
    let mut text = String::new();
    for number in (0u64..5_000_000_000).step_by(7_654_321) {
        text.clear();
        text.push_str(&number.to_string());
        assert_eq!(parse_u32(text.as_bytes()), text.parse::<u32>().ok(), "{:?}", text);
    }
}
