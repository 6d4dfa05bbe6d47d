use hegel_pm::cli::discover::format::{
    format_duration_ms, format_size, format_timestamp_iso, try_format_timestamp_iso,
};
use hegel_pm::timestamp::Timestamp;
use std::time::Duration;

#[test]
fn test_format_size_bytes() {
    assert_eq!(format_size(512), "512 B");
    assert_eq!(format_size(1023), "1023 B");
}

#[test]
fn test_format_size_kb() {
    assert_eq!(format_size(1024), "1 KB");
    assert_eq!(format_size(1536), "2 KB");
    assert_eq!(format_size(10240), "10 KB");
}

#[test]
fn test_format_size_mb() {
    assert_eq!(format_size(1_048_576), "1.0 MB");
    assert_eq!(format_size(1_572_864), "1.5 MB");
    assert_eq!(format_size(10_485_760), "10.0 MB");
}

#[test]
fn test_format_size_gb() {
    assert_eq!(format_size(1_073_741_824), "1.0 GB");
    assert_eq!(format_size(1_610_612_736), "1.5 GB");
}

#[test]
fn test_format_size_tb() {
    assert_eq!(format_size(1_099_511_627_776), "1.0 TB");
    assert_eq!(format_size(1_649_267_441_664), "1.5 TB");
}

#[test]
fn test_format_size_zero() {
    assert_eq!(format_size(0), "0 B");
}

#[test]
fn test_format_size_ties_go_to_even() {
    // 2.5 KB and 3.5 KB lie halfway between two whole numbers.
    assert_eq!(format_size(2560), "2 KB");
    assert_eq!(format_size(3584), "4 KB");
    // 1.25 MB and 1.75 MB lie halfway between two tenths.
    assert_eq!(format_size(1_310_720), "1.2 MB");
    assert_eq!(format_size(1_835_008), "1.8 MB");
}

#[test]
fn test_format_size_agrees_with_float_formatting() {
    let samples: Vec<u64> = vec![
        1,
        1023,
        1024,
        1025,
        1535,
        1536,
        1537,
        999_999,
        1_048_575,
        1_048_576,
        1_100_000,
        1_101_005,
        52_428_800,
        1_073_741_823,
        1_073_741_824,
        5_000_000_000,
        1_099_511_627_775,
        1_099_511_627_776,
        123_456_789_012_345,
        9_007_199_254_740_992,
        9_007_199_254_740_993,
        9_007_199_254_740_995,
        18_014_398_509_481_985,
        1_152_921_504_606_846_977,
        u64::MAX - 1,
        u64::MAX,
    ];
    for bytes in samples {
        let kb = 1024.0;
        let mb = kb * 1024.0;
        let gb = mb * 1024.0;
        let tb = gb * 1024.0;
        let x = bytes as f64;
        let expected = if x >= tb && bytes >= 1_099_511_627_776 {
            format!("{:.1} TB", x / tb)
        } else if bytes >= 1_073_741_824 {
            format!("{:.1} GB", x / gb)
        } else if bytes >= 1_048_576 {
            format!("{:.1} MB", x / mb)
        } else if bytes >= 1024 {
            format!("{:.0} KB", x / kb)
        } else {
            format!("{} B", bytes)
        };
        assert_eq!(format_size(bytes), expected);
    }
}

#[test]
fn test_format_duration_ms() {
    assert_eq!(format_duration_ms(Duration::from_millis(123).as_millis()), "123ms");
    assert_eq!(format_duration_ms(Duration::from_millis(5).as_millis()), "5ms");
    assert_eq!(format_duration_ms(Duration::from_secs(1).as_millis()), "1000ms");
}

#[test]
fn test_format_timestamp_iso() {
    let time = Timestamp { secs_since_epoch: 1_700_000_000, nanos_since_epoch: 0 };
    let formatted = try_format_timestamp_iso(time).unwrap();
    assert!(!formatted.is_empty());
    assert!(formatted.contains("T"));
    assert!(formatted.ends_with("Z") || formatted.contains("+"));
    assert_eq!(formatted, "2023-11-14T22:13:20+00:00");
    assert_eq!(format_timestamp_iso(time), "2023-11-14T22:13:20+00:00");
}

#[test]
fn test_format_timestamp_iso_out_of_reach() {
    let beyond = Timestamp { secs_since_epoch: u64::MAX, nanos_since_epoch: 0 };
    assert_eq!(try_format_timestamp_iso(beyond), None);
    let far = Timestamp { secs_since_epoch: i64::MAX as u64, nanos_since_epoch: 0 };
    assert_eq!(try_format_timestamp_iso(far), None);
    let epoch = Timestamp::epoch();
    assert_eq!(try_format_timestamp_iso(epoch).unwrap(), "1970-01-01T00:00:00+00:00");
}
