use chrono::{FixedOffset, TimeZone};
use dirlist::digits::decimal;
use dirlist::size::{size_field, SIZE_WIDTH};
use dirlist::timestamp::{stamp_at, CivilTime};

#[test]
fn decimal_writes_the_digits_of_a_number() {
    assert_eq!(decimal(0), "0");
    assert_eq!(decimal(7), "7");
    assert_eq!(decimal(9), "9");
    assert_eq!(decimal(10), "10");
    assert_eq!(decimal(1234567890), "1234567890");
    assert_eq!(decimal(u64::MAX), "18446744073709551615");
}

#[test]
fn decimal_reads_back_as_the_number() {
    for n in [0u64, 1, 9, 10, 99, 100, 4096, 99999, 100000, 123456, u64::MAX - 1, u64::MAX] {
        assert_eq!(decimal(n).parse::<u64>().unwrap(), n);
    }
}

#[test]
fn small_sizes_are_right_aligned_in_five_columns() {
    assert_eq!(SIZE_WIDTH, 5);
    assert_eq!(size_field(0), "    0");
    assert_eq!(size_field(7), "    7");
    assert_eq!(size_field(42), "   42");
    assert_eq!(size_field(512), "  512");
    assert_eq!(size_field(4096), " 4096");
    assert_eq!(size_field(9999), " 9999");
}

#[test]
fn five_digit_sizes_fill_the_column() {
    assert_eq!(size_field(10000), "10000");
    assert_eq!(size_field(12345), "12345");
    assert_eq!(size_field(99999), "99999");
}

#[test]
fn size_123456_is_not_truncated() {
    assert_eq!(size_field(123456), "123456");
}

#[test]
fn large_sizes_widen_the_column() {
    assert_eq!(size_field(100000), "100000");
    assert_eq!(size_field(1073741824), "1073741824");
    assert_eq!(size_field(u64::MAX), "18446744073709551615");
}

#[test]
fn size_column_is_never_narrower_than_five() {
    for size in [0u64, 1, 10, 100, 1000, 10000, 100000, 1 << 40, u64::MAX] {
        let text = size_field(size);
        assert!(text.len() >= 5);
        assert_eq!(text.trim_start_matches(' '), decimal(size));
        assert_eq!(text.len(), decimal(size).len().max(5));
    }
}

#[test]
fn third_of_august_five_past_nine() {
    let time = CivilTime { day: 3, month: 8, hour: 9, minute: 5 };
    assert_eq!(time.render(), " 3 Aug 09:05");
}

#[test]
fn two_digit_day_takes_both_columns() {
    let time = CivilTime { day: 31, month: 12, hour: 23, minute: 59 };
    assert_eq!(time.render(), "31 Dec 23:59");
    let time = CivilTime { day: 10, month: 1, hour: 0, minute: 0 };
    assert_eq!(time.render(), "10 Jan 00:00");
}

#[test]
fn afternoon_hours_are_on_a_24_hour_clock() {
    let time = CivilTime { day: 1, month: 5, hour: 13, minute: 30 };
    assert_eq!(time.render(), " 1 May 13:30");
    let time = CivilTime { day: 9, month: 6, hour: 10, minute: 10 };
    assert_eq!(time.render(), " 9 Jun 10:10");
}

#[test]
fn every_month_has_its_three_letters() {
    let names =
        ["Jan", "Feb", "Mar", "Apr", "May", "Jun", "Jul", "Aug", "Sep", "Oct", "Nov", "Dec"];
    for month in 1..=12u32 {
        let time = CivilTime { day: 15, month, hour: 12, minute: 30 };
        assert_eq!(time.render(), format!("15 {} 12:30", names[month as usize - 1]));
    }
}

#[test]
fn time_column_is_twelve_wide() {
    for day in 1..=31u32 {
        for minute in 0..=59u32 {
            let time = CivilTime { day, month: 1 + day % 12, hour: minute % 24, minute };
            assert_eq!(time.render().len(), 12);
        }
    }
}

#[test]
fn new_accepts_what_a_calendar_and_a_clock_show() {
    assert_eq!(CivilTime::new(3, 8, 9, 5), Some(CivilTime { day: 3, month: 8, hour: 9, minute: 5 }));
    assert_eq!(
        CivilTime::new(1, 1, 0, 0),
        Some(CivilTime { day: 1, month: 1, hour: 0, minute: 0 })
    );
    assert_eq!(
        CivilTime::new(31, 12, 23, 59),
        Some(CivilTime { day: 31, month: 12, hour: 23, minute: 59 })
    );
}

#[test]
fn new_refuses_a_field_out_of_range() {
    assert_eq!(CivilTime::new(0, 8, 9, 5), None);
    assert_eq!(CivilTime::new(32, 8, 9, 5), None);
    assert_eq!(CivilTime::new(3, 0, 9, 5), None);
    assert_eq!(CivilTime::new(3, 13, 9, 5), None);
    assert_eq!(CivilTime::new(3, 8, 24, 5), None);
    assert_eq!(CivilTime::new(3, 8, 9, 60), None);
}

#[test]
fn stamp_at_utc_shows_the_utc_calendar() {
    assert_eq!(stamp_at(1627981500, 0), Some(" 3 Aug 09:05".to_string()));
    assert_eq!(stamp_at(1627981559, 0), Some(" 3 Aug 09:05".to_string()));
    assert_eq!(stamp_at(0, 0), Some(" 1 Jan 00:00".to_string()));
    assert_eq!(stamp_at(1583020740, 0), Some("29 Feb 23:59".to_string()));
    assert_eq!(stamp_at(2147483647, 0), Some("19 Jan 03:14".to_string()));
}

#[test]
fn stamp_at_before_the_epoch() {
    assert_eq!(stamp_at(-60, 0), Some("31 Dec 23:59".to_string()));
    assert_eq!(stamp_at(-1, 0), Some("31 Dec 23:59".to_string()));
}

#[test]
fn stamp_at_moves_the_clock_by_the_offset() {
    assert_eq!(stamp_at(1627981500, 7200), Some(" 3 Aug 11:05".to_string()));
    assert_eq!(stamp_at(1627981500, 19800), Some(" 3 Aug 14:35".to_string()));
    assert_eq!(stamp_at(1627981500, -36000), Some(" 2 Aug 23:05".to_string()));
    assert_eq!(stamp_at(946684740, 3600), Some(" 1 Jan 00:59".to_string()));
    assert_eq!(stamp_at(1704067200, -60), Some("31 Dec 23:59".to_string()));
}

#[test]
fn stamp_at_names_each_month() {
    let noon_on_the_15th = [
        (1673785800, "15 Jan 12:30"),
        (1676464200, "15 Feb 12:30"),
        (1678883400, "15 Mar 12:30"),
        (1681561800, "15 Apr 12:30"),
        (1684153800, "15 May 12:30"),
        (1686832200, "15 Jun 12:30"),
        (1689424200, "15 Jul 12:30"),
        (1692102600, "15 Aug 12:30"),
        (1694781000, "15 Sep 12:30"),
        (1697373000, "15 Oct 12:30"),
        (1700051400, "15 Nov 12:30"),
        (1702643400, "15 Dec 12:30"),
    ];
    for (secs, text) in noon_on_the_15th {
        assert_eq!(stamp_at(secs, 0), Some(text.to_string()));
    }
}

#[test]
fn stamp_at_knows_no_offset_of_a_day_or_more() {
    assert_eq!(stamp_at(1627981500, 86400), None);
    assert_eq!(stamp_at(1627981500, -86400), None);
    assert_eq!(stamp_at(1627981500, i32::MAX), None);
    assert_eq!(stamp_at(1627981500, 86399), Some(" 4 Aug 09:04".to_string()));
    assert_eq!(stamp_at(1627981500, -86399), Some(" 2 Aug 09:05".to_string()));
}

#[test]
fn stamp_at_has_no_day_beyond_the_calendar() {
    assert_eq!(stamp_at(i64::MAX, 0), None);
    assert_eq!(stamp_at(i64::MIN, 0), None);
}

#[test]
fn stamp_at_agrees_with_the_strftime_pattern() {
    let offsets = [-86399, -36000, -12600, -3600, -1, 0, 1, 1800, 3600, 19800, 45900, 86399];
    let mut secs: i64 = -3_000_000_000;
    while secs < 6_000_000_000 {
        for offset in offsets {
            let zone = FixedOffset::east_opt(offset).unwrap();
            let expected = zone.timestamp_opt(secs, 0).unwrap().format("%_d %b %H:%M").to_string();
            assert_eq!(stamp_at(secs, offset), Some(expected), "{} at {}", secs, offset);
        }
        secs += 11 * 86_400 + 7 * 3_661;
    }
}

#[test]
fn size_field_agrees_with_right_alignment_in_five() {
    let mut size: u64 = 0;
    while size < 2_000_000 {
        assert_eq!(size_field(size), format!("{:>5}", size));
        size += 1 + size / 7;
    }
    for shift in 0..64 {
        let size = 1u64 << shift;
        assert_eq!(size_field(size), format!("{:>5}", size));
        assert_eq!(size_field(size - 1), format!("{:>5}", size - 1));
    }
}
