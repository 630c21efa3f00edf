use host_snapshot::format_uptime;
use host_snapshot::uptime::{SECONDS_PER_DAY, SECONDS_PER_HOUR, SECONDS_PER_MINUTE};

#[test]
fn one_day_two_hours_three_minutes_four_seconds() {
    assert_eq!(format_uptime(93784), "01:02:03:04");
}

#[test]
fn zero_seconds() {
    assert_eq!(format_uptime(0), "00:00:00:00");
}

#[test]
fn fifty_nine_seconds() {
    assert_eq!(format_uptime(59), "00:00:00:59");
}

#[test]
fn each_field_rolls_over_into_the_next() {
    assert_eq!(format_uptime(60), "00:00:01:00");
    assert_eq!(format_uptime(3599), "00:00:59:59");
    assert_eq!(format_uptime(3600), "00:01:00:00");
    assert_eq!(format_uptime(86399), "00:23:59:59");
    assert_eq!(format_uptime(86400), "01:00:00:00");
}

#[test]
fn single_digits_get_a_leading_zero_and_double_digits_none() {
    assert_eq!(format_uptime(810549), "09:09:09:09");
    assert_eq!(format_uptime(900610), "10:10:10:10");
}

#[test]
fn days_beyond_two_digits_are_written_in_full() {
    assert_eq!(format_uptime(8639999), "99:23:59:59");
    assert_eq!(format_uptime(8640000), "100:00:00:00");
    assert_eq!(format_uptime(4294967296), "49710:06:28:16");
}

#[test]
fn the_longest_duration_does_not_overflow() {
    assert_eq!(format_uptime(u64::MAX), "213503982334601:07:00:15");
}

#[test]
fn the_fields_give_the_seconds_back() {
    for seconds in [0u64, 1, 59, 60, 3661, 86399, 86400, 93784, 31_536_000, 1_000_000_007] {
        let text = format_uptime(seconds);
        let fields: Vec<u64> = text.split(':').map(|field| field.parse().unwrap()).collect();
        assert_eq!(fields.len(), 4);
        assert!(fields[1] < 24 && fields[2] < 60 && fields[3] < 60);
        let total = fields[0] * SECONDS_PER_DAY
            + fields[1] * SECONDS_PER_HOUR
            + fields[2] * SECONDS_PER_MINUTE
            + fields[3];
        assert_eq!(total, seconds);
    }
}

#[test]
fn the_text_has_eleven_characters_below_a_hundred_days() {
    for seconds in [0u64, 59, 93784, 8639999] {
        let text = format_uptime(seconds);
        assert_eq!(text.len(), 11);
        let bytes = text.as_bytes();
        assert_eq!(bytes[2], b':');
        assert_eq!(bytes[5], b':');
        assert_eq!(bytes[8], b':');
    }
    assert_eq!(format_uptime(8640000).len(), 12);
}
