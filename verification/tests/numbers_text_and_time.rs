use account_pool::percent::Percent;
use account_pool::text::all_whitespace;
use account_pool::text::comes_before;
use account_pool::text::decimal;
use account_pool::text::eq_ignore_ascii_case;
use account_pool::text::is_whitespace;
use account_pool::text::nth_word;
use account_pool::text::parse_usize;
use account_pool::text::split_at_white;
use account_pool::text::strip_leading;
use account_pool::text::to_ascii_lowercase;
use account_pool::text::trim;
use account_pool::text::trim_end;
use account_pool::text::trim_start;
use account_pool::time::month_day_minute;
use account_pool::time::UtcTime;
use account_pool::time::FIRST_SECOND;
use account_pool::time::LAST_SECOND;

const FLOATS: [f64; 26] = [
    0.0,
    -0.0,
    0.25,
    0.5,
    0.500_000_000_000_000_1,
    1.0,
    1.5,
    2.5,
    3.5,
    36.5,
    37.0,
    37.499_999,
    49.999_999_999_999_99,
    50.5,
    94.999,
    95.0,
    95.5,
    99.5,
    100.0,
    100.5,
    250.0,
    -1.0,
    -0.3,
    -1e300,
    1e300,
    5e-324,
];

fn percent(value: f64) -> Percent {
    Percent::from_bits(value.to_bits())
}

#[test]
fn percentages_compare_as_floats_do() {
    let mut values = FLOATS.to_vec();
    values.extend([f64::NAN, f64::INFINITY, f64::NEG_INFINITY]);
    for &a in &values {
        for &b in &values {
            assert_eq!(percent(a).gt(percent(b)), a > b, "{a} > {b}");
            assert_eq!(percent(a).ge(percent(b)), a >= b, "{a} >= {b}");
            assert_eq!(
                percent(a).total_le(percent(b)),
                a.total_cmp(&b).is_le(),
                "{a} <= {b}"
            );
        }
        assert_eq!(percent(a).is_finite(), a.is_finite(), "{a}");
    }
}

#[test]
fn percentages_are_shown_as_clamped_whole_numbers() {
    for value in FLOATS {
        assert_eq!(
            percent(value).display(),
            format!("{:.0}%", value.clamp(0.0, 100.0)),
            "{value}"
        );
    }
    assert_eq!(percent(2.5).display(), "2%");
    assert_eq!(percent(3.5).display(), "4%");
    assert_eq!(percent(37.0).rounded(), 37);
}

#[test]
fn white_space_is_what_unicode_says() {
    for code in 0..=0x0010_FFFFu32 {
        if let Some(c) = char::from_u32(code) {
            assert_eq!(is_whitespace(c), c.is_whitespace(), "{code:x}");
        }
    }
}

const SAMPLES: [&str; 12] = [
    "",
    " ",
    "\u{3000}\u{2028}",
    "a",
    " a ",
    "\t/account  list 2\n",
    "//status",
    "  spaced out  words  ",
    "\u{a0}caf\u{e9}\u{85}",
    "MiXeD \u{130} Case",
    "tail ",
    "x y",
];

#[test]
fn text_is_cut_as_the_standard_library_does() {
    for sample in SAMPLES {
        assert_eq!(trim(sample), sample.trim());
        assert_eq!(trim_start(sample), sample.trim_start());
        assert_eq!(trim_end(sample), sample.trim_end());
        assert_eq!(strip_leading(sample, '/'), sample.trim_start_matches('/'));
        assert_eq!(all_whitespace(sample), sample.trim().is_empty());
        assert_eq!(to_ascii_lowercase(sample), sample.to_ascii_lowercase());
        let expected = sample.split_once(char::is_whitespace).unwrap_or((sample, ""));
        assert_eq!(
            split_at_white(sample),
            (expected.0.to_string(), expected.1.to_string())
        );
        for n in 0..4 {
            assert_eq!(
                nth_word(sample, n),
                sample.split_whitespace().nth(n).map(str::to_string)
            );
        }
        for other in SAMPLES {
            assert_eq!(
                eq_ignore_ascii_case(sample, other),
                sample.eq_ignore_ascii_case(other)
            );
            assert_eq!(comes_before(sample, other), sample < other);
        }
    }
}

#[test]
fn numbers_are_written_and_read_as_the_standard_library_does() {
    for n in [0, 7, 10, 99, 100, 65_535, u64::MAX] {
        assert_eq!(decimal(n), n.to_string());
    }
    let huge = format!("{}", usize::MAX);
    let too_large = format!("{}0", usize::MAX);
    for sample in [
        "", "0", "7", "+7", "-7", "007", "+", "++1", "1_0", "12a", " 1", "1 ", "\u{663}",
        &huge, &too_large,
    ] {
        assert_eq!(parse_usize(sample), sample.parse::<usize>().ok(), "{sample}");
    }
    for n in [0, 1, 42, 1_000_000] {
        assert_eq!(parse_usize(&decimal(n as u64)), Some(n));
    }
}

#[test]
fn calendar_covers_the_years_of_the_calendar_library() {
    for seconds in [
        i64::MIN,
        FIRST_SECOND - 1,
        FIRST_SECOND,
        -1,
        0,
        1_900_000_000,
        LAST_SECOND,
        LAST_SECOND + 1,
        i64::MAX,
    ] {
        let expected = chrono::DateTime::<chrono::Utc>::from_timestamp(seconds, 0);
        assert_eq!(
            UtcTime::from_timestamp(seconds).map(|time| (time.timestamp(), time.subsec_nanos())),
            expected.map(|_| (seconds, 0)),
            "{seconds}"
        );
        assert_eq!(
            month_day_minute(seconds),
            expected.map(|time| time.format("%m-%d %H:%M UTC").to_string())
        );
    }
}

#[test]
fn instants_are_written_out() {
    let time = UtcTime::new(1_900_000_000, 500_000_000).unwrap();
    assert_eq!(time.date_minute(), "2030-03-17 17:46 UTC");
    assert_eq!(time.full_text(), "2030-03-17 17:46:40.500 UTC");
    assert_eq!(month_day_minute(1_900_000_000).unwrap(), "03-17 17:46 UTC");
    for seconds in [FIRST_SECOND, LAST_SECOND] {
        let time = chrono::DateTime::<chrono::Utc>::from_timestamp(seconds, 999_999_999).unwrap();
        assert_eq!(
            UtcTime::new(seconds, 999_999_999).unwrap().full_text(),
            time.to_string()
        );
    }
}

#[test]
fn every_instant_has_a_date() {
    assert_eq!(UtcTime::new(FIRST_SECOND - 1, 0), None);
    assert_eq!(UtcTime::new(LAST_SECOND + 1, 0), None);
    assert_eq!(UtcTime::new(59, 1_000_000_000), None);
    let last = UtcTime::new(LAST_SECOND, 999_999_999).unwrap();
    assert_eq!(
        (last.timestamp(), last.subsec_nanos()),
        (LAST_SECOND, 999_999_999)
    );
}

#[test]
fn additions_stop_at_the_last_instant() {
    let time = UtcTime::new(LAST_SECOND - 10, 7).unwrap();
    assert_eq!(Some(time.plus(10)), UtcTime::new(LAST_SECOND, 7));
    assert_eq!(
        Some(time.plus(11)),
        UtcTime::new(LAST_SECOND, 999_999_999)
    );
    assert_eq!(time.plus(u64::MAX), time.plus(11));
    assert!(time.is_before(time.plus(1)));
    assert!(!time.is_before(time));
}
