use chrono::TimeZone;
use nspawn::clock::{can_be_offset, date_time_in, has_date_time, CLOCK_MAX, CLOCK_MIN};
use nspawn::images::structs::{moment_of, stamp_at, to_seconds};
use nspawn::images::usage::{nearest_to, to_binary64, to_hundredths};
use nspawn::images::{Image, Listed, Moments, Offsets, Usage};
use nspawn::machines::Machine;
use nspawn::utilities::{invalid_image, invalid_machine, join, join3, join4, join5, opt_string_eval, Notice, Tone};

fn image(name: &str, created: i64, modified: i64, usage: Option<i64>) -> Image {
    Image {
        name: name.to_string(),
        type_field: "raw".to_string(),
        ro: false,
        usage: usage.map(Usage::Bytes),
        created,
        modified,
    }
}

#[test]
fn missing_value_reads_as_placeholder() {
    assert_eq!(opt_string_eval(&None), "-");
}

#[test]
fn present_value_reads_as_itself() {
    assert_eq!(opt_string_eval(&Some("debian".to_string())), "debian");
    assert_eq!(opt_string_eval(&Some(String::new())), "");
}

#[test]
fn missing_machine_is_an_error_notice() {
    let notice = invalid_machine();
    assert_eq!(notice.tone, Tone::Error);
    assert_eq!(
        notice.text,
        "Error: specify a machine name to work with. See --help for more information."
    );
}

#[test]
fn missing_image_is_an_error_notice() {
    let notice = invalid_image();
    assert_eq!(notice.tone, Tone::Error);
    assert_eq!(
        notice.text,
        "Error: specify a image name to work with. See --help for more information."
    );
}

#[test]
fn notices_carry_their_tone() {
    assert_eq!(Notice::warning("w".to_string()), Notice { tone: Tone::Warning, text: "w".to_string() });
    assert_eq!(Notice::error("e".to_string()), Notice { tone: Tone::Error, text: "e".to_string() });
    assert_eq!(Notice::success("s".to_string()), Notice { tone: Tone::Success, text: "s".to_string() });
}

#[test]
fn joins_put_texts_in_a_row() {
    assert_eq!(join("a", "b"), "ab");
    assert_eq!(join3("a", "b", "c"), "abc");
    assert_eq!(join4("a", "b", "c", "d"), "abcd");
    assert_eq!(join5("a", "b", "c", "d", "e"), "abcde");
}

#[test]
fn usage_unknown_reads_as_placeholder() {
    assert_eq!(image("a", 0, 0, None).get_usage_in_gb(), "-");
}

#[test]
fn usage_is_shown_in_gigabytes_with_two_decimals() {
    assert_eq!(image("a", 0, 0, Some(0)).get_usage_in_gb(), "0.00 GB");
    assert_eq!(image("a", 0, 0, Some(1_000_000_000)).get_usage_in_gb(), "1.00 GB");
    assert_eq!(image("a", 0, 0, Some(1_500_000_000)).get_usage_in_gb(), "1.50 GB");
    assert_eq!(image("a", 0, 0, Some(1_234_567_890)).get_usage_in_gb(), "1.23 GB");
    assert_eq!(image("a", 0, 0, Some(999_999_999)).get_usage_in_gb(), "1.00 GB");
    assert_eq!(image("a", 0, 0, Some(4_999_999)).get_usage_in_gb(), "0.00 GB");
    assert_eq!(image("a", 0, 0, Some(5_000_001)).get_usage_in_gb(), "0.01 GB");
    assert_eq!(image("a", 0, 0, Some(123_456_789_012_345)).get_usage_in_gb(), "123456.79 GB");
}

#[test]
fn usage_keeps_the_sign_of_a_negative_size() {
    assert_eq!(image("a", 0, 0, Some(-1_500_000_000)).get_usage_in_gb(), "-1.50 GB");
    assert_eq!(image("a", 0, 0, Some(-1)).get_usage_in_gb(), "-0.00 GB");
}

#[test]
fn usage_leaves_the_record_as_it_is() {
    let mut record = image("a", 5, 6, Some(42));
    let before = record.clone();
    record.get_usage_in_gb();
    assert_eq!(record, before);
}

fn floating(bytes: i64) -> String {
    format!("{:.2} GB", bytes as f64 / 1_000_000_000.0)
}

#[test]
fn usage_is_what_binary64_division_shows() {
    for bytes in [0, 1, 999, 4_999_999, 5_000_000, 5_000_001, 15_000_000, 25_000_000, 125_000_000] {
        assert_eq!(image("a", 0, 0, Some(bytes)).get_usage_in_gb(), floating(bytes), "{bytes}");
    }
    assert_eq!(image("a", 0, 0, Some(5_000_000)).get_usage_in_gb(), "0.01 GB");
    assert_eq!(image("a", 0, 0, Some(15_000_000)).get_usage_in_gb(), "0.01 GB");
    assert_eq!(image("a", 0, 0, Some(25_000_000)).get_usage_in_gb(), "0.03 GB");
    assert_eq!(image("a", 0, 0, Some(125_000_000)).get_usage_in_gb(), "0.12 GB");
    assert_eq!(image("a", 0, 0, Some(375_000_000)).get_usage_in_gb(), "0.38 GB");
}

#[test]
fn usage_agrees_with_floating_point_on_ties() {
    let mut k: i64 = 0;
    while k < 20_000 {
        let bytes = (2 * k + 1) * 5_000_000;
        assert_eq!(image("a", 0, 0, Some(bytes)).get_usage_in_gb(), floating(bytes), "{bytes}");
        assert_eq!(image("a", 0, 0, Some(-bytes)).get_usage_in_gb(), floating(-bytes), "-{bytes}");
        k += 1;
    }
    let mut bytes: i64 = 5_000_000;
    while bytes < i64::MAX / 11 {
        assert_eq!(image("a", 0, 0, Some(bytes)).get_usage_in_gb(), floating(bytes), "{bytes}");
        bytes *= 11;
    }
}

#[test]
fn usage_agrees_with_floating_point_around_powers_of_two() {
    let mut exponent = 0;
    while exponent < 63 {
        let power: i64 = 1 << exponent;
        for bytes in [power - 1, power, power + 1, power + power / 2, power / 3 * 5] {
            assert_eq!(image("a", 0, 0, Some(bytes)).get_usage_in_gb(), floating(bytes), "{bytes}");
            assert_eq!(image("a", 0, 0, Some(-bytes)).get_usage_in_gb(), floating(-bytes), "-{bytes}");
        }
        exponent += 1;
    }
    for bytes in [i64::MAX, i64::MAX - 1, i64::MAX - 511, i64::MAX - 512, i64::MAX - 513, i64::MIN, i64::MIN + 1] {
        assert_eq!(image("a", 0, 0, Some(bytes)).get_usage_in_gb(), floating(bytes), "{bytes}");
    }
}

#[test]
fn usage_agrees_with_floating_point_on_scattered_sizes() {
    let mut state: u64 = 0x9E37_79B9_7F4A_7C15;
    let mut round = 0;
    while round < 50_000 {
        state = state.wrapping_mul(6364136223846793005).wrapping_add(1442695040888963407);
        let bytes = (state >> (round % 64)) as i64;
        assert_eq!(image("a", 0, 0, Some(bytes)).get_usage_in_gb(), floating(bytes), "{bytes}");
        round += 1;
    }
}

#[test]
fn nearest_binary64_is_what_a_cast_gives() {
    let mut state: u64 = 12345;
    let mut round = 0;
    while round < 50_000 {
        state = state.wrapping_mul(6364136223846793005).wrapping_add(1442695040888963407);
        let n = state >> (round % 12);
        assert_eq!(to_binary64(n), (n as f64) as u128, "{n}");
        round += 1;
    }
    for n in [0u64, 1, (1 << 53) - 1, 1 << 53, (1 << 53) + 1, (1 << 53) + 2, (1 << 53) + 3, u64::MAX, u64::MAX - 1024] {
        assert_eq!(to_binary64(n), (n as f64) as u128, "{n}");
    }
}

#[test]
fn nearest_integer_sends_ties_to_even() {
    assert_eq!(nearest_to(0, 4), 0);
    assert_eq!(nearest_to(1, 4), 0);
    assert_eq!(nearest_to(2, 4), 0);
    assert_eq!(nearest_to(3, 4), 1);
    assert_eq!(nearest_to(6, 4), 2);
    assert_eq!(nearest_to(10, 4), 2);
    assert_eq!(nearest_to(14, 4), 4);
    assert_eq!(nearest_to(7, 1), 7);
    assert_eq!(nearest_to(7, 3), 2);
    assert_eq!(nearest_to(8, 3), 3);
}

#[test]
fn hundredths_of_a_gigabyte() {
    assert_eq!(to_hundredths(0), 0);
    assert_eq!(to_hundredths(1_000_000_000), 100);
    assert_eq!(to_hundredths(1_234_567_890), 123);
    assert_eq!(to_hundredths(1_235_000_000), 124);
    assert_eq!(to_hundredths(9_223_372_036_854_775_808), 922_337_203_685);
}

#[test]
fn seconds_are_microseconds_rounded_toward_zero() {
    assert_eq!(to_seconds(0), 0);
    assert_eq!(to_seconds(999_999), 0);
    assert_eq!(to_seconds(1_000_000), 1);
    assert_eq!(to_seconds(1_999_999), 1);
    assert_eq!(to_seconds(-1), 0);
    assert_eq!(to_seconds(-1_000_000), -1);
    assert_eq!(to_seconds(-1_999_999), -1);
    assert_eq!(to_seconds(1_700_000_000_000_000), 1_700_000_000);
}

#[test]
fn usage_that_comes_as_text_is_shown_as_it_is() {
    let mut record = image("a", 0, 0, None);
    record.usage = Some(Usage::Text("1.2G".to_string()));
    assert_eq!(record.get_usage_in_gb(), "1.2G");
    record.usage = Some(Usage::Text(String::new()));
    assert_eq!(record.get_usage_in_gb(), "");
    assert_eq!(record.usage, Some(Usage::Text(String::new())));
}

#[test]
fn time_of_zero_reads_as_placeholder() {
    let mut record = image("a", 0, 0, None);
    assert_eq!(record.created_to_timestamp(0), "-");
    assert_eq!(record.modified_to_timestamp(3600), "-");
    assert_eq!(record.created, 0);
    assert_eq!(record.modified, 0);
}

#[test]
fn time_other_than_zero_reads_as_a_date_and_time() {
    let mut record = image("a", 1_700_000_000_000_000, 1_600_000_000_123_456, None);
    assert_eq!(record.created_to_timestamp(0), "2023-11-14 22:13:20 +00:00");
    assert_eq!(record.modified_to_timestamp(7200), "2020-09-13 14:26:40 +02:00");
}

#[test]
fn time_stays_in_the_record_as_it_is() {
    let mut record = image("a", 1_700_000_000_999_999, -2_500_000, Some(7));
    let before = record.clone();
    let first = record.created_to_timestamp(0);
    assert_eq!(record, before);
    let second = record.created_to_timestamp(0);
    assert_eq!(first, second);
    assert_eq!(record, before);
    let first = record.modified_to_timestamp(-3600);
    assert_eq!(record, before);
    assert_eq!(record.modified_to_timestamp(-3600), first);
    assert_eq!(first, "1969-12-31 22:59:58 -01:00");
    assert_eq!(record, before);
}

#[test]
fn time_below_one_second_is_still_a_date_and_time() {
    let mut record = image("a", 1, 0, None);
    assert_eq!(record.created_to_timestamp(0), "1970-01-01 00:00:00 +00:00");
    assert_eq!(record.created, 1);
}

#[test]
fn time_is_what_chrono_renders() {
    let mut record = image("a", 1_431_648_000_000_000, 0, None);
    let local = chrono::Local.timestamp_opt(1_431_648_000, 0).unwrap();
    let east = local.offset().local_minus_utc();
    assert_eq!(record.created_to_timestamp(east), local.to_string());
}

#[test]
fn date_time_is_what_chrono_renders() {
    for secs in [0i64, 1, -1, 1_431_648_000, 1_700_000_000, -2_208_988_800, 253_402_300_800] {
        for east in [0, 3600, -3600, 19_800, 86_399, -86_399] {
            let zone = chrono::FixedOffset::east_opt(east).unwrap();
            let expected = zone.timestamp_opt(secs, 0).unwrap().to_string();
            assert_eq!(date_time_in(secs, east), Some(expected), "{secs} {east}");
        }
    }
}

#[test]
fn date_time_names_date_time_and_offset() {
    assert_eq!(date_time_in(1_431_648_000, 0), Some("2015-05-15 00:00:00 +00:00".to_string()));
    assert_eq!(date_time_in(1_431_648_000, -34_200), Some("2015-05-14 14:30:00 -09:30".to_string()));
}

#[test]
fn stamp_of_zero_is_the_placeholder_in_every_zone() {
    assert_eq!(stamp_at(0, 0), "-");
    assert_eq!(stamp_at(0, 3600), "-");
    assert_eq!(stamp_at(0, -86_399), "-");
}

#[test]
fn stamp_is_the_date_and_time_in_the_zone() {
    assert_eq!(stamp_at(1_431_648_000_000_000, 0), "2015-05-15 00:00:00 +00:00");
    assert_eq!(stamp_at(1_431_648_000_999_999, 3600), "2015-05-15 01:00:00 +01:00");
    assert_eq!(stamp_at(1_431_648_000_000_000, -5 * 3600), "2015-05-14 19:00:00 -05:00");
    assert_eq!(stamp_at(1_431_648_000_000_000, 19_800), "2015-05-15 05:30:00 +05:30");
    assert_eq!(stamp_at(1, 0), "1970-01-01 00:00:00 +00:00");
    assert_eq!(stamp_at(-1_000_000, 0), "1969-12-31 23:59:59 +00:00");
    assert_eq!(stamp_at(-1_999_999, 0), "1969-12-31 23:59:59 +00:00");
    assert_eq!(stamp_at(CLOCK_MAX * 1_000_000, 0), "+262142-12-31 23:59:59 +00:00");
    assert_eq!(stamp_at(CLOCK_MIN * 1_000_000, 0), "-262143-01-01 00:00:00 +00:00");
}

#[test]
fn date_time_exists_within_the_range_of_the_clock() {
    assert!(date_time_in(0, 0).is_some());
    assert!(date_time_in(CLOCK_MAX, 86_399).is_some());
    assert!(date_time_in(CLOCK_MIN, -86_399).is_some());
    assert!(date_time_in(CLOCK_MAX + 1, 0).is_none());
    assert!(date_time_in(CLOCK_MIN - 1, 0).is_none());
    assert!(date_time_in(i64::MAX, 0).is_none());
    assert!(date_time_in(i64::MIN, 0).is_none());
}

#[test]
fn date_time_exists_in_zones_less_than_a_day_from_utc() {
    assert!(date_time_in(0, 86_399).is_some());
    assert!(date_time_in(0, -86_399).is_some());
    assert!(date_time_in(0, 86_400).is_none());
    assert!(date_time_in(0, -86_400).is_none());
    assert!(date_time_in(0, i32::MAX).is_none());
    assert!(date_time_in(0, i32::MIN).is_none());
}

#[test]
fn range_of_the_clock_and_of_offsets() {
    for secs in [0, 1, -1, CLOCK_MAX, CLOCK_MIN, CLOCK_MAX + 1, CLOCK_MIN - 1, i64::MAX, i64::MIN] {
        assert_eq!(has_date_time(secs), date_time_in(secs, 0).is_some(), "{secs}");
    }
    for east in [0, 1, -1, 86_399, -86_399, 86_400, -86_400, i32::MAX, i32::MIN] {
        assert_eq!(can_be_offset(east), chrono::FixedOffset::east_opt(east).is_some(), "{east}");
    }
}

#[test]
fn moments_are_the_seconds_of_times_that_are_not_zero() {
    assert_eq!(moment_of(0), None);
    assert_eq!(moment_of(1), Some(0));
    assert_eq!(moment_of(-1_500_000), Some(-1));
    assert_eq!(moment_of(1_700_000_000_999_999), Some(1_700_000_000));
    assert_eq!(
        image("a", 2_000_000, 0, None).to_look_up(),
        Moments { created: Some(2), modified: None }
    );
    assert_eq!(image("a", 0, 0, None).to_look_up(), Moments { created: None, modified: None });
}

#[test]
fn offsets_answer_for_the_times_that_are_not_zero() {
    let record = image("a", 2_000_000, 0, None);
    assert!(record.is_answered_by(&Offsets { created: Some(3600), modified: None }));
    assert!(record.is_answered_by(&Offsets { created: Some(-86_399), modified: Some(5) }));
    assert!(!record.is_answered_by(&Offsets { created: None, modified: Some(0) }));
    assert!(!record.is_answered_by(&Offsets { created: Some(86_400), modified: None }));
    let blank = image("a", 0, 0, None);
    assert!(blank.is_answered_by(&Offsets { created: None, modified: None }));
    assert!(blank.is_answered_by(&Offsets { created: Some(i32::MAX), modified: None }));
}

#[test]
fn listed_image_carries_the_offsets_of_its_times() {
    let record = image("a", 2_000_000, 0, None);
    let shown = record.clone().with_offsets(&Offsets { created: Some(3600), modified: Some(7200) });
    assert_eq!(shown, Listed { image: record.clone(), created_east: 3600, modified_east: 0 });
    assert!(shown.is_showable());
    assert_eq!(shown.duplicate(), shown);
    let odd = Listed { image: record, created_east: 86_400, modified_east: 0 };
    assert!(!odd.is_showable());
}

#[test]
fn image_is_displayable_within_the_range_of_the_clock() {
    assert!(image("a", 0, 0, None).is_displayable());
    assert!(image("a", 1_700_000_000_000_000, -1, None).is_displayable());
    assert!(image("a", CLOCK_MAX * 1_000_000 + 999_999, 0, None).is_displayable());
    assert!(!image("a", (CLOCK_MAX + 1) * 1_000_000, 0, None).is_displayable());
    assert!(!image("a", 0, i64::MAX, None).is_displayable());
    assert!(!image("a", i64::MIN, 0, None).is_displayable());
}

#[test]
fn duplicate_image_is_equal() {
    let record = Image {
        name: "n".to_string(),
        type_field: "tar".to_string(),
        ro: true,
        usage: Some(Usage::Bytes(9)),
        created: 1,
        modified: 2,
    };
    assert_eq!(record.duplicate(), record);
    let record = Image { usage: Some(Usage::Text("9 G".to_string())), ..record };
    assert_eq!(record.duplicate(), record);
}

#[test]
fn machine_without_name_goes_by_the_placeholder() {
    let unnamed = Machine::default();
    assert_eq!(unnamed.name(), "-");
    let named = Machine { machine: Some("web".to_string()), ..Machine::default() };
    assert_eq!(named.name(), "web");
    assert_eq!(named.duplicate(), named);
}
