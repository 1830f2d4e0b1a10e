use message_center_feed::clock::LocalInstant;
use message_center_feed::stamp::settle;
use message_center_feed::stamp::utc_stamp;
use message_center_feed::stamp::DateError;
use message_center_feed::text::chars_of;
use message_center_feed::text::date_stem;
use message_center_feed::text::find;
use message_center_feed::text::is_whitespace;
use message_center_feed::text::same_text;

#[test]
fn pacific_daylight_time_is_seven_hours_behind() {
    assert_eq!(utc_stamp("2022-05-24 14:00 PT"), Ok("2022-05-24T21:00:00Z".to_string()));
}

#[test]
fn pacific_standard_time_is_eight_hours_behind() {
    assert_eq!(utc_stamp("2022-01-15 08:00 PT"), Ok("2022-01-15T16:00:00Z".to_string()));
    assert_eq!(utc_stamp("2022-12-31 23:59 PT"), Ok("2023-01-01T07:59:00Z".to_string()));
}

#[test]
fn date_without_marker_is_an_error() {
    assert_eq!(utc_stamp("2022-05-24 14:00"), Err(DateError::MissingMarker));
    assert_eq!(utc_stamp(""), Err(DateError::MissingMarker));
}

#[test]
fn date_of_another_pattern_is_an_error() {
    assert_eq!(utc_stamp("May 24, 2022 PT"), Err(DateError::Malformed));
    assert_eq!(utc_stamp("2022-05-24 14:00PT"), Err(DateError::Malformed));
    assert_eq!(utc_stamp("2022-05-24 25:00 PT"), Err(DateError::Malformed));
    assert_eq!(utc_stamp("PT"), Err(DateError::Malformed));
}

#[test]
fn skipped_hour_is_an_error() {
    assert_eq!(utc_stamp("2022-03-13 02:30 PT"), Err(DateError::Nonexistent));
}

#[test]
fn repeated_hour_is_an_error() {
    assert_eq!(utc_stamp("2022-11-06 01:30 PT"), Err(DateError::Ambiguous));
}

#[test]
fn settle_takes_the_one_instant() {
    assert_eq!(settle(LocalInstant::Once(1653426000)), Ok(1653426000));
    assert_eq!(settle(LocalInstant::Never), Err(DateError::Nonexistent));
    assert_eq!(settle(LocalInstant::Twice(1, 2)), Err(DateError::Ambiguous));
}

#[test]
fn stem_ends_before_the_last_run_of_whitespace() {
    assert_eq!(date_stem("2022-05-24 14:00 PT").as_deref(), Some("2022-05-24 14:00"));
    assert_eq!(date_stem("2022-05-24 14:00 \t PT").as_deref(), Some("2022-05-24 14:00"));
    assert_eq!(date_stem("2022-05-24 14:00\u{a0}PT").as_deref(), Some("2022-05-24 14:00"));
    assert_eq!(date_stem("2022-05-24 14:00 UTC-8 PT").as_deref(), Some("2022-05-24 14:00 UTC-8"));
    assert_eq!(date_stem("2022-05-24 14:00PT").as_deref(), Some("2022-05-24"));
    assert_eq!(date_stem(" PT").as_deref(), Some(""));
}

#[test]
fn stem_without_whitespace_is_what_precedes_the_marker() {
    assert_eq!(date_stem("14:00PT").as_deref(), Some("14:00"));
    assert_eq!(date_stem("PT").as_deref(), Some(""));
}

#[test]
fn stem_is_cut_at_the_first_marker() {
    assert_eq!(date_stem("a b PT c PT").as_deref(), Some("a b"));
    assert_eq!(date_stem("P T PPT").as_deref(), Some("P T"));
}

#[test]
fn text_without_marker_has_no_stem() {
    assert_eq!(date_stem("2022-05-24 14:00"), None);
    assert_eq!(date_stem("P"), None);
    assert_eq!(date_stem("TP pt"), None);
}

#[test]
fn find_gives_the_first_place() {
    let text = chars_of("abcabc");
    assert_eq!(find(&text, &chars_of("bc")), Some(1));
    assert_eq!(find(&text, &chars_of("abcabc")), Some(0));
    assert_eq!(find(&text, &chars_of("")), Some(0));
    assert_eq!(find(&text, &chars_of("cb")), None);
    assert_eq!(find(&text, &chars_of("abcabca")), None);
    assert_eq!(find(&chars_of("é—PT"), &chars_of("PT")), Some(2));
}

#[test]
fn chars_are_taken_in_order() {
    assert_eq!(chars_of("aé—"), vec!['a', 'é', '—']);
    assert!(chars_of("").is_empty());
}

#[test]
fn same_text_compares_characters() {
    assert!(same_text("self", "self"));
    assert!(!same_text("self", "self-bookmark"));
    assert!(same_text("", ""));
}

#[test]
fn whitespace_is_what_std_calls_whitespace() {
    let mut n: u32 = 0;
    while n <= 0x10FFFF {
        if let Some(c) = char::from_u32(n) {
            assert_eq!(is_whitespace(c), c.is_whitespace());
        }
        n += 1;
    }
}
