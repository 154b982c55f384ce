use calendar_backend::instant::Timestamp;
use calendar_backend::rrule::{
    clamp_to_rule_years, clip_to_window, within_rule_years, ValidatedRRule, FIRST_SECOND,
    FIRST_WRITTEN_SECOND, INSTANCE_LIMIT, LAST_SECOND, LAST_WRITTEN_SECOND,
};
use calendar_backend::rule_text::{
    end_of_part, in_canonical_order, is_plain, part_of, rule_line, set_until, start_line,
    starts_with_frequency, value_of,
};
use chrono::{DateTime, Datelike, NaiveDate, Timelike};

const HOUR: i64 = 3600;
const DAY: i64 = 86_400;
const WEEK: i64 = 604_800;
/// 2024-01-01T00:00:00Z, a Monday.
const MONDAY: i64 = 1_704_067_200;

fn at(secs: i64) -> Timestamp {
    Timestamp { secs, nanos: 0 }
}

fn every_monday() -> ValidatedRRule {
    ValidatedRRule::validate("FREQ=WEEKLY;BYDAY=MO;COUNT=10", at(MONDAY + 10 * HOUR)).unwrap()
}

#[test]
fn validate_accepts_a_weekly_rule() {
    let rule = every_monday();
    assert_eq!(rule.rule_text(), "FREQ=WEEKLY;BYDAY=MO;COUNT=10");
    assert_eq!(rule.start(), at(MONDAY + 10 * HOUR));
}

#[test]
fn validate_accepts_the_property_form() {
    let rule = ValidatedRRule::validate("RRULE:FREQ=DAILY;INTERVAL=2", at(MONDAY)).unwrap();
    assert_eq!(rule.rule_text(), "FREQ=DAILY;INTERVAL=2");
    assert_eq!(rule.to_property(), "RRULE:FREQ=DAILY;INTERVAL=2");
}

#[test]
fn validate_puts_the_frequency_first() {
    let rule = ValidatedRRule::validate("COUNT=3;BYDAY=TU;FREQ=WEEKLY", at(MONDAY)).unwrap();
    assert_eq!(rule.rule_text(), "FREQ=WEEKLY;COUNT=3;BYDAY=TU");
    assert_eq!(rule.to_property(), "RRULE:FREQ=WEEKLY;COUNT=3;BYDAY=TU");
    let middle = ValidatedRRule::validate("rrule:count=3;freq=weekly;byday=tu", at(MONDAY)).unwrap();
    assert_eq!(middle.rule_text(), "FREQ=weekly;count=3;byday=tu");
    assert_eq!(
        middle.all_within_period(at(MONDAY), at(MONDAY + 10 * WEEK)),
        rule.all_within_period(at(MONDAY), at(MONDAY + 10 * WEEK))
    );
}

#[test]
fn validate_refuses_malformed_text() {
    assert!(ValidatedRRule::validate("", at(MONDAY)).is_err());
    assert!(ValidatedRRule::validate("every monday", at(MONDAY)).is_err());
    assert!(ValidatedRRule::validate("FREQ=SOMETIMES", at(MONDAY)).is_err());
    assert!(ValidatedRRule::validate("COUNT=3", at(MONDAY)).is_err());
    assert!(ValidatedRRule::validate("EXRULE:FREQ=DAILY", at(MONDAY)).is_err());
    assert!(ValidatedRRule::validate("FREQ=DAILY;FREQ=WEEKLY", at(MONDAY)).is_err());
    assert!(ValidatedRRule::validate("XFREQ=DAILY", at(MONDAY)).is_err());
    assert_eq!(ValidatedRRule::validate("COUNT=3", at(MONDAY)).unwrap_err().reason, "the rule has no FREQ part");
    assert!(ValidatedRRule::validate("FREQ=DAILY;BYHOUR=24", at(MONDAY)).is_err());
}

#[test]
fn validate_refuses_until_before_start() {
    let refused = ValidatedRRule::validate("FREQ=DAILY;UNTIL=20231231T000000Z", at(MONDAY));
    let reason = refused.unwrap_err().reason;
    assert!(!reason.is_empty());
    assert!(ValidatedRRule::validate("FREQ=DAILY;UNTIL=20240102T000000Z", at(MONDAY)).is_ok());
}

#[test]
fn validate_refuses_an_until_without_zone() {
    assert!(ValidatedRRule::validate("FREQ=DAILY;UNTIL=20240601T000000", at(MONDAY)).is_err());
}

#[test]
fn validate_refuses_a_start_out_of_range() {
    assert!(ValidatedRRule::validate("FREQ=DAILY", at(i64::MAX)).is_err());
    assert!(ValidatedRRule::validate("FREQ=DAILY", Timestamp { secs: 0, nanos: 2_000_000_000 }).is_err());
}

#[test]
fn expansion_returns_the_mondays_of_three_weeks() {
    let found = every_monday().all_within_period(at(MONDAY), at(MONDAY + 3 * WEEK));
    assert_eq!(
        found,
        vec![at(MONDAY + 10 * HOUR), at(MONDAY + WEEK + 10 * HOUR), at(MONDAY + 2 * WEEK + 10 * HOUR)]
    );
}

#[test]
fn expansion_window_is_half_open() {
    let rule = every_monday();
    let first = MONDAY + 10 * HOUR;
    // the window ends exactly on the second occurrence: it is left out
    assert_eq!(rule.all_within_period(at(first), at(first + WEEK)), vec![at(first)]);
    // one nanosecond later it is in
    let just_after = Timestamp { secs: first + WEEK, nanos: 1 };
    assert_eq!(rule.all_within_period(at(first), just_after), vec![at(first), at(first + WEEK)]);
    // the window starts exactly on an occurrence: it is in
    assert_eq!(rule.all_within_period(at(first + WEEK), at(first + WEEK + 1)), vec![at(first + WEEK)]);
    // an empty window
    assert_eq!(rule.all_within_period(at(first), at(first)), Vec::<Timestamp>::new());
    assert_eq!(rule.all_within_period(at(first + WEEK), at(first)), Vec::<Timestamp>::new());
}

#[test]
fn expansion_never_goes_before_the_start() {
    let rule = every_monday();
    let found = rule.all_within_period(at(MONDAY - 10 * WEEK), at(MONDAY + WEEK));
    assert_eq!(found, vec![at(MONDAY + 10 * HOUR)]);
    for t in rule.all_within_period(at(0), at(MONDAY + 52 * WEEK)) {
        assert!(t >= rule.start());
    }
}

#[test]
fn expansion_honours_the_count() {
    let found = every_monday().all_within_period(at(MONDAY), at(MONDAY + 52 * WEEK));
    assert_eq!(found.len(), 10);
    assert_eq!(found[9], at(MONDAY + 9 * WEEK + 10 * HOUR));
}

#[test]
fn expansion_is_capped_at_one_hundred() {
    let rule = ValidatedRRule::validate("FREQ=MINUTELY", at(MONDAY)).unwrap();
    let found = rule.all_within_period(at(MONDAY), at(MONDAY + 30 * DAY));
    assert_eq!(found.len(), 100);
    assert_eq!(found.len(), INSTANCE_LIMIT as usize);
    assert_eq!(found[0], at(MONDAY));
    assert_eq!(found[99], at(MONDAY + 99 * 60));
    let daily = ValidatedRRule::validate("FREQ=DAILY", at(MONDAY)).unwrap();
    assert_eq!(daily.all_within_period(at(MONDAY), at(MONDAY + 1000 * DAY)).len(), 100);
}

#[test]
fn expansion_repeats_itself() {
    let rule = every_monday();
    let once = rule.all_within_period(at(MONDAY), at(MONDAY + 5 * WEEK));
    let twice = rule.all_within_period(at(MONDAY), at(MONDAY + 5 * WEEK));
    assert_eq!(once, twice);
    let copy = rule.clone();
    assert_eq!(copy.all_within_period(at(MONDAY), at(MONDAY + 5 * WEEK)), once);
}

#[test]
fn expansion_keeps_instants_in_ascending_order_and_apart() {
    let found = every_monday().all_within_period(at(MONDAY), at(MONDAY + 3 * WEEK));
    for pair in found.windows(2) {
        assert_eq!(pair[1].secs - pair[0].secs, 7 * DAY);
        assert_eq!(pair[1].nanos, 0);
    }
}

#[test]
fn set_start_moves_the_anchor_and_keeps_the_rule() {
    let mut rule = every_monday();
    let text = rule.rule_text().to_string();
    rule.set_start(at(MONDAY + 2 * WEEK + 10 * HOUR));
    assert_eq!(rule.rule_text(), text);
    assert_eq!(rule.start(), at(MONDAY + 2 * WEEK + 10 * HOUR));
    let found = rule.all_within_period(at(MONDAY), at(MONDAY + 4 * WEEK));
    assert_eq!(found, vec![at(MONDAY + 2 * WEEK + 10 * HOUR), at(MONDAY + 3 * WEEK + 10 * HOUR)]);
}

#[test]
fn set_end_bounds_the_rule() {
    let mut rule = ValidatedRRule::validate("FREQ=WEEKLY;BYDAY=MO", at(MONDAY + 10 * HOUR)).unwrap();
    assert!(rule.set_end(Some(at(MONDAY + WEEK + 10 * HOUR))).is_ok());
    assert_eq!(rule.rule_text(), "FREQ=WEEKLY;BYDAY=MO;UNTIL=20240108T100000Z");
    // a new end takes the place of the one that the rule has
    assert!(rule.set_end(Some(at(MONDAY + 2 * WEEK))).is_ok());
    assert_eq!(rule.rule_text(), "FREQ=WEEKLY;BYDAY=MO;UNTIL=20240115T000000Z");
    let found = rule.all_within_period(at(MONDAY), at(MONDAY + 10 * WEEK));
    assert_eq!(found, vec![at(MONDAY + 10 * HOUR), at(MONDAY + WEEK + 10 * HOUR)]);
}

#[test]
fn set_end_refuses_an_end_before_the_start() {
    let mut rule = every_monday();
    let text = rule.rule_text().to_string();
    let refused = rule.set_end(Some(at(MONDAY - DAY)));
    assert!(refused.is_err());
    assert_eq!(rule.rule_text(), text);
    assert_eq!(rule.start(), at(MONDAY + 10 * HOUR));
}

#[test]
fn set_end_without_an_end_keeps_the_rule() {
    let mut rule = ValidatedRRule::validate("FREQ=DAILY;UNTIL=20240105T000000Z", at(MONDAY)).unwrap();
    let text = rule.rule_text().to_string();
    assert!(rule.set_end(None).is_ok());
    assert_eq!(rule.rule_text(), text);
    assert_eq!(rule.all_within_period(at(MONDAY), at(MONDAY + 30 * DAY)).len(), 5);
}

#[test]
fn a_rule_whose_until_lies_before_a_new_start_has_no_occurrences() {
    let mut rule = ValidatedRRule::validate("FREQ=DAILY;UNTIL=20240105T000000Z", at(MONDAY)).unwrap();
    rule.set_start(at(MONDAY + 30 * DAY));
    assert_eq!(rule.all_within_period(at(MONDAY), at(MONDAY + 60 * DAY)), Vec::<Timestamp>::new());
    assert!(rule.set_end(None).is_err());
}

#[test]
fn stored_form_round_trips() {
    let rule = every_monday();
    let stored = rule.to_string().unwrap();
    assert!(stored.starts_with("DTSTART:20240101T100000Z\nRRULE:FREQ=WEEKLY"));
    let back = ValidatedRRule::from_str(&stored).unwrap();
    assert_eq!(back.rule_text(), rule.rule_text());
    assert_eq!(back.start(), rule.start());
    assert_eq!(back.to_string().unwrap(), stored);
    assert_eq!(
        back.all_within_period(at(MONDAY), at(MONDAY + 3 * WEEK)),
        rule.all_within_period(at(MONDAY), at(MONDAY + 3 * WEEK))
    );
}

#[test]
fn canonical_text_round_trips_through_validate() {
    let rule = every_monday();
    let again = ValidatedRRule::validate(rule.rule_text(), rule.start()).unwrap();
    assert_eq!(again.rule_text(), rule.rule_text());
    let property = rule.to_property();
    let third = ValidatedRRule::validate(&property, rule.start()).unwrap();
    assert_eq!(third.rule_text(), rule.rule_text());
}

#[test]
fn from_str_refuses_what_is_no_rule_set() {
    assert!(ValidatedRRule::from_str("FREQ=DAILY").is_err());
    assert!(ValidatedRRule::from_str("DTSTART:20240101T100000Z").is_err());
    assert!(ValidatedRRule::from_str("").is_err());
}

#[test]
fn to_string_needs_a_start_that_can_be_written() {
    let mut rule = every_monday();
    rule.set_start(at(i64::MAX));
    assert_eq!(rule.to_string(), None);
}

#[test]
fn clip_keeps_the_window_and_the_order() {
    let raw = vec![at(5), at(10), at(20), at(15), at(30), at(29)];
    assert_eq!(clip_to_window(&raw, at(0), at(10), at(30)), vec![at(10), at(20), at(15), at(29)]);
    // nothing before the anchor
    assert_eq!(clip_to_window(&raw, at(16), at(10), at(30)), vec![at(20), at(29)]);
    // nanoseconds count
    let fine = vec![Timestamp { secs: 10, nanos: 5 }, Timestamp { secs: 10, nanos: 7 }];
    assert_eq!(
        clip_to_window(&fine, at(0), Timestamp { secs: 10, nanos: 6 }, at(11)),
        vec![Timestamp { secs: 10, nanos: 7 }]
    );
    assert_eq!(clip_to_window(&Vec::new(), at(0), at(0), at(10)), Vec::<Timestamp>::new());
}

#[test]
fn clip_cuts_after_one_hundred() {
    let raw: Vec<Timestamp> = (0..250).map(at).collect();
    let kept = clip_to_window(&raw, at(0), at(50), at(1000));
    assert_eq!(kept.len(), 100);
    assert_eq!(kept[0], at(50));
    assert_eq!(kept[99], at(149));
    let few = clip_to_window(&raw, at(0), at(200), at(1000));
    assert_eq!(few.len(), 50);
}

#[test]
fn timestamps_agree_with_chrono() {
    let first = chrono::DateTime::parse_from_rfc3339("2024-01-01T10:00:00Z").unwrap();
    assert_eq!(first.timestamp(), MONDAY + 10 * HOUR);
    let found = every_monday().all_within_period(at(MONDAY), at(MONDAY + 3 * WEEK));
    let third = chrono::DateTime::from_timestamp(found[2].secs, found[2].nanos).unwrap();
    assert_eq!(third.to_rfc3339(), "2024-01-15T10:00:00+00:00");
}

#[test]
fn a_rule_keeps_the_parts_that_it_was_given() {
    // the last day of each month
    let rule = ValidatedRRule::validate("FREQ=MONTHLY;BYMONTHDAY=-1", at(MONDAY + 10 * HOUR)).unwrap();
    assert_eq!(rule.rule_text(), "FREQ=MONTHLY;BYMONTHDAY=-1");
    let found = rule.all_within_period(at(MONDAY), at(MONDAY + 91 * DAY));
    assert_eq!(
        found,
        vec![at(MONDAY + 30 * DAY + 10 * HOUR), at(MONDAY + 59 * DAY + 10 * HOUR), at(MONDAY + 90 * DAY + 10 * HOUR)]
    );
    let stored = rule.to_string().unwrap();
    assert_eq!(stored, "DTSTART:20240101T100000Z\nRRULE:FREQ=MONTHLY;BYMONTHDAY=-1");
    let back = ValidatedRRule::from_str(&stored).unwrap();
    assert_eq!(back.all_within_period(at(MONDAY), at(MONDAY + 91 * DAY)), found);
    let mut ended = back;
    assert!(ended.set_end(Some(at(MONDAY + 60 * DAY))).is_ok());
    assert_eq!(ended.rule_text(), "FREQ=MONTHLY;BYMONTHDAY=-1;UNTIL=20240301T000000Z");
    assert_eq!(ended.all_within_period(at(MONDAY), at(MONDAY + 91 * DAY)), found[..2].to_vec());
}

#[test]
fn a_new_start_moves_what_the_rule_leaves_open() {
    // no day and no time is given: they follow the start
    let mut rule = ValidatedRRule::validate("FREQ=WEEKLY", at(0)).unwrap();
    rule.set_start(at(MONDAY + DAY + 9 * HOUR));
    assert_eq!(rule.rule_text(), "FREQ=WEEKLY");
    assert_eq!(
        rule.all_within_period(at(MONDAY), at(MONDAY + 2 * WEEK)),
        vec![at(MONDAY + DAY + 9 * HOUR), at(MONDAY + DAY + WEEK + 9 * HOUR)]
    );
}

#[test]
fn a_stored_rule_set_is_read_line_by_line() {
    let rule = ValidatedRRule::from_str("DTSTART:20240101T100000Z\nRRULE:COUNT=2;FREQ=DAILY").unwrap();
    assert_eq!(rule.start(), at(MONDAY + 10 * HOUR));
    assert_eq!(rule.rule_text(), "FREQ=DAILY;COUNT=2");
    let crlf = ValidatedRRule::from_str("RRULE:FREQ=DAILY;COUNT=2\nDTSTART:20240101T100000Z").unwrap();
    assert_eq!(crlf.start(), at(MONDAY + 10 * HOUR));
    assert_eq!(crlf.rule_text(), "FREQ=DAILY;COUNT=2");
    assert!(ValidatedRRule::from_str("DTSTART:20240101T100000Z\nRRULE:COUNT=2").is_err());
    assert!(ValidatedRRule::from_str("RRULE:FREQ=DAILY").is_err());
}

#[test]
fn rule_text_is_taken_apart_at_the_semicolons() {
    assert_eq!(part_of("COUNT=3;FREQ=WEEKLY", ';', "FREQ="), Some(8));
    assert_eq!(part_of("FREQ=WEEKLY", ';', "FREQ="), Some(0));
    assert_eq!(part_of("count=3;freq=weekly", ';', "FREQ="), Some(8));
    assert_eq!(part_of("XFREQ=WEEKLY;COUNT=3", ';', "FREQ="), None);
    assert_eq!(part_of("COUNT=3;FRE", ';', "FREQ="), None);
    assert_eq!(part_of("", ';', "FREQ="), None);
    assert_eq!(part_of("A;", ';', ""), Some(0));
    assert_eq!(part_of("a\nRRULE:x", '\n', "RRULE:"), Some(2));
    assert_eq!(end_of_part("COUNT=3;FREQ=WEEKLY", ';', 0), 7);
    assert_eq!(end_of_part("COUNT=3;FREQ=WEEKLY", ';', 7), 7);
    assert_eq!(end_of_part("COUNT=3;FREQ=WEEKLY", ';', 8), 19);
    assert_eq!(end_of_part("", ';', 0), 0);
    assert_eq!(value_of("RRULE:FREQ=DAILY"), "FREQ=DAILY");
    assert_eq!(value_of("rrule:FREQ=DAILY"), "FREQ=DAILY");
    assert_eq!(value_of("FREQ=DAILY"), "FREQ=DAILY");
    assert_eq!(value_of("RRULE"), "RRULE");
    assert_eq!(value_of("RRULE:"), "");
    assert!(starts_with_frequency("FREQ=") && !starts_with_frequency("freq=x") && !starts_with_frequency("FREQ"));
}

#[test]
fn rule_text_is_put_in_order() {
    assert_eq!(in_canonical_order("FREQ=DAILY").as_deref(), Some("FREQ=DAILY"));
    assert_eq!(in_canonical_order("COUNT=3;FREQ=DAILY").as_deref(), Some("FREQ=DAILY;COUNT=3"));
    assert_eq!(in_canonical_order("COUNT=3;freq=daily;BYDAY=MO").as_deref(), Some("FREQ=daily;COUNT=3;BYDAY=MO"));
    assert_eq!(in_canonical_order("A=1;B=2;FREQ=DAILY;C=3;D=4").as_deref(), Some("FREQ=DAILY;A=1;B=2;C=3;D=4"));
    assert_eq!(in_canonical_order(";FREQ=DAILY;").as_deref(), Some("FREQ=DAILY;;"));
    assert_eq!(in_canonical_order("FREQ=").as_deref(), Some("FREQ="));
    assert_eq!(in_canonical_order("COUNT=3"), None);
    assert_eq!(in_canonical_order(""), None);
    for text in ["FREQ=DAILY", "FREQ=DAILY;COUNT=3;BYDAY=MO", "FREQ=;;"] {
        assert_eq!(in_canonical_order(text).as_deref(), Some(text));
    }
}

#[test]
fn an_until_bound_takes_the_place_of_the_old_one() {
    assert_eq!(set_until("FREQ=DAILY", "20240101T000000Z"), "FREQ=DAILY;UNTIL=20240101T000000Z");
    assert_eq!(set_until("FREQ=DAILY;UNTIL=1;COUNT=2", "2"), "FREQ=DAILY;COUNT=2;UNTIL=2");
    assert_eq!(set_until("FREQ=DAILY;until=1", "2"), "FREQ=DAILY;UNTIL=2");
    assert_eq!(set_until("UNTIL=1;FREQ=DAILY", "2"), "FREQ=DAILY;UNTIL=2");
    assert_eq!(set_until("UNTIL=1", "2"), ";UNTIL=2");
    assert_eq!(set_until("FREQ=DAILY;XUNTIL=1", "2"), "FREQ=DAILY;XUNTIL=1;UNTIL=2");
    assert_eq!(rule_line("DTSTART:x\nRRULE:FREQ=DAILY\nEXDATE:y"), Some("FREQ=DAILY"));
    assert_eq!(rule_line("RRULE:FREQ=DAILY"), Some("FREQ=DAILY"));
    assert_eq!(rule_line("DTSTART:x;RRULE:FREQ=DAILY"), None);
    assert_eq!(rule_line(""), None);
}

#[test]
fn text_beyond_printable_ascii_is_refused() {
    // a letter of two bytes before the last letter of a day
    let odd = ValidatedRRule::validate("FREQ=WEEKLY;BYDAY=\u{e9}O", at(MONDAY)).unwrap_err();
    assert_eq!(odd.reason, "the rule holds a character that is no printable ASCII");
    assert!(ValidatedRRule::validate("FREQ=WEEKLY;BYDAY=M\u{d6}", at(MONDAY)).is_err());
    assert!(ValidatedRRule::validate("FREQ=DAILY\nFREQ=WEEKLY", at(MONDAY)).is_err());
    assert!(ValidatedRRule::validate("FREQ=DAILY;\tCOUNT=2", at(MONDAY)).is_err());
    assert!(ValidatedRRule::from_str("DTSTART:20240101T100000Z\nRRULE:FREQ=WEEKLY;BYDAY=\u{e9}O").is_err());
    assert!(ValidatedRRule::from_str("DTSTART:2024010\u{661}T100000Z\nRRULE:FREQ=DAILY").is_err());
    assert!(is_plain("FREQ=WEEKLY;BYDAY=MO,TU ~"));
    assert!(is_plain(""));
    assert!(!is_plain("a\nb"));
    assert!(!is_plain("\u{7f}"));
    assert!(!is_plain("\u{e9}"));
}

#[test]
fn the_years_of_rules_are_those_from_minus_10000_to_10000() {
    let first = DateTime::from_timestamp(FIRST_SECOND, 0).unwrap();
    assert_eq!((first.year(), first.ordinal(), first.num_seconds_from_midnight()), (-10000, 1, 0));
    let before = DateTime::from_timestamp(FIRST_SECOND - 1, 0).unwrap();
    assert_eq!(before.year(), -10001);
    let last = DateTime::from_timestamp(LAST_SECOND, 0).unwrap();
    assert_eq!((last.year(), last.month(), last.day()), (10000, 12, 31));
    assert_eq!(last.num_seconds_from_midnight(), 86_399);
    let after = DateTime::from_timestamp(LAST_SECOND + 1, 0).unwrap();
    assert_eq!(after.year(), 10001);
    let written = DateTime::from_timestamp(FIRST_WRITTEN_SECOND, 0).unwrap();
    assert_eq!((written.year(), written.ordinal(), written.num_seconds_from_midnight()), (1, 1, 0));
    let last_written = DateTime::from_timestamp(LAST_WRITTEN_SECOND + 1, 0).unwrap();
    assert_eq!((last_written.year(), last_written.ordinal()), (10000, 1));
    assert!(within_rule_years(at(FIRST_SECOND)) && within_rule_years(at(LAST_SECOND)));
    assert!(!within_rule_years(at(FIRST_SECOND - 1)) && !within_rule_years(at(LAST_SECOND + 1)));
    assert_eq!(clamp_to_rule_years(at(MONDAY)), at(MONDAY));
    assert_eq!(clamp_to_rule_years(at(i64::MIN)), at(FIRST_SECOND));
    assert_eq!(
        clamp_to_rule_years(at(i64::MAX)),
        Timestamp { secs: LAST_SECOND, nanos: 999_999_999 }
    );
}

#[test]
fn a_rule_anchored_beyond_the_years_of_rules_has_no_occurrences() {
    // the last week of the last year that a date can have
    let far = NaiveDate::from_ymd_opt(262142, 12, 28)
        .unwrap()
        .and_hms_opt(0, 0, 0)
        .unwrap()
        .and_utc()
        .timestamp();
    let mut rule = ValidatedRRule::validate("FREQ=WEEKLY", at(MONDAY)).unwrap();
    rule.set_start(at(far));
    assert_eq!(rule.all_within_period(at(far), at(i64::MAX)), vec![]);
    rule.set_start(at(LAST_SECOND + 1));
    assert_eq!(rule.all_within_period(at(MONDAY), at(i64::MAX)), vec![]);
    // the last week of the last year of rules
    rule.set_start(at(LAST_SECOND - 3 * DAY));
    assert_eq!(
        rule.all_within_period(at(LAST_SECOND - WEEK), at(i64::MAX)),
        vec![at(LAST_SECOND - 3 * DAY)]
    );
}

#[test]
fn a_window_beyond_the_years_of_rules_is_cut_to_them() {
    let rule = ValidatedRRule::validate("FREQ=WEEKLY;COUNT=3", at(MONDAY + 10 * HOUR)).unwrap();
    assert_eq!(
        rule.all_within_period(at(i64::MIN), at(i64::MAX)),
        vec![at(MONDAY + 10 * HOUR), at(MONDAY + WEEK + 10 * HOUR), at(MONDAY + 2 * WEEK + 10 * HOUR)]
    );
    assert_eq!(
        rule.all_within_period(at(MONDAY + DAY), at(i64::MAX)),
        vec![at(MONDAY + WEEK + 10 * HOUR), at(MONDAY + 2 * WEEK + 10 * HOUR)]
    );
}

#[test]
fn the_stored_form_is_read_back_over_all_written_years() {
    for secs in [FIRST_WRITTEN_SECOND, -1, 0, MONDAY + 10 * HOUR + 61, LAST_WRITTEN_SECOND] {
        let rule = ValidatedRRule::validate("COUNT=4;FREQ=MONTHLY;BYMONTHDAY=-1", at(secs)).unwrap();
        let stored = rule.to_string().unwrap();
        assert_eq!(stored.len(), 8 + 16 + 7 + rule.rule_text().len());
        let back = ValidatedRRule::from_str(&stored).unwrap();
        assert_eq!(back.start(), at(secs));
        assert_eq!(back.rule_text(), "FREQ=MONTHLY;COUNT=4;BYMONTHDAY=-1");
        assert_eq!(back.to_string().unwrap(), stored);
    }
    assert_eq!(
        ValidatedRRule::validate("FREQ=DAILY", at(FIRST_WRITTEN_SECOND)).unwrap().to_string().unwrap(),
        "DTSTART:00010101T000000Z\nRRULE:FREQ=DAILY"
    );
    assert_eq!(
        ValidatedRRule::validate("FREQ=DAILY", at(LAST_WRITTEN_SECOND)).unwrap().to_string().unwrap(),
        "DTSTART:99991231T235959Z\nRRULE:FREQ=DAILY"
    );
}

#[test]
fn the_start_of_a_stored_rule_set_is_a_utc_date_and_time() {
    assert_eq!(start_line("DTSTART:20240101T100000Z\nRRULE:FREQ=DAILY"), Some("20240101T100000Z"));
    assert_eq!(start_line("RRULE:FREQ=DAILY\ndtstart:x"), Some("x"));
    assert_eq!(start_line("RRULE:FREQ=DAILY"), None);
    let zoneless = ValidatedRRule::from_str("DTSTART:20240101T100000\nRRULE:FREQ=DAILY").unwrap_err();
    assert_eq!(zoneless.reason, "the start is no UTC date and time");
    let zoned = "DTSTART;TZID=Europe/Berlin:20240101T100000\nRRULE:FREQ=DAILY";
    assert_eq!(
        ValidatedRRule::from_str(zoned).unwrap_err().reason,
        "the rule set has no DTSTART line"
    );
    assert_eq!(
        ValidatedRRule::from_str("DTSTART:20240101T100000Z").unwrap_err().reason,
        "the rule set has no RRULE line"
    );
    assert!(ValidatedRRule::from_str("DTSTART:20240230T100000Z\nRRULE:FREQ=DAILY").is_err());
    assert!(ValidatedRRule::from_str("DTSTART:20240101T100000Z\nRRULE:FREQ=DAILY;UNTIL=20231231T000000Z").is_err());
}

#[test]
fn weekly_occurrences_on_one_day_are_a_week_apart() {
    let rule = ValidatedRRule::validate("FREQ=WEEKLY;BYDAY=WE", at(MONDAY + 9 * HOUR)).unwrap();
    let found = rule.all_within_period(at(MONDAY), at(MONDAY + 52 * WEEK));
    assert_eq!(found.len(), 52);
    assert_eq!(found[0], at(MONDAY + 2 * DAY + 9 * HOUR));
    for pair in found.windows(2) {
        assert_eq!(pair[1].secs - pair[0].secs, WEEK);
        assert_eq!(pair[1].nanos, pair[0].nanos);
    }
}
