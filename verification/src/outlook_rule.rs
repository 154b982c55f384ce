//! The recurrence rule that an Outlook recurrence stands for: which parts the
//! rule has, how it is written, and its validation in the zone of the event.

use vstd::prelude::*;
use vstd::string::*;
use chrono::DateTime;
use rrule::{RRule, Tz, Unvalidated};
use crate::instant::Timestamp;
use crate::rrule::{utc_basic, utc_basic_text};
use crate::rule_text::{
    colon_free, lemma_joined_texts, lemma_no_until_part, parts_begin_well, plain_char, plain_text,
    same_letter, unbounded,
};
use crate::outlook::{
    convert_day, rule_day, windows_zone_iana, windows_zone_name, zone_reading_to_utc,
    zone_utc_instant, DayOfWeek, RecurrencePattern, RecurrencePatternType, RecurrenceRange,
    RecurrenceRangeType, Weekday,
};

verus! {

/// How often a rule repeats.
#[derive(Debug, Clone, Copy, PartialEq, Eq, Structural)]
pub enum Frequency {
    Daily,
    Weekly,
    Monthly,
    Yearly,
}

/// Why an Outlook recurrence has no rule.
#[derive(Debug, Clone, Copy, PartialEq, Eq, Structural)]
pub enum OutlookRuleError {
    /// The kind of the pattern is not known.
    UnknownPattern,
    /// The month of a yearly pattern is not between 1 and 12.
    MonthOutOfRange,
    /// The kind of the range is not known.
    UnknownRange,
    /// The time zone of the range is no Windows time zone.
    UnknownZone,
    /// The start of the event is no single instant of the zone of the event.
    StartNotInZone,
    /// The rule does not validate with the start of the event.
    InvalidRule,
}

/// The parts of a rule that an Outlook recurrence fixes.
#[derive(Debug)]
pub struct RuleParts {
    pub freq: Frequency,
    pub interval: Option<u16>,
    pub by_weekday: Option<Vec<Weekday>>,
    pub by_month_day: Option<i8>,
    pub by_month: Option<u8>,
    pub count: Option<u32>,
    /// The last day of the recurrence, as the reading of its midnight.
    pub until_date: Option<Timestamp>,
}

/// The number of seconds of a day.
pub const DAY_SECONDS: i64 = 86_400;

/// The rule `text` validates with the start `start`, taken as a date of the
/// zone that the time zone database knows as `zone`. Stands for the success
/// of `chrono_tz::Tz::from_str`, `RRule::<Unvalidated>::from_str` and
/// `RRule::validate`.
pub uninterp spec fn zoned_rule_validates(text: Seq<char>, start: Timestamp, zone: Seq<char>) -> bool;

/// As `zoned_rule_validates`, for a rule text without an UNTIL part, with
/// the rule's UNTIL bound set to the instant `until`, taken as a date of the
/// zone `until_zone`, before validation (`RRule::until`).
pub uninterp spec fn zoned_rule_validates_until(
    text: Seq<char>,
    start: Timestamp,
    zone: Seq<char>,
    until: Timestamp,
    until_zone: Seq<char>,
) -> bool;

/// Calls `chrono_tz::Tz::from_str` on `zone`, takes `start` as a date of that
/// zone (`DateTime::from_timestamp`, `with_timezone`), and calls
/// `RRule::<Unvalidated>::from_str` on `text` and `RRule::validate` with that
/// date. It succeeds exactly where `zoned_rule_validates` says so. The
/// crate's parser cuts the text at byte positions, so the text holds ASCII
/// only.
#[verifier::external_body]
fn rrule_validate_zoned(text: &str, start: Timestamp, zone: &str) -> (r: bool)
    requires
        plain_text(text@),
    ensures
        r == zoned_rule_validates(text@, start, zone@),
{
    let Ok(tz) = zone.parse::<chrono_tz::Tz>() else { return false };
    let Some(start) = DateTime::from_timestamp(start.secs, start.nanos) else { return false };
    let Ok(rule) = text.parse::<RRule<Unvalidated>>() else { return false };
    rule.validate(start.with_timezone(&Tz::Tz(tz))).is_ok()
}

/// As `rrule_validate_zoned`, with `RRule::until` called between parsing and
/// validation, on `until` taken as a date of the zone `until_zone`. It
/// succeeds exactly where `zoned_rule_validates_until` says so. The text
/// holds ASCII only. It has no colon, so that the parser takes all of it for
/// the rule, and no part of it begins with `UNTIL=`: the parser would read
/// a bound that is written without a zone in the zone of the machine.
#[verifier::external_body]
fn rrule_validate_zoned_until(
    text: &str,
    start: Timestamp,
    zone: &str,
    until: Timestamp,
    until_zone: &str,
) -> (r: bool)
    requires
        plain_text(text@),
        colon_free(text@),
        unbounded(text@),
    ensures
        r == zoned_rule_validates_until(text@, start, zone@, until, until_zone@),
{
    let (Ok(tz), Ok(until_tz)) = (zone.parse::<chrono_tz::Tz>(), until_zone.parse::<chrono_tz::Tz>()) else { return false };
    let Some(start) = DateTime::from_timestamp(start.secs, start.nanos) else { return false };
    let Some(until) = DateTime::from_timestamp(until.secs, until.nanos) else { return false };
    let Ok(rule) = text.parse::<RRule<Unvalidated>>() else { return false };
    rule.until(until.with_timezone(&Tz::Tz(until_tz))).validate(start.with_timezone(&Tz::Tz(tz))).is_ok()
}

impl OutlookRuleError {
    /// The words that describe the error.
    pub open spec fn text(self) -> Seq<char> {
        match self {
            OutlookRuleError::UnknownPattern => "Unknown recurrence pattern"@,
            OutlookRuleError::MonthOutOfRange => "Month is out of range"@,
            OutlookRuleError::UnknownRange => "Unknown recurrence range"@,
            OutlookRuleError::UnknownZone => "Unknown recurrence time zone"@,
            OutlookRuleError::StartNotInZone =>
                "Failed to convert the start datetime to the event timezone"@,
            OutlookRuleError::InvalidRule => "Failed to validate the RRule"@,
        }
    }

    /// The words that describe the error.
    pub fn message(&self) -> (r: &'static str)
        ensures
            r@ == self.text(),
    {
        match self {
            OutlookRuleError::UnknownPattern => "Unknown recurrence pattern",
            OutlookRuleError::MonthOutOfRange => "Month is out of range",
            OutlookRuleError::UnknownRange => "Unknown recurrence range",
            OutlookRuleError::UnknownZone => "Unknown recurrence time zone",
            OutlookRuleError::StartNotInZone =>
                "Failed to convert the start datetime to the event timezone",
            OutlookRuleError::InvalidRule => "Failed to validate the RRule",
        }
    }
}

/// The frequency of a pattern of the given kind, where the kind is known.
pub open spec fn frequency_of(kind: RecurrencePatternType) -> Option<Frequency> {
    match kind {
        RecurrencePatternType::Daily => Some(Frequency::Daily),
        RecurrencePatternType::Weekly => Some(Frequency::Weekly),
        RecurrencePatternType::AbsoluteMonthly => Some(Frequency::Monthly),
        RecurrencePatternType::RelativeMonthly => Some(Frequency::Monthly),
        RecurrencePatternType::AbsoluteYearly => Some(Frequency::Yearly),
        RecurrencePatternType::RelativeYearly => Some(Frequency::Yearly),
        RecurrencePatternType::Unknown => None,
    }
}

/// The interval of the rule: the pattern's interval where it is positive, cut
/// down to sixteen bits.
pub open spec fn interval_of(interval: Option<i32>) -> Option<u16> {
    match interval {
        Some(i) => if i > 0 {
            Some((i % 0x1_0000) as u16)
        } else {
            None
        },
        None => None,
    }
}

/// A pattern of this kind names days of the week.
pub open spec fn uses_days(kind: RecurrencePatternType) -> bool {
    kind == RecurrencePatternType::Weekly || kind == RecurrencePatternType::RelativeMonthly || kind
        == RecurrencePatternType::RelativeYearly
}

/// A pattern of this kind names a month.
pub open spec fn uses_month(kind: RecurrencePatternType) -> bool {
    kind == RecurrencePatternType::AbsoluteYearly || kind == RecurrencePatternType::RelativeYearly
}

/// The days of the week of the rule.
pub open spec fn weekdays_of(pattern: RecurrencePattern) -> Option<Seq<Weekday>> {
    match pattern.days_of_week {
        Some(days) => if uses_days(pattern.pattern_type) {
            Some(days@.map_values(|d: DayOfWeek| rule_day(d)))
        } else {
            None
        },
        None => None,
    }
}

/// The day of the month of the rule. A monthly pattern whose day does not fit
/// a signed byte gets the day 0; a yearly pattern gets the day wrapped round.
pub open spec fn month_day_of(pattern: RecurrencePattern) -> Option<i8> {
    match pattern.day_of_month {
        Some(day) => if pattern.pattern_type == RecurrencePatternType::AbsoluteMonthly {
            Some(
                if day <= 127 {
                    day as i8
                } else {
                    0i8
                },
            )
        } else if pattern.pattern_type == RecurrencePatternType::AbsoluteYearly {
            Some(
                if day <= 127 {
                    day as i8
                } else {
                    (day - 256) as i8
                },
            )
        } else {
            None
        },
        None => None,
    }
}

/// The month of the rule.
pub open spec fn month_of(pattern: RecurrencePattern) -> Option<u8> {
    if uses_month(pattern.pattern_type) {
        pattern.month
    } else {
        None
    }
}

/// The pattern names a month that is none.
pub open spec fn month_fault(pattern: RecurrencePattern) -> bool {
    uses_month(pattern.pattern_type) && (match pattern.month {
        Some(m) => m < 1 || m > 12,
        None => false,
    })
}

/// The number of occurrences of the rule: that of a numbered range, where it
/// is positive.
pub open spec fn count_of(range: RecurrenceRange) -> Option<u32> {
    if range.range_type == RecurrenceRangeType::Numbered {
        match range.number_of_occurrences {
            Some(c) => if c > 0 {
                Some(c as u32)
            } else {
                None
            },
            None => None,
        }
    } else {
        None
    }
}

/// The last day of the rule: the end date of a range that ends on a date.
pub open spec fn until_date_of(range: RecurrenceRange) -> Option<Timestamp> {
    if range.range_type == RecurrenceRangeType::EndDate {
        range.end_date
    } else {
        None
    }
}

/// Why the pattern and the range have no rule parts, if they have none.
pub open spec fn parts_fault(pattern: RecurrencePattern, range: RecurrenceRange) -> Option<
    OutlookRuleError,
> {
    if frequency_of(pattern.pattern_type) is None {
        Some(OutlookRuleError::UnknownPattern)
    } else if month_fault(pattern) {
        Some(OutlookRuleError::MonthOutOfRange)
    } else if range.range_type == RecurrenceRangeType::Unknown {
        Some(OutlookRuleError::UnknownRange)
    } else {
        None
    }
}

impl RuleParts {
    /// The days of the week of the parts, as a sequence.
    pub open spec fn weekdays(self) -> Option<Seq<Weekday>> {
        match self.by_weekday {
            Some(days) => Some(days@),
            None => None,
        }
    }

    /// These are the parts of the rule of the pattern and the range.
    pub open spec fn is_of(self, pattern: RecurrencePattern, range: RecurrenceRange) -> bool {
        &&& Some(self.freq) == frequency_of(pattern.pattern_type)
        &&& self.interval == interval_of(pattern.interval)
        &&& self.weekdays() == weekdays_of(pattern)
        &&& self.by_month_day == month_day_of(pattern)
        &&& self.by_month == month_of(pattern)
        &&& self.count == count_of(range)
        &&& self.until_date == until_date_of(range)
    }
}

/// One decimal digit.
pub open spec fn digit(d: int) -> char {
    if d == 0 {
        '0'
    } else if d == 1 {
        '1'
    } else if d == 2 {
        '2'
    } else if d == 3 {
        '3'
    } else if d == 4 {
        '4'
    } else if d == 5 {
        '5'
    } else if d == 6 {
        '6'
    } else if d == 7 {
        '7'
    } else if d == 8 {
        '8'
    } else {
        '9'
    }
}

/// The number `n` in decimal digits, without leading zeros.
pub open spec fn decimal(n: nat) -> Seq<char>
    decreases n,
{
    if n < 10 {
        seq![digit(n as int)]
    } else {
        decimal(n / 10).push(digit((n % 10) as int))
    }
}

/// The number `n` in decimal digits, with a minus sign where it is negative.
pub open spec fn signed_decimal(n: int) -> Seq<char> {
    if n < 0 {
        seq!['-'] + decimal((-n) as nat)
    } else {
        decimal(n as nat)
    }
}

/// The name of a frequency in rule text.
pub open spec fn frequency_name(f: Frequency) -> Seq<char> {
    match f {
        Frequency::Daily => "DAILY"@,
        Frequency::Weekly => "WEEKLY"@,
        Frequency::Monthly => "MONTHLY"@,
        Frequency::Yearly => "YEARLY"@,
    }
}

/// The two letters of a day of the week in rule text.
pub open spec fn day_code(day: Weekday) -> Seq<char> {
    match day {
        Weekday::Mon => "MO"@,
        Weekday::Tue => "TU"@,
        Weekday::Wed => "WE"@,
        Weekday::Thu => "TH"@,
        Weekday::Fri => "FR"@,
        Weekday::Sat => "SA"@,
        Weekday::Sun => "SU"@,
    }
}

/// The days of the week in rule text, with commas between them.
pub open spec fn day_list(days: Seq<Weekday>) -> Seq<char>
    decreases days.len(),
{
    if days.len() == 0 {
        Seq::empty()
    } else if days.len() == 1 {
        day_code(days[0])
    } else {
        day_list(days.drop_last()) + ","@ + day_code(days.last())
    }
}

/// The INTERVAL part of rule text, with the semicolon before it.
pub open spec fn interval_text(interval: Option<u16>) -> Seq<char> {
    match interval {
        Some(n) => ";INTERVAL="@ + decimal(n as nat),
        None => Seq::empty(),
    }
}

/// The BYDAY part of rule text; days that are none give no part.
pub open spec fn weekdays_text(days: Option<Seq<Weekday>>) -> Seq<char> {
    match days {
        Some(days) => if days.len() > 0 {
            ";BYDAY="@ + day_list(days)
        } else {
            Seq::empty()
        },
        None => Seq::empty(),
    }
}

/// The BYMONTHDAY part of rule text.
pub open spec fn month_day_text(day: Option<i8>) -> Seq<char> {
    match day {
        Some(d) => ";BYMONTHDAY="@ + signed_decimal(d as int),
        None => Seq::empty(),
    }
}

/// The BYMONTH part of rule text.
pub open spec fn month_text(month: Option<u8>) -> Seq<char> {
    match month {
        Some(m) => ";BYMONTH="@ + decimal(m as nat),
        None => Seq::empty(),
    }
}

/// The COUNT part of rule text.
pub open spec fn count_text(count: Option<u32>) -> Seq<char> {
    match count {
        Some(c) => ";COUNT="@ + decimal(c as nat),
        None => Seq::empty(),
    }
}

/// The text of a rule with these parts, its UNTIL bound left out: the
/// frequency first, then the interval, the days of the week, the day of the
/// month, the month and the count, as far as the rule has them.
pub open spec fn rule_text_of(
    freq: Frequency,
    interval: Option<u16>,
    days: Option<Seq<Weekday>>,
    month_day: Option<i8>,
    month: Option<u8>,
    count: Option<u32>,
) -> Seq<char> {
    "FREQ="@ + frequency_name(freq) + interval_text(interval) + weekdays_text(days)
        + month_day_text(month_day) + month_text(month) + count_text(count)
}

/// The reading at which a rule ends: the time of day of `start` on the day
/// of `end`. `None` where that reading has no `i64` count of seconds.
pub open spec fn until_reading(end: Timestamp, start: Timestamp) -> Option<Timestamp> {
    let day = end.secs - (end.secs as int) % (DAY_SECONDS as int);
    let secs = day + (start.secs as int) % (DAY_SECONDS as int);
    if i64::MIN <= day && secs <= i64::MAX {
        Some(Timestamp { secs: secs as i64, nanos: start.nanos })
    } else {
        None
    }
}

/// The UNTIL bound of the rule of a range, as an instant and the zone in which
/// it is written. The zone is that of the range, or that of the event where
/// the range has none. A range without end date has no bound, and neither has
/// one whose last reading is no single instant of the zone. A range zone that
/// is no Windows time zone is an error.
pub open spec fn until_of(range: RecurrenceRange, start: Timestamp, zone: Seq<char>) -> Result<
    Option<(Timestamp, Seq<char>)>,
    OutlookRuleError,
> {
    match until_date_of(range) {
        None => Ok(None),
        Some(end) => {
            let until_zone = match range.recurrence_time_zone {
                Some(name) => windows_zone_iana(name@),
                None => Some(zone),
            };
            match until_zone {
                None => Err(OutlookRuleError::UnknownZone),
                Some(until_zone) => match until_reading(end, start) {
                    None => Ok(None),
                    Some(reading) => match zone_utc_instant(reading, until_zone) {
                        Some(until) => Ok(Some((until, until_zone))),
                        None => Ok(None),
                    },
                },
            }
        },
    }
}

/// The rule of an Outlook recurrence for an event that starts at the reading
/// `start` in the zone `zone`: the text of the rule, where it validates with
/// that start, or the reason why there is none. A rule with an UNTIL bound
/// has it written at its end, as a UTC date and time.
pub open spec fn outlook_rule(
    pattern: RecurrencePattern,
    range: RecurrenceRange,
    start: Timestamp,
    zone: Seq<char>,
) -> Result<Seq<char>, OutlookRuleError> {
    match parts_fault(pattern, range) {
        Some(fault) => Err(fault),
        None => {
            let text = rule_text_of(
                frequency_of(pattern.pattern_type).unwrap(),
                interval_of(pattern.interval),
                weekdays_of(pattern),
                month_day_of(pattern),
                month_of(pattern),
                count_of(range),
            );
            match until_of(range, start, zone) {
                Err(fault) => Err(fault),
                Ok(until) => match zone_utc_instant(start, zone) {
                    None => Err(OutlookRuleError::StartNotInZone),
                    Some(begin) => match until {
                        Some((at, until_zone)) => match utc_basic_text(at) {
                            Some(date) => if zoned_rule_validates_until(
                                text,
                                begin,
                                zone,
                                at,
                                until_zone,
                            ) {
                                Ok(text + ";UNTIL="@ + date)
                            } else {
                                Err(OutlookRuleError::InvalidRule)
                            },
                            None => Err(OutlookRuleError::InvalidRule),
                        },
                        None => if zoned_rule_validates(text, begin, zone) {
                            Ok(text)
                        } else {
                            Err(OutlookRuleError::InvalidRule)
                        },
                    },
                },
            }
        },
    }
}

fn convert_days(days: &Vec<DayOfWeek>) -> (r: Vec<Weekday>)
    ensures
        r@ == days@.map_values(|d: DayOfWeek| rule_day(d)),
{
    let mut out: Vec<Weekday> = Vec::new();
    let mut i: usize = 0;
    while i < days.len()
        invariant
            i <= days@.len(),
            out@.len() == i,
            forall|j: int| 0 <= j < i ==> out@[j] == rule_day(#[trigger] days@[j]),
        decreases days@.len() - i,
    {
        out.push(convert_day(&days[i]));
        i += 1;
    }
    assert(out@ =~= days@.map_values(|d: DayOfWeek| rule_day(d)));
    out
}

/// The parts of the rule that a pattern and a range fix. A pattern or a range
/// of unknown kind has none, and neither has a yearly pattern whose month is
/// not between 1 and 12.
pub fn rule_parts(pattern: &RecurrencePattern, range: &RecurrenceRange) -> (r: Result<
    RuleParts,
    OutlookRuleError,
>)
    ensures
        match r {
            Ok(parts) => parts_fault(*pattern, *range) is None && parts.is_of(*pattern, *range),
            Err(fault) => parts_fault(*pattern, *range) == Some(fault),
        },
{
    let freq = match pattern.pattern_type {
        RecurrencePatternType::Daily => Frequency::Daily,
        RecurrencePatternType::Weekly => Frequency::Weekly,
        RecurrencePatternType::AbsoluteMonthly | RecurrencePatternType::RelativeMonthly =>
            Frequency::Monthly,
        RecurrencePatternType::AbsoluteYearly | RecurrencePatternType::RelativeYearly =>
            Frequency::Yearly,
        RecurrencePatternType::Unknown => {
            return Err(OutlookRuleError::UnknownPattern);
        },
    };
    let interval: Option<u16> = match pattern.interval {
        Some(i) => if i > 0 {
            Some((i % 0x1_0000) as u16)
        } else {
            None
        },
        None => None,
    };
    let with_days = match pattern.pattern_type {
        RecurrencePatternType::Weekly | RecurrencePatternType::RelativeMonthly
        | RecurrencePatternType::RelativeYearly => true,
        _ => false,
    };
    let with_month = match pattern.pattern_type {
        RecurrencePatternType::AbsoluteYearly | RecurrencePatternType::RelativeYearly => true,
        _ => false,
    };
    let by_weekday = match &pattern.days_of_week {
        Some(days) => if with_days {
            Some(convert_days(days))
        } else {
            None
        },
        None => None,
    };
    let by_month_day: Option<i8> = match pattern.day_of_month {
        Some(day) => match pattern.pattern_type {
            RecurrencePatternType::AbsoluteMonthly => Some(
                if day <= 127 {
                    day as i8
                } else {
                    0
                },
            ),
            RecurrencePatternType::AbsoluteYearly => Some(
                if day <= 127 {
                    day as i8
                } else {
                    (day as i16 - 256) as i8
                },
            ),
            _ => None,
        },
        None => None,
    };
    let by_month = if with_month {
        match pattern.month {
            Some(m) => {
                if m < 1 || m > 12 {
                    return Err(OutlookRuleError::MonthOutOfRange);
                }
                Some(m)
            },
            None => None,
        }
    } else {
        None
    };
    let (count, until_date): (Option<u32>, Option<Timestamp>) = match range.range_type {
        RecurrenceRangeType::NoEnd => (None, None),
        RecurrenceRangeType::EndDate => (None, range.end_date),
        RecurrenceRangeType::Numbered => (
            match range.number_of_occurrences {
                Some(c) => if c > 0 {
                    Some(c as u32)
                } else {
                    None
                },
                None => None,
            },
            None,
        ),
        RecurrenceRangeType::Unknown => {
            return Err(OutlookRuleError::UnknownRange);
        },
    };
    Ok(RuleParts { freq, interval, by_weekday, by_month_day, by_month, count, until_date })
}

fn digit_text(d: u32) -> (r: &'static str)
    requires
        d < 10,
    ensures
        r@ == seq![digit(d as int)],
{
    proof {
        reveal_strlit("0");
        reveal_strlit("1");
        reveal_strlit("2");
        reveal_strlit("3");
        reveal_strlit("4");
        reveal_strlit("5");
        reveal_strlit("6");
        reveal_strlit("7");
        reveal_strlit("8");
        reveal_strlit("9");
    }
    let r = if d == 0 {
        "0"
    } else if d == 1 {
        "1"
    } else if d == 2 {
        "2"
    } else if d == 3 {
        "3"
    } else if d == 4 {
        "4"
    } else if d == 5 {
        "5"
    } else if d == 6 {
        "6"
    } else if d == 7 {
        "7"
    } else if d == 8 {
        "8"
    } else {
        "9"
    };
    assert(r@ =~= seq![digit(d as int)]);
    r
}

fn push_decimal(out: &mut String, n: u32)
    ensures
        final(out)@ == old(out)@ + decimal(n as nat),
    decreases n,
{
    if n >= 10 {
        push_decimal(out, n / 10);
    }
    out.append(digit_text(n % 10));
    assert(out@ =~= old(out)@ + decimal(n as nat));
}

fn push_signed(out: &mut String, n: i8)
    ensures
        final(out)@ == old(out)@ + signed_decimal(n as int),
{
    if n < 0 {
        proof {
            reveal_strlit("-");
        }
        out.append("-");
        assert("-"@ =~= seq!['-']);
        let positive: i16 = -(n as i16);
        push_decimal(out, positive as u32);
        assert(out@ =~= old(out)@ + signed_decimal(n as int));
    } else {
        push_decimal(out, n as u32);
    }
}

fn day_text(day: Weekday) -> (r: &'static str)
    ensures
        r@ == day_code(day),
{
    match day {
        Weekday::Mon => "MO",
        Weekday::Tue => "TU",
        Weekday::Wed => "WE",
        Weekday::Thu => "TH",
        Weekday::Fri => "FR",
        Weekday::Sat => "SA",
        Weekday::Sun => "SU",
    }
}

fn push_days(out: &mut String, days: &Vec<Weekday>)
    ensures
        final(out)@ == old(out)@ + day_list(days@),
{
    let mut i: usize = 0;
    proof {
        assert(days@.take(0) =~= Seq::<Weekday>::empty());
        assert(out@ =~= old(out)@ + day_list(days@.take(0)));
    }
    while i < days.len()
        invariant
            i <= days@.len(),
            out@ == old(out)@ + day_list(days@.take(i as int)),
        decreases days@.len() - i,
    {
        let ghost before = out@;
        proof {
            assert(days@.take(i + 1).drop_last() =~= days@.take(i as int));
            assert(days@.take(i + 1).last() == days@[i as int]);
        }
        if i > 0 {
            out.append(",");
        }
        out.append(day_text(days[i]));
        proof {
            if i == 0 {
                assert(days@.take(1)[0] == days@[0]);
                assert(day_list(days@.take(0)) =~= Seq::<char>::empty());
                assert(out@ =~= old(out)@ + day_list(days@.take(1)));
            } else {
                assert(out@ =~= old(out)@ + day_list(days@.take(i + 1)));
            }
        }
        i += 1;
    }
    proof {
        assert(days@.take(days@.len() as int) =~= days@);
    }
}

/// The text is written in printable ASCII without semicolon and colon.
pub open spec fn plain_value(text: Seq<char>) -> bool {
    forall|i: int|
        0 <= i < text.len() ==> plain_char(#[trigger] text[i]) && text[i] != ';' && text[i] != ':'
}

proof fn lemma_value_is_tidy(text: Seq<char>)
    requires
        plain_value(text),
    ensures
        plain_text(text),
        colon_free(text),
        parts_begin_well(text),
{
}

proof fn lemma_decimal_is_plain(n: nat)
    ensures
        plain_value(decimal(n)),
    decreases n,
{
    if n >= 10 {
        lemma_decimal_is_plain(n / 10);
    }
}

proof fn lemma_day_list_is_plain(days: Seq<Weekday>)
    ensures
        plain_value(day_list(days)),
    decreases days.len(),
{
    reveal_strlit("MO");
    reveal_strlit("TU");
    reveal_strlit("WE");
    reveal_strlit("TH");
    reveal_strlit("FR");
    reveal_strlit("SA");
    reveal_strlit("SU");
    reveal_strlit(",");
    if days.len() > 1 {
        lemma_day_list_is_plain(days.drop_last());
    }
}

/// A part of rule text: a semicolon, a name that does not begin with the
/// letter U, and a value.
proof fn lemma_part_is_tidy(name: Seq<char>, value: Seq<char>)
    requires
        plain_value(value),
        name.len() >= 2,
        name[0] == ';',
        !same_letter(name[1], 'U'),
        forall|i: int| 0 <= i < name.len() ==> plain_char(#[trigger] name[i]) && name[i] != ':',
        forall|i: int| 1 <= i < name.len() ==> name[i] != ';',
    ensures
        plain_text(name + value),
        colon_free(name + value),
        parts_begin_well(name + value),
{
    let part = name + value;
    assert forall|i: int| 0 <= i < part.len() implies #[trigger] part[i] != ':' by {
        if i >= name.len() {
            assert(part[i] == value[i - name.len()]);
        } else {
            assert(part[i] == name[i]);
        }
    }
    assert forall|i: int| 0 <= i < part.len() implies plain_char(#[trigger] part[i]) by {
        if i >= name.len() {
            assert(part[i] == value[i - name.len()]);
        }
    }
    assert forall|i: int| 0 <= i < part.len() && #[trigger] part[i] == ';' implies i + 1
        < part.len() && !same_letter(part[i + 1], 'U') by {
        if i >= name.len() {
            assert(part[i] == value[i - name.len()]);
        }
        assert(part[1] == name[1]);
    }
}

/// Rule text that is written from parts is printable ASCII without colon,
/// and it has no UNTIL part.
pub proof fn lemma_rendered_text_is_plain(
    freq: Frequency,
    interval: Option<u16>,
    days: Option<Seq<Weekday>>,
    month_day: Option<i8>,
    month: Option<u8>,
    count: Option<u32>,
)
    ensures
        plain_text(rule_text_of(freq, interval, days, month_day, month, count)),
        colon_free(rule_text_of(freq, interval, days, month_day, month, count)),
        unbounded(rule_text_of(freq, interval, days, month_day, month, count)),
{
    reveal_strlit("FREQ=");
    reveal_strlit("DAILY");
    reveal_strlit("WEEKLY");
    reveal_strlit("MONTHLY");
    reveal_strlit("YEARLY");
    reveal_strlit(";INTERVAL=");
    reveal_strlit(";BYDAY=");
    reveal_strlit(";BYMONTHDAY=");
    reveal_strlit(";BYMONTH=");
    reveal_strlit(";COUNT=");
    let empty = Seq::<char>::empty();
    lemma_value_is_tidy(empty);
    let a = "FREQ="@;
    lemma_value_is_tidy(a);
    lemma_value_is_tidy(frequency_name(freq));
    lemma_joined_texts(a, frequency_name(freq));
    let b = a + frequency_name(freq);
    match interval {
        Some(n) => {
            lemma_decimal_is_plain(n as nat);
            lemma_part_is_tidy(";INTERVAL="@, decimal(n as nat));
        },
        None => {},
    }
    lemma_joined_texts(b, interval_text(interval));
    let c = b + interval_text(interval);
    match days {
        Some(d) => {
            lemma_day_list_is_plain(d);
            lemma_part_is_tidy(";BYDAY="@, day_list(d));
        },
        None => {},
    }
    lemma_joined_texts(c, weekdays_text(days));
    let d = c + weekdays_text(days);
    match month_day {
        Some(m) => {
            if m < 0 {
                lemma_decimal_is_plain((-m) as nat);
            } else {
                lemma_decimal_is_plain(m as nat);
            }
            assert(plain_value(signed_decimal(m as int)));
            lemma_part_is_tidy(";BYMONTHDAY="@, signed_decimal(m as int));
        },
        None => {},
    }
    lemma_joined_texts(d, month_day_text(month_day));
    let e = d + month_day_text(month_day);
    match month {
        Some(m) => {
            lemma_decimal_is_plain(m as nat);
            lemma_part_is_tidy(";BYMONTH="@, decimal(m as nat));
        },
        None => {},
    }
    lemma_joined_texts(e, month_text(month));
    let f = e + month_text(month);
    match count {
        Some(n) => {
            lemma_decimal_is_plain(n as nat);
            lemma_part_is_tidy(";COUNT="@, decimal(n as nat));
        },
        None => {},
    }
    lemma_joined_texts(f, count_text(count));
    let text = f + count_text(count);
    assert(text == rule_text_of(freq, interval, days, month_day, month, count));
    assert(text[0] == a[0]);
    lemma_no_until_part(text);
}

/// Writes the rule with these parts, its UNTIL bound left out. The text is
/// printable ASCII without colon and has no UNTIL part.
pub fn render_rule(parts: &RuleParts) -> (r: String)
    ensures
        r@ == rule_text_of(
            parts.freq,
            parts.interval,
            parts.weekdays(),
            parts.by_month_day,
            parts.by_month,
            parts.count,
        ),
        plain_text(r@),
        colon_free(r@),
        unbounded(r@),
{
    proof {
        lemma_rendered_text_is_plain(
            parts.freq,
            parts.interval,
            parts.weekdays(),
            parts.by_month_day,
            parts.by_month,
            parts.count,
        );
    }
    write_parts(parts)
}

fn write_parts(parts: &RuleParts) -> (r: String)
    ensures
        r@ == rule_text_of(
            parts.freq,
            parts.interval,
            parts.weekdays(),
            parts.by_month_day,
            parts.by_month,
            parts.count,
        ),
{
    let mut text = String::from_str("FREQ=");
    text.append(
        match parts.freq {
            Frequency::Daily => "DAILY",
            Frequency::Weekly => "WEEKLY",
            Frequency::Monthly => "MONTHLY",
            Frequency::Yearly => "YEARLY",
        },
    );
    let ghost head = text@;
    match parts.interval {
        Some(n) => {
            text.append(";INTERVAL=");
            push_decimal(&mut text, n as u32);
        },
        None => {},
    }
    assert(text@ =~= head + interval_text(parts.interval));
    let ghost head = text@;
    match &parts.by_weekday {
        Some(days) => {
            if days.len() > 0 {
                text.append(";BYDAY=");
                push_days(&mut text, days);
            }
        },
        None => {},
    }
    assert(text@ =~= head + weekdays_text(parts.weekdays()));
    let ghost head = text@;
    match parts.by_month_day {
        Some(d) => {
            text.append(";BYMONTHDAY=");
            push_signed(&mut text, d);
        },
        None => {},
    }
    assert(text@ =~= head + month_day_text(parts.by_month_day));
    let ghost head = text@;
    match parts.by_month {
        Some(m) => {
            text.append(";BYMONTH=");
            push_decimal(&mut text, m as u32);
        },
        None => {},
    }
    assert(text@ =~= head + month_text(parts.by_month));
    let ghost head = text@;
    match parts.count {
        Some(c) => {
            text.append(";COUNT=");
            push_decimal(&mut text, c);
        },
        None => {},
    }
    assert(text@ =~= head + count_text(parts.count));
    text
}

/// The time of day of `start` on the day of `end`, as a reading.
pub fn last_reading(end: Timestamp, start: Timestamp) -> (r: Option<Timestamp>)
    ensures
        r == until_reading(end, start),
{
    let into_day = match end.secs.checked_rem_euclid(DAY_SECONDS) {
        Some(s) => s,
        None => {
            return None;
        },
    };
    let time_of_day = match start.secs.checked_rem_euclid(DAY_SECONDS) {
        Some(s) => s,
        None => {
            return None;
        },
    };
    if end.secs < i64::MIN + into_day {
        return None;
    }
    let day = end.secs - into_day;
    if day > i64::MAX - time_of_day {
        return None;
    }
    Some(Timestamp { secs: day + time_of_day, nanos: start.nanos })
}

fn rule_until(range: &RecurrenceRange, until_date: Option<Timestamp>, start: Timestamp, zone: &str) -> (r:
    Result<Option<(Timestamp, String)>, OutlookRuleError>)
    requires
        until_date == until_date_of(*range),
    ensures
        match r {
            Ok(Some((at, name))) => until_of(*range, start, zone@) == Ok::<
                Option<(Timestamp, Seq<char>)>,
                OutlookRuleError,
            >(Some((at, name@))),
            Ok(None) => until_of(*range, start, zone@) == Ok::<
                Option<(Timestamp, Seq<char>)>,
                OutlookRuleError,
            >(None),
            Err(fault) => until_of(*range, start, zone@) == Err::<
                Option<(Timestamp, Seq<char>)>,
                OutlookRuleError,
            >(fault),
        },
{
    let end = match until_date {
        Some(end) => end,
        None => {
            return Ok(None);
        },
    };
    let until_zone = match &range.recurrence_time_zone {
        Some(name) => match windows_zone_name(name.as_str()) {
            Some(known) => known,
            None => {
                return Err(OutlookRuleError::UnknownZone);
            },
        },
        None => String::from_str(zone),
    };
    let reading = match last_reading(end, start) {
        Some(reading) => reading,
        None => {
            return Ok(None);
        },
    };
    match zone_reading_to_utc(reading, until_zone.as_str()) {
        Some(until) => Ok(Some((until, until_zone))),
        None => Ok(None),
    }
}

/// Converts the recurrence of an Outlook event to a recurrence rule. The
/// event starts at the reading `event_start` in the zone that the time zone
/// database knows as `event_timezone`. The rule repeats as the pattern says,
/// ends as the range says, and is validated with the start of the event in
/// its zone. The text of the rule is returned.
pub fn outlook_to_rrule(
    pattern: &RecurrencePattern,
    range: &RecurrenceRange,
    event_start: Timestamp,
    event_timezone: &str,
) -> (r: Result<String, OutlookRuleError>)
    ensures
        match r {
            Ok(rule) => outlook_rule(*pattern, *range, event_start, event_timezone@) == Ok::<
                Seq<char>,
                OutlookRuleError,
            >(rule@),
            Err(fault) => outlook_rule(*pattern, *range, event_start, event_timezone@) == Err::<
                Seq<char>,
                OutlookRuleError,
            >(fault),
        },
{
    let parts = match rule_parts(pattern, range) {
        Ok(parts) => parts,
        Err(fault) => {
            return Err(fault);
        },
    };
    let text = render_rule(&parts);
    let until = match rule_until(range, parts.until_date, event_start, event_timezone) {
        Ok(until) => until,
        Err(fault) => {
            return Err(fault);
        },
    };
    let begin = match zone_reading_to_utc(event_start, event_timezone) {
        Some(begin) => begin,
        None => {
            return Err(OutlookRuleError::StartNotInZone);
        },
    };
    match until {
        Some((at, until_zone)) => {
            let date = match utc_basic(at) {
                Some(date) => date,
                None => {
                    return Err(OutlookRuleError::InvalidRule);
                },
            };
            if rrule_validate_zoned_until(
                text.as_str(),
                begin,
                event_timezone,
                at,
                until_zone.as_str(),
            ) {
                Ok(text.concat(";UNTIL=").concat(date.as_str()))
            } else {
                Err(OutlookRuleError::InvalidRule)
            }
        },
        None => {
            if rrule_validate_zoned(text.as_str(), begin, event_timezone) {
                Ok(text)
            } else {
                Err(OutlookRuleError::InvalidRule)
            }
        },
    }
}

} // verus!
