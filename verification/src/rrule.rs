//! Recurrence rules: validation of rule text against a start anchor, changes of
//! the anchor and of the UNTIL bound, and the bounded expansion of a rule into
//! the occurrences of a query window.
//!
//! What a rule means, whether it is valid and which occurrences it has, is
//! decided by the `rrule` crate; what it answers is named by the
//! uninterpreted functions below. The library keeps a rule as the text in
//! which it was given, with the frequency part first, so that nothing of the
//! rule is lost between validation, storage and expansion. Everything that
//! the library adds to the crate's answers (the half-open window, the lower
//! bound at the anchor, the cap on the number of occurrences) is verified.

use vstd::prelude::*;
use vstd::string::*;
use chrono::{DateTime, NaiveDateTime};
use rrule::{RRule, RRuleError, RRuleSet, Tz, Unvalidated};
use crate::instant::Timestamp;
use crate::rule_text::{
    canonical_order, frequency_first, has_frequency, in_canonical_order, is_plain,
    lemma_canonical_is_stable, lemma_stored_lines, plain_text, rule_line, rule_value, set_until,
    start_line, starts_with_frequency, stored_rule, stored_start, value_of, with_until,
};

verus! {

/// The largest number of occurrences that one expansion returns.
pub const INSTANCE_LIMIT: u16 = 100;

/// The first second of the year -10000, in seconds since the epoch: the
/// first year that the iterator of the `rrule` crate accepts.
pub const FIRST_SECOND: i64 = -377_736_739_200;

/// The last second of the year 10000, in seconds since the epoch: the last
/// year that the iterator of the `rrule` crate accepts.
pub const LAST_SECOND: i64 = 253_433_923_199;

/// The first second of the year 1, in seconds since the epoch.
pub const FIRST_WRITTEN_SECOND: i64 = -62_135_596_800;

/// The last second of the year 9999, in seconds since the epoch.
pub const LAST_WRITTEN_SECOND: i64 = 253_402_300_799;

/// Why a piece of rule text was refused: it is malformed, or it states a
/// constraint that cannot be met with the given start (an UNTIL before it).
#[derive(Debug)]
pub struct ValidationError {
    /// The reason, in words meant for the author of the rule.
    pub reason: String,
}

/// What a rule is, mathematically: its text and its start anchor.
pub struct RuleModel {
    pub text: Seq<char>,
    pub start: Timestamp,
}

/// A recurrence rule that passed validation, together with the UTC instant at
/// which its recurrence starts. The rule is kept as its canonical text: the
/// parts of the rule as they were given, with the repeat-frequency part first.
#[derive(Debug)]
pub struct ValidatedRRule {
    rule: String,
    dt_start: Timestamp,
}

/// The rule `text` is well formed and can be met with `anchor` as its start.
/// Stands for the success of `RRule::<Unvalidated>::from_str` followed by
/// `RRule::validate`, of the `rrule` crate.
pub uninterp spec fn rule_validates(text: Seq<char>, anchor: Timestamp) -> bool;

/// The occurrences that the `rrule` crate generates for the rule `text`
/// starting at `anchor`, restricted by `RRuleSet::after(after)` and
/// `RRuleSet::before(before)` and collected by `RRuleSet::all(limit)`, in the
/// order in which it hands them out; `None` where `text` does not validate
/// with `anchor`.
pub uninterp spec fn rule_occurrences(
    text: Seq<char>,
    anchor: Timestamp,
    after: Timestamp,
    before: Timestamp,
    limit: u16,
) -> Option<Seq<Timestamp>>;

/// The instant `t` as a UTC date and time in the basic format of iCalendar,
/// `YYYYMMDDTHHMMSSZ`, or `None` where `t` is no date that `chrono` can hold.
/// Stands for `DateTime::from_timestamp` and `DateTime::format` with
/// `%Y%m%dT%H%M%SZ`.
pub uninterp spec fn utc_basic_text(t: Timestamp) -> Option<Seq<char>>;

/// The instant that the text `date` names when it is read as a UTC date and
/// time in the basic format of iCalendar, `YYYYMMDDTHHMMSSZ`; `None` where it
/// is no such date. Stands for `NaiveDateTime::parse_from_str` with
/// `%Y%m%dT%H%M%SZ`, `and_utc` and `timestamp`.
pub uninterp spec fn utc_basic_instant(date: Seq<char>) -> Option<Timestamp>;

/// The instant lies in the years that the iterator of the `rrule` crate
/// accepts, -10000 to 10000.
pub open spec fn in_rule_years(t: Timestamp) -> bool {
    FIRST_SECOND <= t.secs <= LAST_SECOND
}

/// The instant lies in the years that are written with four digits, 1 to
/// 9999.
pub open spec fn in_written_years(t: Timestamp) -> bool {
    FIRST_WRITTEN_SECOND <= t.secs <= LAST_WRITTEN_SECOND
}

/// The instant, or the nearest instant of the years that rules reach.
pub open spec fn into_rule_years(t: Timestamp) -> Timestamp {
    if t.secs < FIRST_SECOND {
        Timestamp { secs: FIRST_SECOND, nanos: 0 }
    } else if t.secs > LAST_SECOND {
        Timestamp { secs: LAST_SECOND, nanos: 999_999_999 }
    } else {
        t
    }
}

/// Calls `RRule::<Unvalidated>::from_str` on `text` and `RRule::validate` with
/// `anchor` as a UTC date. It succeeds exactly where `rule_validates` says
/// so; an error carries the crate's own message. An anchor that
/// `DateTime::from_timestamp` refuses is an error as well. The crate's parser
/// cuts the text at byte positions, so the text holds ASCII only.
#[verifier::external_body]
fn rrule_validate(text: &str, anchor: Timestamp) -> (r: Result<(), String>)
    requires
        plain_text(text@),
    ensures
        r is Ok <==> rule_validates(text@, anchor),
{
    let start = DateTime::from_timestamp(anchor.secs, anchor.nanos)
        .ok_or_else(|| format!("start {}s is out of range", anchor.secs))?
        .with_timezone(&Tz::UTC);
    let rule: RRule<Unvalidated> = text.parse().map_err(|e: RRuleError| e.to_string())?;
    rule.validate(start).map_err(|e| e.to_string())?;
    Ok(())
}

/// Validates `text` with `anchor` as above, puts the rule into an
/// `RRuleSet::new(anchor)`, restricts it with `RRuleSet::after` and
/// `RRuleSet::before` and collects `RRuleSet::all(limit)`. Each date comes back
/// as its `timestamp` and `timestamp_subsec_nanos`. The result is what
/// `rule_occurrences` names, and there is one only where the rule validates
/// with the anchor: nothing more is claimed of it here. The text
/// holds ASCII only, as for validation. The anchor and the two bounds lie in
/// the years -10000 to 10000: the crate's iterator turns day counts into
/// dates without a test, from the anchor's year on, and leaves off once its
/// own year is beyond these.
#[verifier::external_body]
fn rrule_all_between(
    text: &str,
    anchor: Timestamp,
    after: Timestamp,
    before: Timestamp,
    limit: u16,
) -> (r: Option<Vec<Timestamp>>)
    requires
        plain_text(text@),
        in_rule_years(anchor),
        in_rule_years(after),
        in_rule_years(before),
    ensures
        r is Some <==> rule_occurrences(text@, anchor, after, before, limit) is Some,
        r matches Some(v) ==> rule_occurrences(text@, anchor, after, before, limit) == Some(v@),
        r is Some ==> rule_validates(text@, anchor),
{
    let start = DateTime::from_timestamp(anchor.secs, anchor.nanos)?.with_timezone(&Tz::UTC);
    let after = DateTime::from_timestamp(after.secs, after.nanos)?.with_timezone(&Tz::UTC);
    let before = DateTime::from_timestamp(before.secs, before.nanos)?.with_timezone(&Tz::UTC);
    let rule = text.parse::<RRule<Unvalidated>>().ok()?.validate(start).ok()?;
    let found = RRuleSet::new(start).rrule(rule).after(after).before(before).all(limit);
    Some(found.dates.iter().map(|d| Timestamp { secs: d.timestamp(), nanos: d.timestamp_subsec_nanos() }).collect())
}

/// Calls `DateTime::from_timestamp` on `t` and `DateTime::format` with
/// `%Y%m%dT%H%M%SZ` on the date. The result is what `utc_basic_text` names.
/// What is written are digits, a sign for a year beyond four digits, and the
/// letters `T` and `Z`: printable ASCII. A whole second of the years 1 to
/// 9999 is written with four digits for the year and two for each other
/// field, so that reading the text in the same format gives the instant back.
#[verifier::external_body]
pub(crate) fn utc_basic(t: Timestamp) -> (r: Option<String>)
    ensures
        r is Some <==> utc_basic_text(t) is Some,
        r matches Some(s) ==> utc_basic_text(t) == Some(s@) && plain_text(s@),
        r matches Some(s) ==> (in_written_years(t) && t.nanos == 0 ==> utc_basic_instant(s@) == Some(
            t,
        )),
{
    Some(DateTime::from_timestamp(t.secs, t.nanos)?.format("%Y%m%dT%H%M%SZ").to_string())
}

/// Calls `NaiveDateTime::parse_from_str` on `date` with `%Y%m%dT%H%M%SZ` and
/// hands back the date as a UTC instant (`and_utc`, `timestamp`,
/// `timestamp_subsec_nanos`); `None` where the text is no such date. The
/// result is what `utc_basic_instant` names.
#[verifier::external_body]
fn utc_basic_read(date: &str) -> (r: Option<Timestamp>)
    requires
        plain_text(date@),
    ensures
        r == utc_basic_instant(date@),
{
    let read = NaiveDateTime::parse_from_str(date, "%Y%m%dT%H%M%SZ").ok()?.and_utc();
    Some(Timestamp { secs: read.timestamp(), nanos: read.timestamp_subsec_nanos() })
}

/// The rule text is accepted with `anchor` as its start: it begins with the
/// frequency part, it is written in printable ASCII, and it is well formed
/// and can be met with that start.
pub open spec fn accepted_rule(text: Seq<char>, anchor: Timestamp) -> bool {
    frequency_first(text) && plain_text(text) && rule_validates(text, anchor)
}

/// The rule text with `end` as its UNTIL bound, where an end is given: the
/// bound is written as a UTC date and time. `None` where the end is no date
/// that can be written.
pub open spec fn ended_text(text: Seq<char>, end: Option<Timestamp>) -> Option<Seq<char>> {
    match end {
        Some(until) => match utc_basic_text(until) {
            Some(date) => Some(with_until(text, date)),
            None => None,
        },
        None => Some(text),
    }
}

/// The rule text that a rule has once `end` is made its UNTIL bound and the
/// rule is validated again with `anchor`; `None` where that rule is refused.
pub open spec fn reconciled_text(text: Seq<char>, anchor: Timestamp, end: Option<Timestamp>) -> Option<
    Seq<char>,
> {
    match ended_text(text, end) {
        Some(ended) => if accepted_rule(ended, anchor) {
            Some(ended)
        } else {
            None
        },
        None => None,
    }
}

/// Whether the instant lies in the years that rules reach.
pub fn within_rule_years(t: Timestamp) -> (r: bool)
    ensures
        r == in_rule_years(t),
{
    FIRST_SECOND <= t.secs && t.secs <= LAST_SECOND
}

/// The instant, or the nearest instant of the years that rules reach.
pub fn clamp_to_rule_years(t: Timestamp) -> (r: Timestamp)
    ensures
        r == into_rule_years(t),
        in_rule_years(r),
{
    if t.secs < FIRST_SECOND {
        Timestamp { secs: FIRST_SECOND, nanos: 0 }
    } else if t.secs > LAST_SECOND {
        Timestamp { secs: LAST_SECOND, nanos: 999_999_999 }
    } else {
        t
    }
}

/// `t` lies in the half-open window from `start` to `end` and not before `anchor`.
pub open spec fn in_window(t: Timestamp, anchor: Timestamp, start: Timestamp, end: Timestamp) -> bool {
    !t.before(start) && t.before(end) && !t.before(anchor)
}

/// `in_window` as a predicate on instants.
pub open spec fn window_pred(anchor: Timestamp, start: Timestamp, end: Timestamp) -> spec_fn(
    Timestamp,
) -> bool {
    |t: Timestamp| in_window(t, anchor, start, end)
}

/// The first `limit` items of `s`, or all of `s` where it has no more than that.
pub open spec fn capped(s: Seq<Timestamp>, limit: nat) -> Seq<Timestamp> {
    if s.len() <= limit {
        s
    } else {
        s.take(limit as int)
    }
}

/// The occurrences of `raw` that lie in the window and not before the anchor,
/// in their order in `raw`, cut off after `INSTANCE_LIMIT` of them.
pub open spec fn window_of(
    raw: Seq<Timestamp>,
    anchor: Timestamp,
    start: Timestamp,
    end: Timestamp,
) -> Seq<Timestamp> {
    capped(raw.filter(window_pred(anchor, start, end)), INSTANCE_LIMIT as nat)
}

/// Keeps of `raw`, in order, the instants that lie in `[start, end)` and not
/// before `anchor`, and at most `INSTANCE_LIMIT` of them: the first ones.
pub fn clip_to_window(raw: &Vec<Timestamp>, anchor: Timestamp, start: Timestamp, end: Timestamp) -> (r:
    Vec<Timestamp>)
    ensures
        r@ == window_of(raw@, anchor, start, end),
        r.len() <= INSTANCE_LIMIT,
        forall|i: int| 0 <= i < r.len() ==> in_window(#[trigger] r[i], anchor, start, end),
{
    let ghost pred = window_pred(anchor, start, end);
    let mut out: Vec<Timestamp> = Vec::new();
    let mut i: usize = 0;
    proof {
        assert(raw@.take(0) =~= Seq::<Timestamp>::empty());
        lemma_filter_of_empty(pred);
    }
    while i < raw.len()
        invariant
            i <= raw.len(),
            pred == window_pred(anchor, start, end),
            out@ == capped(raw@.take(i as int).filter(pred), INSTANCE_LIMIT as nat),
        decreases raw.len() - i,
    {
        let t = raw[i];
        proof {
            assert(raw@.take(i + 1) =~= raw@.take(i as int).push(t));
            raw@.take(i as int).lemma_filter_push(t, pred);
        }
        let keep = !t.is_before(&start) && t.is_before(&end) && !t.is_before(&anchor);
        assert(keep == pred(t));
        if keep && out.len() < INSTANCE_LIMIT as usize {
            out.push(t);
        }
        proof {
            let before = raw@.take(i as int).filter(pred);
            if keep && before.len() >= INSTANCE_LIMIT {
                assert(before.push(t).take(INSTANCE_LIMIT as int) =~= before.take(
                    INSTANCE_LIMIT as int,
                ));
            }
        }
        i += 1;
    }
    proof {
        assert(raw@.take(raw.len() as int) =~= raw@);
        lemma_window_bounds(raw@, anchor, start, end);
    }
    out
}

/// Of no instants none is kept, whatever the test.
pub proof fn lemma_filter_of_empty(pred: spec_fn(Timestamp) -> bool)
    ensures
        Seq::<Timestamp>::empty().filter(pred) == Seq::<Timestamp>::empty(),
{
    reveal(Seq::filter);
}

/// Whatever the generated occurrences are, the window made of them holds at
/// most `INSTANCE_LIMIT` instants, each of them inside `[start, end)` and none
/// earlier than the anchor.
pub proof fn lemma_window_bounds(raw: Seq<Timestamp>, anchor: Timestamp, start: Timestamp, end: Timestamp)
    ensures
        window_of(raw, anchor, start, end).len() <= INSTANCE_LIMIT,
        forall|i: int|
            0 <= i < window_of(raw, anchor, start, end).len() ==> in_window(
                #[trigger] window_of(raw, anchor, start, end)[i],
                anchor,
                start,
                end,
            ),
{
    let pred = window_pred(anchor, start, end);
    let kept = raw.filter(pred);
    assert forall|i: int| 0 <= i < window_of(raw, anchor, start, end).len() implies in_window(
        #[trigger] window_of(raw, anchor, start, end)[i],
        anchor,
        start,
        end,
    ) by {
        raw.lemma_filter_pred(pred, i);
        assert(window_of(raw, anchor, start, end)[i] == kept[i]);
    }
}

impl View for ValidatedRRule {
    type V = RuleModel;

    closed spec fn view(&self) -> RuleModel {
        RuleModel { text: self.rule@, start: self.dt_start }
    }
}

impl Clone for ValidatedRRule {
    fn clone(&self) -> (r: Self)
        ensures
            r@ == self@,
    {
        proof {
            use_type_invariant(self);
        }
        ValidatedRRule { rule: self.rule.clone(), dt_start: self.dt_start }
    }
}

impl ValidatedRRule {
    #[verifier::type_invariant]
    spec fn canonical(self) -> bool {
        frequency_first(self.rule@) && plain_text(self.rule@)
    }

    /// The occurrences of this rule in the window `[start, end)`: what the
    /// `rrule` crate generates between the two bounds, cut down to the window.
    /// The crate is asked for the part of the window that lies in the years
    /// that rules reach. A rule whose anchor lies outside those years has no
    /// occurrences, and neither has one that does not validate with its
    /// anchor.
    pub open spec fn occurrences_within(self, start: Timestamp, end: Timestamp) -> Seq<Timestamp> {
        if in_rule_years(self@.start) {
            match rule_occurrences(
                self@.text,
                self@.start,
                into_rule_years(start),
                into_rule_years(end),
                INSTANCE_LIMIT,
            ) {
                Some(raw) => window_of(raw, self@.start, start, end),
                None => Seq::empty(),
            }
        } else {
            Seq::empty()
        }
    }

    /// Validates `text` with `start_anchor` as the start of the recurrence.
    /// The text may be a rule or an RRULE property. Text without a frequency
    /// part, text with a character outside printable ASCII, malformed text
    /// and text that cannot be met with that start are refused; nothing is
    /// repaired. The rule keeps the parts of the text as they are, with the
    /// frequency part first.
    pub fn validate(text: &str, start_anchor: Timestamp) -> (r: Result<ValidatedRRule, ValidationError>)
        ensures
            r is Ok <==> has_frequency(rule_value(text@)) && accepted_rule(
                canonical_order(rule_value(text@)),
                start_anchor,
            ),
            r matches Ok(rule) ==> rule@.text == canonical_order(rule_value(text@)) && rule@.start
                == start_anchor && frequency_first(rule@.text) && plain_text(rule@.text),
    {
        let ordered = match in_canonical_order(value_of(text)) {
            Some(ordered) => ordered,
            None => {
                return Err(
                    ValidationError { reason: String::from_str("the rule has no FREQ part") },
                );
            },
        };
        if !is_plain(ordered.as_str()) {
            return Err(
                ValidationError {
                    reason: String::from_str("the rule holds a character that is no printable ASCII"),
                },
            );
        }
        match rrule_validate(ordered.as_str(), start_anchor) {
            Ok(()) => Ok(ValidatedRRule { rule: ordered, dt_start: start_anchor }),
            Err(reason) => Err(ValidationError { reason }),
        }
    }

    /// What the stored rule set `text` holds: the rule of its first RRULE
    /// line in canonical order, with the start that its first DTSTART line
    /// names as a UTC date and time. Nothing where a line is missing, where
    /// the start is no such date, where the rule has no frequency part, and
    /// where the rule is not accepted with the start.
    pub open spec fn stored_model(text: Seq<char>) -> Option<RuleModel> {
        match (stored_start(text), stored_rule(text)) {
            (Some(date), Some(line)) => match utc_basic_instant(date) {
                Some(anchor) => if plain_text(date) && has_frequency(rule_value(line))
                    && accepted_rule(canonical_order(rule_value(line)), anchor) {
                    Some(RuleModel { text: canonical_order(rule_value(line)), start: anchor })
                } else {
                    None
                },
                None => None,
            },
            _ => None,
        }
    }

    /// Reads a rule set in its stored form, a DTSTART line with the start as
    /// a UTC date and time and an RRULE line, and validates the rule with
    /// that start. What `to_string` has written is read back.
    pub fn from_str(text: &str) -> (r: Result<ValidatedRRule, ValidationError>)
        ensures
            r is Ok <==> Self::stored_model(text@) is Some,
            r matches Ok(rule) ==> Self::stored_model(text@) == Some(rule@),
    {
        let date = match start_line(text) {
            Some(date) => date,
            None => {
                return Err(
                    ValidationError { reason: String::from_str("the rule set has no DTSTART line") },
                );
            },
        };
        let line = match rule_line(text) {
            Some(line) => line,
            None => {
                return Err(
                    ValidationError { reason: String::from_str("the rule set has no RRULE line") },
                );
            },
        };
        if !is_plain(date) {
            return Err(
                ValidationError { reason: String::from_str("the start is no UTC date and time") },
            );
        }
        match utc_basic_read(date) {
            Some(start) => Self::validate(line, start),
            None => Err(
                ValidationError { reason: String::from_str("the start is no UTC date and time") },
            ),
        }
    }

    /// The canonical text of the rule, without its start.
    pub fn rule_text(&self) -> (r: &str)
        ensures
            r@ == self@.text,
            frequency_first(r@),
    {
        proof {
            use_type_invariant(self);
        }
        self.rule.as_str()
    }

    /// The start anchor of the recurrence.
    pub fn start(&self) -> (r: Timestamp)
        ensures
            r == self@.start,
    {
        self.dt_start
    }

    /// The rule as an RRULE property: `RRULE:` followed by the canonical text.
    pub fn to_property(&self) -> (r: String)
        ensures
            r@ == "RRULE:"@ + self@.text,
    {
        String::from_str("RRULE:").concat(self.rule.as_str())
    }

    /// The rule set in its stored form: a DTSTART line with the start as a
    /// UTC date and time, a line break, and the rule as an RRULE property.
    /// `None` where the start is no date that can be written.
    pub fn to_string(&self) -> (r: Option<String>)
        ensures
            r is Some <==> utc_basic_text(self@.start) is Some,
            r matches Some(s) ==> s@ == "DTSTART:"@ + utc_basic_text(self@.start).unwrap()
                + "\nRRULE:"@ + self@.text,
            r matches Some(s) ==> (self.reads_back() ==> Self::stored_model(s@) == Some(self@)),
    {
        proof {
            use_type_invariant(self);
        }
        match utc_basic(self.dt_start) {
            Some(date) => {
                proof {
                    lemma_stored_lines(date@, self.rule@);
                    lemma_canonical_is_stable(self.rule@);
                }
                Some(
                    String::from_str("DTSTART:").concat(date.as_str()).concat("\nRRULE:").concat(
                        self.rule.as_str(),
                    ),
                )
            },
            None => None,
        }
    }

    /// The stored form of this rule is read back as this rule: the start is
    /// a whole second of the years 1 to 9999, which the stored form can
    /// hold, and the rule validates with it.
    pub open spec fn reads_back(self) -> bool {
        in_written_years(self@.start) && self@.start.nanos == 0 && rule_validates(
            self@.text,
            self@.start,
        )
    }

    /// Makes `start` the start anchor. The rule's text, and so its frequency,
    /// interval and by-day parts, stay as they are.
    pub fn set_start(&mut self, start: Timestamp)
        ensures
            final(self)@.text == old(self)@.text,
            final(self)@.start == start,
    {
        proof {
            use_type_invariant(&*self);
        }
        self.dt_start = start;
    }

    /// Makes `end` the rule's UNTIL bound, where one is given, and validates
    /// the rule again with its start anchor. A rule that does not validate is
    /// refused and `self` stays as it was.
    pub fn set_end(&mut self, end: Option<Timestamp>) -> (r: Result<(), ValidationError>)
        ensures
            r is Ok <==> reconciled_text(old(self)@.text, old(self)@.start, end) is Some,
            r is Ok ==> Some(final(self)@.text) == reconciled_text(
                old(self)@.text,
                old(self)@.start,
                end,
            ) && final(self)@.start == old(self)@.start,
            r is Err ==> final(self)@ == old(self)@,
    {
        proof {
            use_type_invariant(&*self);
        }
        let ended = match end {
            Some(until) => match utc_basic(until) {
                Some(date) => set_until(self.rule.as_str(), date.as_str()),
                None => {
                    return Err(
                        ValidationError { reason: String::from_str("the end is out of range") },
                    );
                },
            },
            None => self.rule.clone(),
        };
        if !starts_with_frequency(ended.as_str()) {
            return Err(
                ValidationError { reason: String::from_str("the rule does not begin with FREQ") },
            );
        }
        if !is_plain(ended.as_str()) {
            return Err(
                ValidationError {
                    reason: String::from_str("the rule holds a character that is no printable ASCII"),
                },
            );
        }
        match rrule_validate(ended.as_str(), self.dt_start) {
            Ok(()) => {
                self.rule = ended;
                Ok(())
            },
            Err(reason) => Err(ValidationError { reason }),
        }
    }

    /// All occurrences of the rule in the window `[start, end)`, in the order
    /// in which the rule generates them, and at most `INSTANCE_LIMIT` of them:
    /// a longer run is cut off, not refused. No occurrence lies before the
    /// start anchor.
    pub fn all_within_period(&self, start: Timestamp, end: Timestamp) -> (r: Vec<Timestamp>)
        ensures
            r@ == self.occurrences_within(start, end),
            r.len() <= INSTANCE_LIMIT,
            forall|i: int| 0 <= i < r.len() ==> in_window(#[trigger] r[i], self@.start, start, end),
    {
        proof {
            use_type_invariant(self);
        }
        if !within_rule_years(self.dt_start) {
            return Vec::new();
        }
        let after = clamp_to_rule_years(start);
        let before = clamp_to_rule_years(end);
        match rrule_all_between(self.rule.as_str(), self.dt_start, after, before, INSTANCE_LIMIT) {
            Some(raw) => clip_to_window(&raw, self.dt_start, start, end),
            None => Vec::new(),
        }
    }
}

/// Expansion is a function of the rule and the window: two rules with the same
/// text and start have the same occurrences in the same window, so a repeated
/// expansion returns the same instants in the same order.
pub proof fn lemma_expansion_repeats(a: ValidatedRRule, b: ValidatedRRule, start: Timestamp, end: Timestamp)
    requires
        a@ == b@,
    ensures
        a.occurrences_within(start, end) == b.occurrences_within(start, end),
{
}

/// Every expansion holds at most `INSTANCE_LIMIT` instants, all of them inside
/// the window `[start, end)` and none earlier than the rule's start anchor.
pub proof fn lemma_expansion_bounds(rule: ValidatedRRule, start: Timestamp, end: Timestamp)
    ensures
        rule.occurrences_within(start, end).len() <= INSTANCE_LIMIT,
        forall|i: int|
            0 <= i < rule.occurrences_within(start, end).len() ==> {
                let t = #[trigger] rule.occurrences_within(start, end)[i];
                !t.before(start) && t.before(end) && !t.before(rule@.start)
            },
{
    match rule_occurrences(
        rule@.text,
        rule@.start,
        into_rule_years(start),
        into_rule_years(end),
        INSTANCE_LIMIT,
    ) {
        Some(raw) => {
            lemma_window_bounds(raw, rule@.start, start, end);
        },
        None => {},
    }
}

/// The text of a rule goes through validation unchanged: where a rule's own
/// text is validated again, with whatever start, the rule that comes of it
/// has the same text. So the canonical text can be stored and read back
/// without loss.
pub proof fn lemma_rule_text_round_trips(text: Seq<char>)
    requires
        frequency_first(text),
    ensures
        has_frequency(rule_value(text)),
        canonical_order(rule_value(text)) == text,
{
    lemma_canonical_is_stable(text);
}

} // verus!
