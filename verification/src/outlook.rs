//! What the Outlook calendar hands over: events with times in named Windows
//! time zones, recurrence patterns, and the state of a synchronisation. Only
//! the fields that are used are kept.

use vstd::prelude::*;
use vstd::string::*;
use crate::event::{NewCalendarEvent, UpdatedCalendarEvent};
use crate::group::copy_text;
use crate::instant::Timestamp;

verus! {

/// One page of changes of a calendar.
#[derive(Debug)]
pub struct OutlookCalendarResponse {
    pub next_link: Option<String>,
    pub delta_link: Option<String>,
    pub value: Vec<OutlookDeltaEvent>,
}

/// How far a calendar has been synchronised.
#[derive(Debug)]
pub struct OutlookSyncState {
    pub delta_link: String,
    pub last_sync: Timestamp,
}

/// A calendar of the account.
#[derive(Debug)]
pub struct OutlookCalendar {
    pub id: String,
    pub name: String,
}

/// One change of a calendar: an event that was removed, or an event as it is now.
#[derive(Debug)]
pub enum OutlookDeltaEvent {
    Deleted { id: String, removed: RemovedInfo },
    Event(OutlookCalendarEvent),
}

/// Why an event was removed.
#[derive(Debug)]
pub struct RemovedInfo {
    pub reason: String,
}

/// An event of the Outlook calendar.
#[derive(Debug)]
pub struct OutlookCalendarEvent {
    pub id: String,
    pub subject: Option<String>,
    pub body_preview: Option<String>,
    pub location: Option<OutlookLocation>,
    pub start: OutlookDateTimeTimeZone,
    pub end: OutlookDateTimeTimeZone,
}

/// The body of an item: its content and whether that is text or HTML.
#[derive(Debug)]
pub struct ItemBody {
    pub content_type: String,
    pub content: String,
}

/// Where an event takes place.
#[derive(Debug)]
pub struct OutlookLocation {
    pub display_name: Option<String>,
}

/// A wall-clock reading together with the Windows name of the time zone in
/// which it was taken. The reading is held as the instant that it would be in
/// UTC.
#[derive(Debug)]
pub struct OutlookDateTimeTimeZone {
    pub date_time: Timestamp,
    pub time_zone: String,
}

/// How an event recurs, and for how long.
#[derive(Debug)]
pub struct OutlookRecurrence {
    pub pattern: RecurrencePattern,
    pub range: RecurrenceRange,
}

/// How an event recurs.
#[derive(Debug)]
pub struct RecurrencePattern {
    pub pattern_type: RecurrencePatternType,
    pub interval: Option<i32>,
    pub days_of_week: Option<Vec<DayOfWeek>>,
    pub day_of_month: Option<u8>,
    pub month: Option<u8>,
}

/// For how long an event recurs.
#[derive(Debug)]
pub struct RecurrenceRange {
    pub range_type: RecurrenceRangeType,
    /// The first day of the range, as the reading of its midnight.
    pub start_date: Timestamp,
    /// The last day of the range, as the reading of its midnight.
    pub end_date: Option<Timestamp>,
    /// The Windows name of the time zone of the range, where it has its own.
    pub recurrence_time_zone: Option<String>,
    pub number_of_occurrences: Option<i32>,
}

/// What kind of event an entry of the calendar is.
#[derive(Debug, Clone, Copy, PartialEq, Eq, Structural)]
pub enum OutlookEventType {
    SingleInstance,
    Occurrence,
    Exception,
    SeriesMaster,
    Unknown,
}

/// The kind of a recurrence pattern.
#[derive(Debug, Clone, Copy, PartialEq, Eq, Structural)]
pub enum RecurrencePatternType {
    Daily,
    Weekly,
    AbsoluteMonthly,
    RelativeMonthly,
    AbsoluteYearly,
    RelativeYearly,
    Unknown,
}

/// The kind of a recurrence range.
#[derive(Debug, Clone, Copy, PartialEq, Eq, Structural)]
pub enum RecurrenceRangeType {
    NoEnd,
    EndDate,
    Numbered,
    Unknown,
}

/// A day of the week as Outlook names it.
#[derive(Debug, Clone, Copy, PartialEq, Eq, Structural)]
pub enum DayOfWeek {
    Monday,
    Tuesday,
    Wednesday,
    Thursday,
    Friday,
    Saturday,
    Sunday,
    Unknown,
}

/// A day of the week as a recurrence rule names it.
#[derive(Debug, Clone, Copy, PartialEq, Eq, Structural)]
pub enum Weekday {
    Mon,
    Tue,
    Wed,
    Thu,
    Fri,
    Sat,
    Sun,
}

/// The name in the time zone database of the zone with the Windows name
/// `zone`, or `None` where `zone` is no Windows time zone. Stands for
/// `WindowsTimezone::from_str` and the conversion of the zone into a
/// `chrono_tz::Tz`, whose `name` this is.
pub uninterp spec fn windows_zone_iana(zone: Seq<char>) -> Option<Seq<char>>;

/// The UTC instant of the wall-clock reading `naive` in the zone that the time
/// zone database knows as `zone`, by the rules of that zone (daylight saving
/// included); `None` where the database has no such zone, or where the reading
/// does not occur in the zone or occurs twice. Stands for
/// `chrono_tz::Tz::from_str` and `NaiveDateTime::and_local_timezone` with
/// `single` and `to_utc` of `chrono`.
pub uninterp spec fn zone_utc_instant(naive: Timestamp, zone: Seq<char>) -> Option<Timestamp>;

/// Calls `WindowsTimezone::from_str` on `zone`, turns the zone into its
/// `chrono_tz::Tz` (`From`) and hands back that zone's `name`. The result is
/// what `windows_zone_iana` names.
#[verifier::external_body]
pub(crate) fn windows_zone_name(zone: &str) -> (r: Option<String>)
    ensures
        r is Some <==> windows_zone_iana(zone@) is Some,
        r matches Some(name) ==> windows_zone_iana(zone@) == Some(name@),
{
    let known = zone.parse::<windows_timezones::WindowsTimezone>().ok()?;
    Some(chrono_tz::Tz::from(known).name().to_string())
}

/// Calls `chrono_tz::Tz::from_str` on `zone`; reads `naive` as a date and time
/// without zone (`DateTime::from_timestamp`, `naive_utc`); and asks `chrono`
/// for the one instant of that reading in the zone (`and_local_timezone`,
/// `single`, `to_utc`). The result is what `zone_utc_instant` names.
#[verifier::external_body]
pub(crate) fn zone_reading_to_utc(naive: Timestamp, zone: &str) -> (r: Option<Timestamp>)
    ensures
        r == zone_utc_instant(naive, zone@),
{
    let tz = zone.parse::<chrono_tz::Tz>().ok()?;
    let local = chrono::DateTime::from_timestamp(naive.secs, naive.nanos)?.naive_utc();
    let utc = local.and_local_timezone(tz).single()?.to_utc();
    Some(Timestamp { secs: utc.timestamp(), nanos: utc.timestamp_subsec_nanos() })
}

/// The UTC instant of the reading `naive` in the zone with the Windows name
/// `zone`: the zone is looked up, and the reading is resolved by its rules.
pub open spec fn windows_zone_instant(naive: Timestamp, zone: Seq<char>) -> Option<Timestamp> {
    match windows_zone_iana(zone) {
        Some(name) => zone_utc_instant(naive, name),
        None => None,
    }
}

/// The day of the week that a recurrence rule uses for a day of Outlook. A
/// day that Outlook does not name counts as Monday.
pub open spec fn rule_day(d: DayOfWeek) -> Weekday {
    match d {
        DayOfWeek::Monday => Weekday::Mon,
        DayOfWeek::Tuesday => Weekday::Tue,
        DayOfWeek::Wednesday => Weekday::Wed,
        DayOfWeek::Thursday => Weekday::Thu,
        DayOfWeek::Friday => Weekday::Fri,
        DayOfWeek::Saturday => Weekday::Sat,
        DayOfWeek::Sunday => Weekday::Sun,
        DayOfWeek::Unknown => Weekday::Mon,
    }
}

/// The day of the week that a recurrence rule uses for a day of Outlook.
pub fn convert_day(d: &DayOfWeek) -> (r: Weekday)
    ensures
        r == rule_day(*d),
{
    match d {
        DayOfWeek::Monday => Weekday::Mon,
        DayOfWeek::Tuesday => Weekday::Tue,
        DayOfWeek::Wednesday => Weekday::Wed,
        DayOfWeek::Thursday => Weekday::Thu,
        DayOfWeek::Friday => Weekday::Fri,
        DayOfWeek::Saturday => Weekday::Sat,
        DayOfWeek::Sunday => Weekday::Sun,
        DayOfWeek::Unknown => Weekday::Mon,
    }
}

impl OutlookDateTimeTimeZone {
    /// The UTC instant of the reading, resolved by the rules of its zone.
    pub open spec fn utc(self) -> Option<Timestamp> {
        windows_zone_instant(self.date_time, self.time_zone@)
    }

    /// Converts the reading to UTC by the rules of its time zone. `None`
    /// where the zone is not known, or where the reading does not denote
    /// exactly one instant there.
    pub fn to_utc(&self) -> (r: Option<Timestamp>)
        ensures
            r == self.utc(),
    {
        match windows_zone_name(self.time_zone.as_str()) {
            Some(name) => zone_reading_to_utc(self.date_time, name.as_str()),
            None => None,
        }
    }
}

impl OutlookCalendarEvent {
    /// The title of the local event: the subject, or nothing.
    pub open spec fn title(self) -> Seq<char> {
        match self.subject {
            Some(s) => s@,
            None => Seq::empty(),
        }
    }

    /// The location of the local event: the display name of the location.
    pub open spec fn place(self) -> Option<String> {
        match self.location {
            Some(l) => l.display_name,
            None => None,
        }
    }

    fn local_title(&self) -> (r: String)
        ensures
            r@ == self.title(),
    {
        match &self.subject {
            Some(s) => s.clone(),
            None => String::new(),
        }
    }

    fn local_place(&self) -> (r: Option<String>)
        ensures
            r == self.place(),
    {
        match &self.location {
            Some(l) => copy_text(&l.display_name),
            None => None,
        }
    }

    /// The local event that is stored for a new Outlook event: its subject as
    /// title, its preview as description, the display name of its location,
    /// and its start and end as UTC instants. `None` where the start or the
    /// end is no single instant of its zone.
    pub fn to_new_event(&self) -> (r: Option<NewCalendarEvent>)
        ensures
            r is Some <==> self.start.utc() is Some && self.end.utc() is Some,
            r matches Some(e) ==> {
                &&& e.title@ == self.title()
                &&& e.description == self.body_preview
                &&& e.location == self.place()
                &&& Some(e.start_time) == self.start.utc()
                &&& Some(e.end_time) == self.end.utc()
            },
    {
        let start_time = match self.start.to_utc() {
            Some(t) => t,
            None => {
                return None;
            },
        };
        let end_time = match self.end.to_utc() {
            Some(t) => t,
            None => {
                return None;
            },
        };
        Some(
            NewCalendarEvent {
                title: self.local_title(),
                description: copy_text(&self.body_preview),
                location: self.local_place(),
                start_time,
                end_time,
            },
        )
    }

    /// The new state of the local event `id` that mirrors the Outlook event.
    /// `None` where the start or the end is no single instant of its zone.
    pub fn to_updated_event(&self, id: u128) -> (r: Option<UpdatedCalendarEvent>)
        ensures
            r is Some <==> self.start.utc() is Some && self.end.utc() is Some,
            r matches Some(e) ==> {
                &&& e.id == id
                &&& e.title@ == self.title()
                &&& e.description == self.body_preview
                &&& e.location == self.place()
                &&& Some(e.start_time) == self.start.utc()
                &&& Some(e.end_time) == self.end.utc()
            },
    {
        let start_time = match self.start.to_utc() {
            Some(t) => t,
            None => {
                return None;
            },
        };
        let end_time = match self.end.to_utc() {
            Some(t) => t,
            None => {
                return None;
            },
        };
        Some(
            UpdatedCalendarEvent {
                id,
                title: self.local_title(),
                description: copy_text(&self.body_preview),
                location: self.local_place(),
                start_time,
                end_time,
            },
        )
    }
}

/// What follows a page of changes.
#[derive(Debug)]
pub enum SyncStep {
    /// There are more changes: fetch the page behind this link.
    NextPage(String),
    /// The changes are complete: store this link as the state of the
    /// synchronisation, in place of the stored one where `known` says that
    /// there is one, and as a new state where there is none.
    SaveDelta { link: String, known: bool },
    /// The page names neither a next page nor a state: nothing is stored.
    Lost,
}

impl OutlookCalendarResponse {
    /// Takes the changes of the page and says what follows it: the next page
    /// where the page names one, else the storing of the new state where it
    /// names one, else nothing. `known` says whether a state of the
    /// synchronisation is stored already.
    pub fn next_step(self, known: bool) -> (r: (Vec<OutlookDeltaEvent>, SyncStep))
        ensures
            r.0 == self.value,
            match (self.next_link, self.delta_link) {
                (Some(next), _) => r.1 matches SyncStep::NextPage(link) && link == next,
                (None, Some(delta)) => r.1 matches SyncStep::SaveDelta { link, known: stored } && link
                    == delta && stored == known,
                (None, None) => r.1 is Lost,
            },
    {
        let step = match self.next_link {
            Some(link) => SyncStep::NextPage(link),
            None => match self.delta_link {
                Some(link) => SyncStep::SaveDelta { link, known },
                None => SyncStep::Lost,
            },
        };
        (self.value, step)
    }
}

} // verus!
