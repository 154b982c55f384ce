//! Exceptions to single occurrences of a recurring event: a cancellation, or
//! an override of some of the occurrence's fields.

use vstd::prelude::*;
use crate::instant::Timestamp;

verus! {

/// What an exception does to the occurrence it names.
#[derive(Debug, Clone, Copy, PartialEq, Eq, Structural, Hash)]
pub enum ExceptionType {
    /// The occurrence does not take place.
    Cancelled,
    /// The occurrence takes place with some of its fields replaced.
    Modified,
}

impl ExceptionType {
    /// The name under which the type is stored: the variant in lower case.
    pub open spec fn name(self) -> Seq<char> {
        match self {
            ExceptionType::Cancelled => "cancelled"@,
            ExceptionType::Modified => "modified"@,
        }
    }

    /// The name under which the type is stored.
    pub fn as_str(&self) -> (r: &'static str)
        ensures
            r@ == self.name(),
    {
        match self {
            ExceptionType::Cancelled => "cancelled",
            ExceptionType::Modified => "modified",
        }
    }
}

/// An exception to one occurrence of a recurring event. It takes effect on the
/// occurrence whose instant equals `exception_date` exactly. The `modified_*`
/// fields count only where the type is `Modified`; a field that is `None`
/// leaves the occurrence's own value in place.
#[derive(Debug, Clone)]
pub struct RecurringEventException {
    pub id: u128,
    pub recurring_event_id: u128,
    pub exception_date: Timestamp,
    pub exception_type: ExceptionType,
    pub modified_title: Option<String>,
    pub modified_description: Option<Option<String>>,
    pub modified_location: Option<Option<String>>,
    pub modified_start_time: Option<Timestamp>,
    pub modified_end_time: Option<Timestamp>,
}

/// An exception that has not been stored yet, and so has no id.
#[derive(Debug, Clone)]
pub struct NewRecurringEventException {
    pub recurring_event_id: u128,
    pub exception_date: Timestamp,
    pub exception_type: ExceptionType,
    pub modified_title: Option<String>,
    pub modified_description: Option<Option<String>>,
    pub modified_location: Option<Option<String>>,
    pub modified_start_time: Option<Timestamp>,
    pub modified_end_time: Option<Timestamp>,
}

impl RecurringEventException {
    /// The exception belongs to the definition `event_id` and names the
    /// instant `t`: its date equals `t` in seconds and nanoseconds.
    pub open spec fn matches(self, event_id: u128, t: Timestamp) -> bool {
        self.recurring_event_id == event_id && self.exception_date == t
    }

    /// Whether the exception belongs to the definition `event_id` and names
    /// the instant `t`.
    pub fn is_for(&self, event_id: u128, t: Timestamp) -> (r: bool)
        ensures
            r == self.matches(event_id, t),
    {
        self.recurring_event_id == event_id && self.exception_date.secs == t.secs
            && self.exception_date.nanos == t.nanos
    }
}

impl NewRecurringEventException {
    /// The exception as it is once stored under `id`.
    pub open spec fn stored_as(self, id: u128) -> RecurringEventException {
        RecurringEventException {
            id,
            recurring_event_id: self.recurring_event_id,
            exception_date: self.exception_date,
            exception_type: self.exception_type,
            modified_title: self.modified_title,
            modified_description: self.modified_description,
            modified_location: self.modified_location,
            modified_start_time: self.modified_start_time,
            modified_end_time: self.modified_end_time,
        }
    }

    /// Gives the exception the id under which it was stored.
    pub fn with_id(self, id: u128) -> (r: RecurringEventException)
        ensures
            r == self.stored_as(id),
    {
        RecurringEventException {
            id,
            recurring_event_id: self.recurring_event_id,
            exception_date: self.exception_date,
            exception_type: self.exception_type,
            modified_title: self.modified_title,
            modified_description: self.modified_description,
            modified_location: self.modified_location,
            modified_start_time: self.modified_start_time,
            modified_end_time: self.modified_end_time,
        }
    }
}

} // verus!
