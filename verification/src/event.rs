//! One-off events, recurring event definitions, and the instances that a
//! definition yields.

use vstd::prelude::*;
use crate::group::RecurringEventGroup;
use crate::instant::Timestamp;
use crate::rrule::{reconciled_text, ValidatedRRule, ValidationError};
use crate::time::Second;

verus! {

/// An event on the calendar that happens once.
#[derive(Debug, Clone)]
pub struct CalendarEvent {
    pub id: u128,
    pub user_id: u128,
    pub title: String,
    pub description: Option<String>,
    pub location: Option<String>,
    pub start_time: Timestamp,
    pub end_time: Timestamp,
}

/// A one-off event that has not been stored yet.
#[derive(Debug, Clone)]
pub struct NewCalendarEvent {
    pub title: String,
    pub description: Option<String>,
    pub location: Option<String>,
    pub start_time: Timestamp,
    pub end_time: Timestamp,
}

/// The new state of a stored one-off event.
#[derive(Debug, Clone)]
pub struct UpdatedCalendarEvent {
    pub id: u128,
    pub title: String,
    pub description: Option<String>,
    pub location: Option<String>,
    pub start_time: Timestamp,
    pub end_time: Timestamp,
}

/// One occurrence of a recurring event, as it is shown on the calendar. It is
/// computed for each answer and never stored.
#[derive(Debug, Clone)]
pub struct RecurringCalendarEvent {
    pub title: String,
    pub description: Option<String>,
    pub location: Option<String>,
    pub start_time: Timestamp,
    pub end_time: Timestamp,
    /// The definition that the occurrence belongs to.
    pub recurring_event_id: u128,
    /// The Modified exception that was applied to the occurrence, if any.
    pub exception_id: Option<u128>,
    pub group: Option<RecurringEventGroup>,
}

/// The definition of an event that recurs. `recurrence_start` and
/// `recurrence_end` repeat the start and the UNTIL bound of `rrule`, so that
/// definitions can be selected by window without reading their rules.
#[derive(Debug, Clone)]
pub struct RecurringEvent {
    pub id: u128,
    pub group_id: Option<u128>,
    pub user_id: u128,
    pub is_active: bool,
    pub title: String,
    pub description: Option<String>,
    pub location: Option<String>,
    pub event_duration_seconds: Second,
    pub recurrence_start: Timestamp,
    pub recurrence_end: Option<Timestamp>,
    pub rrule: ValidatedRRule,
}

/// A definition that has not been stored yet.
#[derive(Debug, Clone)]
pub struct NewRecurringEvent {
    pub group_id: Option<u128>,
    pub is_active: bool,
    pub title: String,
    pub description: Option<String>,
    pub location: Option<String>,
    pub event_duration_seconds: Second,
    pub recurrence_start: Timestamp,
    pub recurrence_end: Option<Timestamp>,
    pub rrule: ValidatedRRule,
}

/// The new state of a stored definition.
#[derive(Debug, Clone)]
pub struct UpdatedRecurringEvent {
    pub id: u128,
    pub group_id: Option<u128>,
    pub is_active: bool,
    pub title: String,
    pub description: Option<String>,
    pub location: Option<String>,
    pub event_duration_seconds: Second,
    pub recurrence_start: Timestamp,
    pub recurrence_end: Option<Timestamp>,
    pub rrule: ValidatedRRule,
}

impl RecurringEvent {
    /// The definition is active and its recurrence overlaps the window
    /// `[start, end)`: it starts before `end`, and it has no end or ends after
    /// `start`.
    pub open spec fn is_candidate(self, start: Timestamp, end: Timestamp) -> bool {
        &&& self.is_active
        &&& self.recurrence_start.before(end)
        &&& match self.recurrence_end {
            Some(last) => start.before(last),
            None => true,
        }
    }

    /// Whether the definition takes part in the resolution of `[start, end)`.
    pub fn overlaps(&self, start: Timestamp, end: Timestamp) -> (r: bool)
        ensures
            r == self.is_candidate(start, end),
    {
        self.is_active && self.recurrence_start.is_before(&end) && match self.recurrence_end {
            Some(last) => start.is_before(&last),
            None => true,
        }
    }
}

impl RecurringEvent {
    /// The start of the definition is the start anchor of its rule.
    pub open spec fn mirrors_rule(self) -> bool {
        self.rrule@.start == self.recurrence_start
    }

    /// Whether the start of the definition is the start anchor of its rule.
    /// Where it is not, the stored data is at fault.
    pub fn bounds_agree(&self) -> (r: bool)
        ensures
            r == self.mirrors_rule(),
    {
        let anchor = self.rrule.start();
        anchor.secs == self.recurrence_start.secs && anchor.nanos == self.recurrence_start.nanos
    }
}

impl UpdatedRecurringEvent {
    /// Brings the rule in line with the definition's own bounds, as
    /// `NewRecurringEvent::reconcile_rule` does.
    pub fn reconcile_rule(&mut self) -> (r: Result<(), ValidationError>)
        ensures
            r is Ok <==> reconciled_text(
                old(self).rrule@.text,
                old(self).recurrence_start,
                old(self).recurrence_end,
            ) is Some,
            r is Ok ==> Some(final(self).rrule@.text) == reconciled_text(
                old(self).rrule@.text,
                old(self).recurrence_start,
                old(self).recurrence_end,
            ),
            r is Err ==> final(self).rrule@.text == old(self).rrule@.text,
            final(self).rrule@.start == old(self).recurrence_start,
            final(self).id == old(self).id,
            final(self).group_id == old(self).group_id,
            final(self).is_active == old(self).is_active,
            final(self).title == old(self).title,
            final(self).description == old(self).description,
            final(self).location == old(self).location,
            final(self).event_duration_seconds == old(self).event_duration_seconds,
            final(self).recurrence_start == old(self).recurrence_start,
            final(self).recurrence_end == old(self).recurrence_end,
    {
        self.rrule.set_start(self.recurrence_start);
        self.rrule.set_end(self.recurrence_end)
    }
}

impl NewRecurringEvent {
    /// Brings the rule in line with the definition's own bounds: the rule is
    /// anchored at `recurrence_start`, gets `recurrence_end` as its UNTIL bound
    /// where there is one, and is validated again with that anchor. Where the
    /// rule does not validate, the error is returned and the rule keeps its
    /// text.
    pub fn reconcile_rule(&mut self) -> (r: Result<(), ValidationError>)
        ensures
            r is Ok <==> reconciled_text(
                old(self).rrule@.text,
                old(self).recurrence_start,
                old(self).recurrence_end,
            ) is Some,
            r is Ok ==> Some(final(self).rrule@.text) == reconciled_text(
                old(self).rrule@.text,
                old(self).recurrence_start,
                old(self).recurrence_end,
            ),
            r is Err ==> final(self).rrule@.text == old(self).rrule@.text,
            final(self).rrule@.start == old(self).recurrence_start,
            final(self).group_id == old(self).group_id,
            final(self).is_active == old(self).is_active,
            final(self).title == old(self).title,
            final(self).description == old(self).description,
            final(self).location == old(self).location,
            final(self).event_duration_seconds == old(self).event_duration_seconds,
            final(self).recurrence_start == old(self).recurrence_start,
            final(self).recurrence_end == old(self).recurrence_end,
    {
        self.rrule.set_start(self.recurrence_start);
        self.rrule.set_end(self.recurrence_end)
    }
}

/// Reconciles the rule of every new definition with the definition's bounds,
/// as `reconcile_rule` does, in order. It stops at the first rule that does not
/// validate and reports the place of that definition with the error: the
/// definitions before that place are reconciled, the one at that place keeps
/// its rule text and has its own start as the start of the rule, and those
/// behind it are as they were.
pub fn reconcile_rules(events: &mut Vec<NewRecurringEvent>) -> (r: Result<(), (usize, ValidationError)>)
    ensures
        final(events)@.len() == old(events)@.len(),
        r is Ok <==> forall|i: int|
            0 <= i < old(events)@.len() ==> reconciled_text(
                (#[trigger] old(events)@[i]).rrule@.text,
                old(events)@[i].recurrence_start,
                old(events)@[i].recurrence_end,
            ) is Some,
        r is Ok ==> forall|i: int|
            0 <= i < old(events)@.len() ==> Some(final(events)@[i].rrule@.text)
                == reconciled_text(
                (#[trigger] old(events)@[i]).rrule@.text,
                old(events)@[i].recurrence_start,
                old(events)@[i].recurrence_end,
            ) && final(events)@[i].rrule@.start == old(events)@[i].recurrence_start,
        r matches Err((at, _)) ==> at < old(events)@.len() && reconciled_text(
            old(events)@[at as int].rrule@.text,
            old(events)@[at as int].recurrence_start,
            old(events)@[at as int].recurrence_end,
        ) is None,
        r matches Err((at, _)) ==> forall|i: int|
            0 <= i < at ==> Some(final(events)@[i].rrule@.text) == reconciled_text(
                (#[trigger] old(events)@[i]).rrule@.text,
                old(events)@[i].recurrence_start,
                old(events)@[i].recurrence_end,
            ) && final(events)@[i].rrule@.start == old(events)@[i].recurrence_start,
        r matches Err((at, _)) ==> final(events)@[at as int].rrule@.text == old(
            events,
        )@[at as int].rrule@.text && final(events)@[at as int].rrule@.start == old(
            events,
        )@[at as int].recurrence_start,
        r matches Err((at, _)) ==> forall|i: int|
            at < i < old(events)@.len() ==> final(events)@[i] == #[trigger] old(events)@[i],
{
    let mut i: usize = 0;
    while i < events.len()
        invariant
            i <= events@.len(),
            events@.len() == old(events)@.len(),
            forall|j: int| i <= j < events@.len() ==> events@[j] == old(events)@[j],
            forall|j: int|
                0 <= j < i ==> Some(events@[j].rrule@.text) == reconciled_text(
                    (#[trigger] old(events)@[j]).rrule@.text,
                    old(events)@[j].recurrence_start,
                    old(events)@[j].recurrence_end,
                ) && events@[j].rrule@.start == old(events)@[j].recurrence_start,
        decreases events@.len() - i,
    {
        let outcome = events[i].reconcile_rule();
        match outcome {
            Ok(()) => {},
            Err(e) => {
                return Err((i, e));
            },
        }
        i += 1;
    }
    Ok(())
}

} // verus!
