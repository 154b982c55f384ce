//! Events that were extracted from text, sound or a picture. Their times are
//! taken literally from the source, as wall-clock readings of the client, and
//! are normalised to UTC before anything else is done with them.

use vstd::prelude::*;
use crate::event::{NewCalendarEvent, NewRecurringEvent};
use crate::group::NewRecurringEventGroup;
use crate::instant::{offset_seconds, Timestamp};

verus! {

/// What was extracted: one-off events, recurring events, and perhaps a group
/// for the recurring ones.
#[derive(Debug, Clone)]
pub struct GeneratedEvents {
    pub events: Vec<NewCalendarEvent>,
    pub recurring_events: Vec<NewRecurringEvent>,
    pub recurring_event_group: Option<NewRecurringEventGroup>,
}

/// Some time of the batch, moved by the offset, has no `i64` count of seconds.
#[derive(Debug, Clone, Copy, PartialEq, Eq, Structural)]
pub struct TimeOutOfRange {}

/// An optional instant can be moved by `delta` seconds.
pub open spec fn optional_fits(t: Option<Timestamp>, delta: int) -> bool {
    match t {
        Some(t) => t.can_shift(delta),
        None => true,
    }
}

/// An optional instant, moved by `delta` seconds where there is one.
pub open spec fn optional_shifted(t: Option<Timestamp>, delta: int) -> Option<Timestamp> {
    match t {
        Some(t) => Some(t.shifted(delta)),
        None => None,
    }
}

/// Both times of the event can be moved by `delta` seconds.
pub open spec fn event_fits(e: NewCalendarEvent, delta: int) -> bool {
    e.start_time.can_shift(delta) && e.end_time.can_shift(delta)
}

/// The event with its start and its end moved by `delta` seconds.
pub open spec fn event_shifted(e: NewCalendarEvent, delta: int) -> NewCalendarEvent {
    NewCalendarEvent {
        title: e.title,
        description: e.description,
        location: e.location,
        start_time: e.start_time.shifted(delta),
        end_time: e.end_time.shifted(delta),
    }
}

/// Both recurrence bounds of the definition can be moved by `delta` seconds.
pub open spec fn recurring_fits(e: NewRecurringEvent, delta: int) -> bool {
    e.recurrence_start.can_shift(delta) && optional_fits(e.recurrence_end, delta)
}

/// The definition with its recurrence bounds moved by `delta` seconds.
pub open spec fn recurring_shifted(e: NewRecurringEvent, delta: int) -> NewRecurringEvent {
    NewRecurringEvent {
        group_id: e.group_id,
        is_active: e.is_active,
        title: e.title,
        description: e.description,
        location: e.location,
        event_duration_seconds: e.event_duration_seconds,
        recurrence_start: e.recurrence_start.shifted(delta),
        recurrence_end: optional_shifted(e.recurrence_end, delta),
        rrule: e.rrule,
    }
}

/// Both default bounds of the group can be moved by `delta` seconds.
pub open spec fn group_fits(g: NewRecurringEventGroup, delta: int) -> bool {
    optional_fits(g.group_recurrence_start, delta) && optional_fits(g.group_recurrence_end, delta)
}

/// The group with its default bounds moved by `delta` seconds.
pub open spec fn group_shifted(g: NewRecurringEventGroup, delta: int) -> NewRecurringEventGroup {
    NewRecurringEventGroup {
        name: g.name,
        description: g.description,
        color: g.color,
        group_is_active: g.group_is_active,
        group_recurrence_start: optional_shifted(g.group_recurrence_start, delta),
        group_recurrence_end: optional_shifted(g.group_recurrence_end, delta),
    }
}

/// `event_shifted` as a function of the event.
pub open spec fn event_shift_fn(delta: int) -> spec_fn(NewCalendarEvent) -> NewCalendarEvent {
    |e: NewCalendarEvent| event_shifted(e, delta)
}

/// `recurring_shifted` as a function of the definition.
pub open spec fn recurring_shift_fn(delta: int) -> spec_fn(NewRecurringEvent) -> NewRecurringEvent {
    |e: NewRecurringEvent| recurring_shifted(e, delta)
}

fn optional_in_range(t: Option<Timestamp>, delta: i64) -> (r: bool)
    ensures
        r == optional_fits(t, delta as int),
{
    match t {
        Some(t) => t.checked_add_seconds(delta).is_some(),
        None => true,
    }
}

fn shift_optional(t: Option<Timestamp>, delta: i64) -> (r: Option<Timestamp>)
    requires
        optional_fits(t, delta as int),
    ensures
        r == optional_shifted(t, delta as int),
{
    match t {
        Some(t) => Some(t.add_seconds(delta)),
        None => None,
    }
}

fn events_in_range(events: &Vec<NewCalendarEvent>, delta: i64) -> (r: bool)
    ensures
        r == forall|i: int| 0 <= i < events@.len() ==> event_fits(#[trigger] events@[i], delta as int),
{
    let mut i: usize = 0;
    while i < events.len()
        invariant
            i <= events@.len(),
            forall|j: int| 0 <= j < i ==> event_fits(#[trigger] events@[j], delta as int),
        decreases events@.len() - i,
    {
        if events[i].start_time.checked_add_seconds(delta).is_none()
            || events[i].end_time.checked_add_seconds(delta).is_none() {
            assert(!event_fits(events@[i as int], delta as int));
            return false;
        }
        i += 1;
    }
    true
}

fn recurring_in_range(events: &Vec<NewRecurringEvent>, delta: i64) -> (r: bool)
    ensures
        r == forall|i: int|
            0 <= i < events@.len() ==> recurring_fits(#[trigger] events@[i], delta as int),
{
    let mut i: usize = 0;
    while i < events.len()
        invariant
            i <= events@.len(),
            forall|j: int| 0 <= j < i ==> recurring_fits(#[trigger] events@[j], delta as int),
        decreases events@.len() - i,
    {
        if events[i].recurrence_start.checked_add_seconds(delta).is_none() || !optional_in_range(
            events[i].recurrence_end,
            delta,
        ) {
            assert(!recurring_fits(events@[i as int], delta as int));
            return false;
        }
        i += 1;
    }
    true
}

fn shift_events(events: &mut Vec<NewCalendarEvent>, delta: i64)
    requires
        forall|i: int|
            0 <= i < old(events)@.len() ==> event_fits(#[trigger] old(events)@[i], delta as int),
    ensures
        final(events)@ == old(events)@.map_values(event_shift_fn(delta as int)),
{
    let mut i: usize = 0;
    while i < events.len()
        invariant
            i <= events@.len(),
            events@.len() == old(events)@.len(),
            forall|j: int| i <= j < events@.len() ==> events@[j] == old(events)@[j],
            forall|j: int|
                0 <= j < i ==> #[trigger] events@[j] == event_shifted(old(events)@[j], delta as int),
            forall|j: int|
                0 <= j < old(events)@.len() ==> event_fits(#[trigger] old(events)@[j], delta as int),
        decreases events@.len() - i,
    {
        assert(event_fits(old(events)@[i as int], delta as int));
        let start = events[i].start_time.add_seconds(delta);
        let end = events[i].end_time.add_seconds(delta);
        events[i].start_time = start;
        events[i].end_time = end;
        i += 1;
    }
    assert(events@ =~= old(events)@.map_values(event_shift_fn(delta as int)));
}

fn shift_recurring(events: &mut Vec<NewRecurringEvent>, delta: i64)
    requires
        forall|i: int|
            0 <= i < old(events)@.len() ==> recurring_fits(#[trigger] old(events)@[i], delta as int),
    ensures
        final(events)@ == old(events)@.map_values(recurring_shift_fn(delta as int)),
{
    let mut i: usize = 0;
    while i < events.len()
        invariant
            i <= events@.len(),
            events@.len() == old(events)@.len(),
            forall|j: int| i <= j < events@.len() ==> events@[j] == old(events)@[j],
            forall|j: int|
                0 <= j < i ==> #[trigger] events@[j] == recurring_shifted(
                    old(events)@[j],
                    delta as int,
                ),
            forall|j: int|
                0 <= j < old(events)@.len() ==> recurring_fits(
                    #[trigger] old(events)@[j],
                    delta as int,
                ),
        decreases events@.len() - i,
    {
        assert(recurring_fits(old(events)@[i as int], delta as int));
        let start = events[i].recurrence_start.add_seconds(delta);
        let end = shift_optional(events[i].recurrence_end, delta);
        events[i].recurrence_start = start;
        events[i].recurrence_end = end;
        i += 1;
    }
    assert(events@ =~= old(events)@.map_values(recurring_shift_fn(delta as int)));
}

impl GeneratedEvents {
    /// Every time of the batch can be moved by `delta` seconds: the start and
    /// the end of each event, the recurrence bounds of each definition, and
    /// the default bounds of the group.
    pub open spec fn fits(self, delta: int) -> bool {
        &&& forall|i: int| 0 <= i < self.events@.len() ==> event_fits(#[trigger] self.events@[i], delta)
        &&& forall|i: int|
            0 <= i < self.recurring_events@.len() ==> recurring_fits(
                #[trigger] self.recurring_events@[i],
                delta,
            )
        &&& match self.recurring_event_group {
            Some(g) => group_fits(g, delta),
            None => true,
        }
    }

    /// Normalises every time of the batch to UTC: each is a wall-clock reading
    /// taken `timezone_offset_minutes` ahead of UTC, and becomes the reading
    /// minus the offset. Either every time of the batch is moved or, where one
    /// of them cannot be, none is.
    pub fn offset_timezones(&mut self, timezone_offset_minutes: i32) -> (r: Result<(), TimeOutOfRange>)
        ensures
            r is Ok <==> old(self).fits(-offset_seconds(timezone_offset_minutes)),
            r is Ok ==> final(self).events@ == old(self).events@.map_values(
                event_shift_fn(-offset_seconds(timezone_offset_minutes)),
            ),
            r is Ok ==> final(self).recurring_events@ == old(self).recurring_events@.map_values(
                recurring_shift_fn(-offset_seconds(timezone_offset_minutes)),
            ),
            r is Ok ==> final(self).recurring_event_group == (match old(self).recurring_event_group {
                Some(g) => Some(group_shifted(g, -offset_seconds(timezone_offset_minutes))),
                None => None,
            }),
            r is Err ==> *final(self) == *old(self),
    {
        let minutes: i64 = timezone_offset_minutes as i64;
        let delta: i64 = -(minutes * 60);
        let group_in_range = match &self.recurring_event_group {
            Some(g) => optional_in_range(g.group_recurrence_start, delta) && optional_in_range(
                g.group_recurrence_end,
                delta,
            ),
            None => true,
        };
        if !group_in_range || !events_in_range(&self.events, delta) || !recurring_in_range(
            &self.recurring_events,
            delta,
        ) {
            return Err(TimeOutOfRange {  });
        }
        shift_events(&mut self.events, delta);
        shift_recurring(&mut self.recurring_events, delta);
        match self.recurring_event_group.take() {
            Some(g) => {
                let start = shift_optional(g.group_recurrence_start, delta);
                let end = shift_optional(g.group_recurrence_end, delta);
                self.recurring_event_group = Some(
                    NewRecurringEventGroup {
                        name: g.name,
                        description: g.description,
                        color: g.color,
                        group_is_active: g.group_is_active,
                        group_recurrence_start: start,
                        group_recurrence_end: end,
                    },
                );
            },
            None => {},
        }
        Ok(())
    }
}

/// After a batch is normalised, adding the offset back to any of its times
/// gives the time as it was extracted.
pub proof fn lemma_offset_round_trip(e: NewCalendarEvent, timezone_offset_minutes: i32)
    requires
        event_fits(e, -offset_seconds(timezone_offset_minutes)),
    ensures
        event_fits(
            event_shifted(e, -offset_seconds(timezone_offset_minutes)),
            offset_seconds(timezone_offset_minutes),
        ),
        event_shifted(
            event_shifted(e, -offset_seconds(timezone_offset_minutes)),
            offset_seconds(timezone_offset_minutes),
        ) == e,
{
}

} // verus!
