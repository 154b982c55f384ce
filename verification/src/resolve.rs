//! Reconciliation of the expanded occurrences of a definition with its
//! exceptions, and the materialisation of what is left as event instances.
//!
//! An exception takes effect on the occurrence whose instant equals its date
//! exactly. A Cancelled exception removes that occurrence; a Modified one
//! replaces the fields it holds. An exception that names no expanded
//! occurrence does nothing. Two exceptions of one definition that name the
//! same occurrence are a fault of the stored data, which is reported and never
//! resolved by choosing one of them.

use vstd::prelude::*;
use crate::event::{RecurringCalendarEvent, RecurringEvent};
use crate::exception::{ExceptionType, RecurringEventException};
use crate::group::copy_text;
use crate::instant::Timestamp;
use crate::rrule::lemma_filter_of_empty;

verus! {

/// Two exceptions of the definition `recurring_event_id` name the same
/// occurrence, the one at `exception_date`.
#[derive(Debug, Clone, Copy, PartialEq, Eq, Structural)]
pub struct IntegrityViolation {
    pub recurring_event_id: u128,
    pub exception_date: Timestamp,
}

/// What the exceptions make of one occurrence.
#[derive(Debug, Clone, Copy, PartialEq, Eq, Structural)]
pub enum Disposition {
    /// No exception names the occurrence.
    Kept,
    /// A Cancelled exception names it.
    Cancelled,
    /// The Modified exception at this place in the list of exceptions names it.
    Modified(usize),
}

/// An instance that waits for its group: the group id of its definition and
/// the instance itself.
#[derive(Debug, Clone)]
pub struct PendingInstance {
    pub group_id: Option<u128>,
    pub instance: RecurringCalendarEvent,
}

/// Some exception of the definition names the instant `t`.
pub open spec fn has_match(exceptions: Seq<RecurringEventException>, event_id: u128, t: Timestamp) -> bool {
    exists|k: int| 0 <= k < exceptions.len() && (#[trigger] exceptions[k]).matches(event_id, t)
}

/// Two different exceptions of the definition name the instant `t`.
pub open spec fn doubly_matched(
    exceptions: Seq<RecurringEventException>,
    event_id: u128,
    t: Timestamp,
) -> bool {
    exists|j: int, k: int|
        0 <= j < k < exceptions.len() && (#[trigger] exceptions[j]).matches(event_id, t) && (
        #[trigger] exceptions[k]).matches(event_id, t)
}

/// Two different exceptions of the definition name the same instant of `instants`.
pub open spec fn conflicting(
    instants: Seq<Timestamp>,
    event_id: u128,
    exceptions: Seq<RecurringEventException>,
) -> bool {
    exists|i: int|
        0 <= i < instants.len() && doubly_matched(exceptions, event_id, #[trigger] instants[i])
}

/// The place of an exception of the definition that names `t`.
pub open spec fn match_index(exceptions: Seq<RecurringEventException>, event_id: u128, t: Timestamp) -> int {
    choose|k: int| 0 <= k < exceptions.len() && (#[trigger] exceptions[k]).matches(event_id, t)
}

/// What the exceptions make of the occurrence at `t`. Where two exceptions
/// name `t` this is not determined, and resolution fails instead.
pub open spec fn disposition_of(
    exceptions: Seq<RecurringEventException>,
    event_id: u128,
    t: Timestamp,
) -> Disposition {
    if has_match(exceptions, event_id, t) {
        let k = match_index(exceptions, event_id, t);
        match exceptions[k].exception_type {
            ExceptionType::Cancelled => Disposition::Cancelled,
            ExceptionType::Modified => Disposition::Modified(k as usize),
        }
    } else {
        Disposition::Kept
    }
}

/// A Cancelled exception of the definition names `t`.
pub open spec fn is_cancelled(exceptions: Seq<RecurringEventException>, event_id: u128, t: Timestamp) -> bool {
    exists|k: int|
        0 <= k < exceptions.len() && (#[trigger] exceptions[k]).matches(event_id, t)
            && exceptions[k].exception_type == ExceptionType::Cancelled
}

/// A Modified exception of the definition names `t`.
pub open spec fn has_override(exceptions: Seq<RecurringEventException>, event_id: u128, t: Timestamp) -> bool {
    exists|k: int|
        0 <= k < exceptions.len() && (#[trigger] exceptions[k]).matches(event_id, t)
            && exceptions[k].exception_type == ExceptionType::Modified
}

/// The place of a Modified exception of the definition that names `t`.
pub open spec fn override_index(
    exceptions: Seq<RecurringEventException>,
    event_id: u128,
    t: Timestamp,
) -> int {
    choose|k: int|
        0 <= k < exceptions.len() && (#[trigger] exceptions[k]).matches(event_id, t)
            && exceptions[k].exception_type == ExceptionType::Modified
}

/// The instance of `event` at `t` before any exception: it starts at `t`, lasts
/// for the definition's duration and copies the definition's title,
/// description and location.
pub open spec fn base_instance(event: RecurringEvent, t: Timestamp) -> RecurringCalendarEvent {
    RecurringCalendarEvent {
        title: event.title,
        description: event.description,
        location: event.location,
        start_time: t,
        end_time: t.shifted(event.event_duration_seconds.0 as int),
        recurring_event_id: event.id,
        exception_id: None,
        group: None,
    }
}

/// `base` with the fields replaced that the exception holds. A field that the
/// exception leaves out keeps the value of `base`. The instance records the
/// exception's id.
pub open spec fn overridden(
    base: RecurringCalendarEvent,
    exception: RecurringEventException,
) -> RecurringCalendarEvent {
    RecurringCalendarEvent {
        title: match exception.modified_title {
            Some(title) => title,
            None => base.title,
        },
        description: match exception.modified_description {
            Some(description) => description,
            None => base.description,
        },
        location: match exception.modified_location {
            Some(location) => location,
            None => base.location,
        },
        start_time: match exception.modified_start_time {
            Some(start) => start,
            None => base.start_time,
        },
        end_time: match exception.modified_end_time {
            Some(end) => end,
            None => base.end_time,
        },
        recurring_event_id: base.recurring_event_id,
        exception_id: Some(exception.id),
        group: base.group,
    }
}

/// The instance of `event` at the occurrence `t`, which is not cancelled: the
/// base instance, overridden by the Modified exception that names `t` where
/// there is one.
pub open spec fn instance_of(
    event: RecurringEvent,
    exceptions: Seq<RecurringEventException>,
    t: Timestamp,
) -> RecurringCalendarEvent {
    if has_override(exceptions, event.id, t) {
        overridden(base_instance(event, t), exceptions[override_index(exceptions, event.id, t)])
    } else {
        base_instance(event, t)
    }
}

/// The instants that no Cancelled exception of the definition names.
pub open spec fn survivor_pred(exceptions: Seq<RecurringEventException>, event_id: u128) -> spec_fn(
    Timestamp,
) -> bool {
    |t: Timestamp| !is_cancelled(exceptions, event_id, t)
}

/// The instants that a Cancelled exception of the definition names.
pub open spec fn cancelled_pred(exceptions: Seq<RecurringEventException>, event_id: u128) -> spec_fn(
    Timestamp,
) -> bool {
    |t: Timestamp| is_cancelled(exceptions, event_id, t)
}

/// `instance_of` as a function of the instant.
pub open spec fn instance_fn(event: RecurringEvent, exceptions: Seq<RecurringEventException>) -> spec_fn(
    Timestamp,
) -> RecurringCalendarEvent {
    |t: Timestamp| instance_of(event, exceptions, t)
}

/// The instances of `event` for the expanded `instants`: one for each instant
/// that is not cancelled, in the order of the instants.
pub open spec fn resolved_instances(
    event: RecurringEvent,
    instants: Seq<Timestamp>,
    exceptions: Seq<RecurringEventException>,
) -> Seq<RecurringCalendarEvent> {
    instants.filter(survivor_pred(exceptions, event.id)).map_values(instance_fn(event, exceptions))
}

/// The instants of `instants` that a Cancelled exception removes.
pub open spec fn cancelled_matches(
    instants: Seq<Timestamp>,
    event_id: u128,
    exceptions: Seq<RecurringEventException>,
) -> Seq<Timestamp> {
    instants.filter(cancelled_pred(exceptions, event_id))
}

/// Where no two exceptions name `t`, the disposition of `t` says which kind of
/// exception names it, and a Modified disposition holds the place of the one
/// exception that does.
pub proof fn lemma_disposition_meaning(
    exceptions: Seq<RecurringEventException>,
    event_id: u128,
    t: Timestamp,
)
    requires
        !doubly_matched(exceptions, event_id, t),
        exceptions.len() <= usize::MAX,
    ensures
        disposition_of(exceptions, event_id, t) == Disposition::Cancelled <==> is_cancelled(
            exceptions,
            event_id,
            t,
        ),
        disposition_of(exceptions, event_id, t) == Disposition::Kept <==> !has_match(
            exceptions,
            event_id,
            t,
        ),
        disposition_of(exceptions, event_id, t) matches Disposition::Modified(k) ==> has_override(
            exceptions,
            event_id,
            t,
        ) && override_index(exceptions, event_id, t) == k && k < exceptions.len(),
        has_override(exceptions, event_id, t) ==> disposition_of(exceptions, event_id, t)
            == Disposition::Modified(override_index(exceptions, event_id, t) as usize),
{
    if has_match(exceptions, event_id, t) {
        let k = match_index(exceptions, event_id, t);
        assert(exceptions[k].matches(event_id, t));
        assert forall|j: int| 0 <= j < exceptions.len() && (#[trigger] exceptions[j]).matches(
            event_id,
            t,
        ) implies j == k by {
            if j < k {
                assert(exceptions[j].matches(event_id, t) && exceptions[k].matches(event_id, t));
            } else if k < j {
                assert(exceptions[k].matches(event_id, t) && exceptions[j].matches(event_id, t));
            }
        }
        if has_override(exceptions, event_id, t) {
            let m = override_index(exceptions, event_id, t);
            assert(exceptions[m].matches(event_id, t));
            assert(m == k);
        }
        if exceptions[k].exception_type == ExceptionType::Modified {
            assert(has_override(exceptions, event_id, t));
        }
    }
}

/// The one exception of the definition that names `t`, if any. Two of them
/// are an error.
pub fn sole_match(exceptions: &Vec<RecurringEventException>, event_id: u128, t: Timestamp) -> (r: Result<
    Option<usize>,
    (),
>)
    ensures
        r is Err <==> doubly_matched(exceptions@, event_id, t),
        r matches Ok(None) ==> !has_match(exceptions@, event_id, t),
        r matches Ok(Some(k)) ==> k < exceptions@.len() && exceptions@[k as int].matches(event_id, t)
            && disposition_of(exceptions@, event_id, t) == (match exceptions@[k as int].exception_type {
            ExceptionType::Cancelled => Disposition::Cancelled,
            ExceptionType::Modified => Disposition::Modified(k),
        }),
{
    let mut found: Option<usize> = None;
    let mut k: usize = 0;
    while k < exceptions.len()
        invariant
            k <= exceptions@.len(),
            found matches Some(f) ==> f < k && exceptions@[f as int].matches(event_id, t),
            forall|j: int|
                0 <= j < k && (#[trigger] exceptions@[j]).matches(event_id, t) ==> found == Some(
                    j as usize,
                ),
        decreases exceptions@.len() - k,
    {
        if exceptions[k].is_for(event_id, t) {
            match found {
                Some(f) => {
                    assert(exceptions@[f as int].matches(event_id, t) && exceptions@[k as int].matches(
                        event_id,
                        t,
                    ));
                    return Err(());
                },
                None => {
                    found = Some(k);
                },
            }
        }
        k += 1;
    }
    proof {
        assert(!doubly_matched(exceptions@, event_id, t)) by {
            if doubly_matched(exceptions@, event_id, t) {
                let (a, b) = choose|a: int, b: int|
                    0 <= a < b < exceptions@.len() && (#[trigger] exceptions@[a]).matches(event_id, t)
                        && (#[trigger] exceptions@[b]).matches(event_id, t);
                assert(found == Some(a as usize));
                assert(found == Some(b as usize));
            }
        }
        lemma_disposition_meaning(exceptions@, event_id, t);
        match found {
            Some(f) => {
                assert(exceptions@[f as int].matches(event_id, t));
                assert(has_match(exceptions@, event_id, t));
                let m = match_index(exceptions@, event_id, t);
                assert(exceptions@[m].matches(event_id, t));
                assert(found == Some(m as usize));
            },
            None => {},
        }
    }
    Ok(found)
}

/// Matches the exceptions against the expanded instants of the definition
/// `event_id`: for each instant, whether it is kept, cancelled, or modified and
/// by which exception. Exceptions of other definitions, and exceptions whose
/// date is none of the instants, have no effect. Where two exceptions of the
/// definition name the same instant, the matching fails.
pub fn partition(
    instants: &Vec<Timestamp>,
    event_id: u128,
    exceptions: &Vec<RecurringEventException>,
) -> (r: Result<Vec<Disposition>, IntegrityViolation>)
    ensures
        r is Err <==> conflicting(instants@, event_id, exceptions@),
        r matches Ok(found) ==> found@.len() == instants@.len() && forall|i: int|
            0 <= i < instants@.len() ==> #[trigger] found@[i] == disposition_of(
                exceptions@,
                event_id,
                instants@[i],
            ),
        r matches Err(fault) ==> fault.recurring_event_id == event_id && instants@.contains(
            fault.exception_date,
        ) && doubly_matched(exceptions@, event_id, fault.exception_date),
{
    let mut found: Vec<Disposition> = Vec::new();
    let mut i: usize = 0;
    while i < instants.len()
        invariant
            i <= instants@.len(),
            found@.len() == i,
            forall|j: int|
                0 <= j < i ==> #[trigger] found@[j] == disposition_of(
                    exceptions@,
                    event_id,
                    instants@[j],
                ),
            forall|j: int|
                0 <= j < i ==> !doubly_matched(exceptions@, event_id, #[trigger] instants@[j]),
        decreases instants@.len() - i,
    {
        let t = instants[i];
        match sole_match(exceptions, event_id, t) {
            Err(()) => {
                assert(doubly_matched(exceptions@, event_id, instants@[i as int]));
                return Err(IntegrityViolation { recurring_event_id: event_id, exception_date: t });
            },
            Ok(None) => {
                found.push(Disposition::Kept);
            },
            Ok(Some(k)) => {
                match exceptions[k].exception_type {
                    ExceptionType::Cancelled => {
                        found.push(Disposition::Cancelled);
                    },
                    ExceptionType::Modified => {
                        found.push(Disposition::Modified(k));
                    },
                }
            },
        }
        i += 1;
    }
    Ok(found)
}

/// Builds the instance of `event` at `t` before any exception.
pub fn new_instance(event: &RecurringEvent, t: Timestamp) -> (r: RecurringCalendarEvent)
    requires
        t.can_shift(event.event_duration_seconds.0 as int),
    ensures
        r == base_instance(*event, t),
{
    RecurringCalendarEvent {
        title: event.title.clone(),
        description: copy_text(&event.description),
        location: copy_text(&event.location),
        start_time: t,
        end_time: t.add_seconds(event.event_duration_seconds.0 as i64),
        recurring_event_id: event.id,
        exception_id: None,
        group: None,
    }
}

/// Replaces in `base` the fields that the exception holds, one by one, and
/// records the exception's id. The definition that the instance belongs to is
/// never changed.
pub fn apply_override(base: RecurringCalendarEvent, exception: &RecurringEventException) -> (r:
    RecurringCalendarEvent)
    ensures
        r == overridden(base, *exception),
        r.recurring_event_id == base.recurring_event_id,
        r.exception_id == Some(exception.id),
{
    let mut instance = base;
    match &exception.modified_title {
        Some(title) => {
            instance.title = title.clone();
        },
        None => {},
    }
    match &exception.modified_description {
        Some(description) => {
            instance.description = copy_text(description);
        },
        None => {},
    }
    match &exception.modified_location {
        Some(location) => {
            instance.location = copy_text(location);
        },
        None => {},
    }
    match exception.modified_start_time {
        Some(start) => {
            instance.start_time = start;
        },
        None => {},
    }
    match exception.modified_end_time {
        Some(end) => {
            instance.end_time = end;
        },
        None => {},
    }
    instance.exception_id = Some(exception.id);
    instance
}

/// Turns the definition, its instants and what the exceptions make of each
/// instant into instances: none for a cancelled instant, the overridden
/// instance for a modified one, the base instance for the others.
pub fn materialize(
    event: &RecurringEvent,
    instants: &Vec<Timestamp>,
    dispositions: &Vec<Disposition>,
    exceptions: &Vec<RecurringEventException>,
) -> (r: Vec<RecurringCalendarEvent>)
    requires
        dispositions@.len() == instants@.len(),
        !conflicting(instants@, event.id, exceptions@),
        forall|i: int|
            0 <= i < instants@.len() ==> #[trigger] dispositions@[i] == disposition_of(
                exceptions@,
                event.id,
                instants@[i],
            ),
        forall|i: int|
            0 <= i < instants@.len() ==> (#[trigger] instants@[i]).can_shift(
                event.event_duration_seconds.0 as int,
            ),
    ensures
        r@ == resolved_instances(*event, instants@, exceptions@),
{
    let ghost keep = survivor_pred(exceptions@, event.id);
    let ghost make = instance_fn(*event, exceptions@);
    let mut out: Vec<RecurringCalendarEvent> = Vec::new();
    let mut i: usize = 0;
    proof {
        assert(exceptions@.len() == exceptions.len());
        assert(instants@.take(0) =~= Seq::<Timestamp>::empty());
        lemma_filter_of_empty(keep);
        assert(Seq::<Timestamp>::empty().map_values(make) =~= Seq::<RecurringCalendarEvent>::empty());
    }
    while i < instants.len()
        invariant
            i <= instants@.len(),
            dispositions@.len() == instants@.len(),
            keep == survivor_pred(exceptions@, event.id),
            make == instance_fn(*event, exceptions@),
            exceptions@.len() <= usize::MAX,
            !conflicting(instants@, event.id, exceptions@),
            forall|j: int|
                0 <= j < instants@.len() ==> #[trigger] dispositions@[j] == disposition_of(
                    exceptions@,
                    event.id,
                    instants@[j],
                ),
            forall|j: int|
                0 <= j < instants@.len() ==> (#[trigger] instants@[j]).can_shift(
                    event.event_duration_seconds.0 as int,
                ),
            out@ == instants@.take(i as int).filter(keep).map_values(make),
        decreases instants@.len() - i,
    {
        let t = instants[i];
        proof {
            assert(!doubly_matched(exceptions@, event.id, instants@[i as int]));
            lemma_disposition_meaning(exceptions@, event.id, t);
            assert(instants@.take(i + 1) =~= instants@.take(i as int).push(t));
            instants@.take(i as int).lemma_filter_push(t, keep);
            assert(instants@.take(i as int).filter(keep).push(t).map_values(make)
                =~= instants@.take(i as int).filter(keep).map_values(make).push(make(t)));
            assert(dispositions@[i as int] == disposition_of(exceptions@, event.id, t));
        }
        match dispositions[i] {
            Disposition::Kept => {
                out.push(new_instance(event, t));
            },
            Disposition::Cancelled => {},
            Disposition::Modified(k) => {
                out.push(apply_override(new_instance(event, t), &exceptions[k]));
            },
        }
        i += 1;
    }
    proof {
        assert(instants@.take(instants@.len() as int) =~= instants@);
    }
    out
}

/// Resolves one definition: its expanded `instants` are matched against the
/// exceptions, the cancelled ones are dropped and the others become instances,
/// with the overrides of their Modified exception applied. Fails, with nothing
/// resolved, where two exceptions of the definition name the same instant.
pub fn process_event_instances_and_exceptions(
    event: &RecurringEvent,
    instants: &Vec<Timestamp>,
    event_exceptions: &Vec<RecurringEventException>,
) -> (r: Result<Vec<RecurringCalendarEvent>, IntegrityViolation>)
    requires
        forall|i: int|
            0 <= i < instants@.len() ==> (#[trigger] instants@[i]).can_shift(
                event.event_duration_seconds.0 as int,
            ),
    ensures
        r is Err <==> conflicting(instants@, event.id, event_exceptions@),
        r matches Ok(instances) ==> instances@ == resolved_instances(
            *event,
            instants@,
            event_exceptions@,
        ),
        r matches Err(fault) ==> fault.recurring_event_id == event.id && instants@.contains(
            fault.exception_date,
        ) && doubly_matched(event_exceptions@, event.id, fault.exception_date),
{
    match partition(instants, event.id, event_exceptions) {
        Ok(dispositions) => Ok(materialize(event, instants, &dispositions, event_exceptions)),
        Err(fault) => Err(fault),
    }
}

proof fn lemma_filter_split(
    s: Seq<Timestamp>,
    p: spec_fn(Timestamp) -> bool,
    q: spec_fn(Timestamp) -> bool,
)
    requires
        forall|t: Timestamp| #[trigger] p(t) == !q(t),
    ensures
        s.filter(p).len() + s.filter(q).len() == s.len(),
    decreases s.len(),
{
    if s.len() == 0 {
        assert(s =~= Seq::<Timestamp>::empty());
        lemma_filter_of_empty(p);
        lemma_filter_of_empty(q);
    } else {
        lemma_filter_split(s.drop_last(), p, q);
        assert(s =~= s.drop_last().push(s.last()));
        s.drop_last().lemma_filter_push(s.last(), p);
        s.drop_last().lemma_filter_push(s.last(), q);
    }
}

/// A cancellation removes the instants it names and no others: there are as
/// many instances as instants that no Cancelled exception names, which is the
/// number of instants less the number of cancelled ones. Where no exception is
/// a Modified one, the instances start at exactly the instants that are left,
/// in their order.
pub proof fn lemma_cancellation_removes_exactly(
    event: RecurringEvent,
    instants: Seq<Timestamp>,
    exceptions: Seq<RecurringEventException>,
)
    ensures
        resolved_instances(event, instants, exceptions).len() == instants.len() - cancelled_matches(
            instants,
            event.id,
            exceptions,
        ).len(),
        (forall|k: int|
            0 <= k < exceptions.len() ==> (#[trigger] exceptions[k]).exception_type
                != ExceptionType::Modified) ==> resolved_instances(
            event,
            instants,
            exceptions,
        ).map_values(|e: RecurringCalendarEvent| e.start_time) == instants.filter(
            survivor_pred(exceptions, event.id),
        ),
{
    let keep = survivor_pred(exceptions, event.id);
    let gone = cancelled_pred(exceptions, event.id);
    assert forall|t: Timestamp| #[trigger] keep(t) == !gone(t) by {}
    lemma_filter_split(instants, keep, gone);
    if forall|k: int|
        0 <= k < exceptions.len() ==> (#[trigger] exceptions[k]).exception_type
            != ExceptionType::Modified {
        let left = instants.filter(keep);
        let starts = resolved_instances(event, instants, exceptions).map_values(
            |e: RecurringCalendarEvent| e.start_time,
        );
        assert forall|i: int| 0 <= i < left.len() implies starts[i] == left[i] by {
            assert(!has_override(exceptions, event.id, left[i]));
        }
        assert(starts =~= left);
    }
}

/// An override never changes the definition that an instance belongs to, and
/// it leaves every field that it does not hold as the base instance has it.
pub proof fn lemma_override_keeps_the_rest(base: RecurringCalendarEvent, exception: RecurringEventException)
    ensures
        overridden(base, exception).recurring_event_id == base.recurring_event_id,
        exception.modified_title is None ==> overridden(base, exception).title == base.title,
        exception.modified_description is None ==> overridden(base, exception).description
            == base.description,
        exception.modified_location is None ==> overridden(base, exception).location
            == base.location,
        exception.modified_start_time is None ==> overridden(base, exception).start_time
            == base.start_time,
        exception.modified_end_time is None ==> overridden(base, exception).end_time
            == base.end_time,
        overridden(base, exception).group == base.group,
{
}

/// Every instance of a definition belongs to that definition, whatever the
/// exceptions are; and an instance records an exception's id exactly when a
/// Modified exception names its occurrence.
pub proof fn lemma_instances_belong_to_event(
    event: RecurringEvent,
    instants: Seq<Timestamp>,
    exceptions: Seq<RecurringEventException>,
)
    ensures
        forall|i: int|
            0 <= i < resolved_instances(event, instants, exceptions).len() ==> (
            #[trigger] resolved_instances(event, instants, exceptions)[i]).recurring_event_id
                == event.id,
        forall|i: int|
            0 <= i < resolved_instances(event, instants, exceptions).len() ==> ((
            #[trigger] resolved_instances(event, instants, exceptions)[i]).exception_id is Some
                <==> has_override(
                exceptions,
                event.id,
                instants.filter(survivor_pred(exceptions, event.id))[i],
            )),
{
}

/// The instants of `instants` that a Cancelled exception of the definition
/// removes, as a set.
pub open spec fn cancelled_dates(
    instants: Seq<Timestamp>,
    event_id: u128,
    exceptions: Seq<RecurringEventException>,
) -> Set<Timestamp> {
    Set::new(|t: Timestamp| instants.contains(t) && is_cancelled(exceptions, event_id, t))
}

/// The overrides of the definition: each instant of `instants` that a Modified
/// exception names, with that exception.
pub open spec fn overrides(
    instants: Seq<Timestamp>,
    event_id: u128,
    exceptions: Seq<RecurringEventException>,
) -> Map<Timestamp, RecurringEventException> {
    Map::new(
        |t: Timestamp| instants.contains(t) && has_override(exceptions, event_id, t),
        |t: Timestamp| exceptions[override_index(exceptions, event_id, t)],
    )
}

/// Where no two exceptions name the same instant, the dispositions split the
/// instants into the cancelled dates and the overrides: an instant is
/// cancelled exactly when it is among the cancelled dates, it is modified
/// exactly when it has an override, which is the exception that its
/// disposition holds, and no instant is both.
pub proof fn lemma_dispositions_split(
    instants: Seq<Timestamp>,
    event_id: u128,
    exceptions: Seq<RecurringEventException>,
    i: int,
)
    requires
        0 <= i < instants.len(),
        exceptions.len() <= usize::MAX,
        !conflicting(instants, event_id, exceptions),
    ensures
        disposition_of(exceptions, event_id, instants[i]) == Disposition::Cancelled
            <==> cancelled_dates(instants, event_id, exceptions).contains(instants[i]),
        disposition_of(exceptions, event_id, instants[i]) is Modified <==> overrides(
            instants,
            event_id,
            exceptions,
        ).dom().contains(instants[i]),
        disposition_of(exceptions, event_id, instants[i]) matches Disposition::Modified(k)
            ==> overrides(instants, event_id, exceptions)[instants[i]] == exceptions[k as int],
        !(cancelled_dates(instants, event_id, exceptions).contains(instants[i]) && overrides(
            instants,
            event_id,
            exceptions,
        ).dom().contains(instants[i])),
{
    assert(!doubly_matched(exceptions, event_id, instants[i]));
    assert(instants.contains(instants[i]));
    lemma_disposition_meaning(exceptions, event_id, instants[i]);
}

} // verus!
