//! The resolution of a whole query: every candidate definition is expanded
//! into the window and reconciled with the exceptions, the instances that are
//! left are given their groups, and all of them are handed out as one list.

use vstd::prelude::*;
use crate::event::{RecurringCalendarEvent, RecurringEvent};
use crate::exception::RecurringEventException;
use crate::group::RecurringEventGroup;
use crate::instant::Timestamp;
use crate::resolve::{
    conflicting, process_event_instances_and_exceptions, resolved_instances, IntegrityViolation,
    PendingInstance,
};
use crate::rrule::in_window;

verus! {

/// The longest duration that a definition can have, in seconds.
pub open spec fn longest_duration() -> int {
    u32::MAX as int
}

/// The occurrences of `event` in the window: those of its rule where the
/// definition is a candidate for the window, none where it is not.
pub open spec fn event_occurrences(event: RecurringEvent, start: Timestamp, end: Timestamp) -> Seq<
    Timestamp,
> {
    if event.is_candidate(start, end) {
        event.rrule.occurrences_within(start, end)
    } else {
        Seq::empty()
    }
}

/// Two exceptions of `event` name the same occurrence of the window.
pub open spec fn event_conflict(
    event: RecurringEvent,
    start: Timestamp,
    end: Timestamp,
    exceptions: Seq<RecurringEventException>,
) -> bool {
    conflicting(event_occurrences(event, start, end), event.id, exceptions)
}

/// Puts the group id `group_id` beside an instance.
pub open spec fn pending_fn(group_id: Option<u128>) -> spec_fn(RecurringCalendarEvent) -> PendingInstance {
    |instance: RecurringCalendarEvent| PendingInstance { group_id, instance }
}

/// The instances of `event` in the window, each with the group id of `event`.
pub open spec fn pending_for(
    event: RecurringEvent,
    start: Timestamp,
    end: Timestamp,
    exceptions: Seq<RecurringEventException>,
) -> Seq<PendingInstance> {
    resolved_instances(event, event_occurrences(event, start, end), exceptions).map_values(
        pending_fn(event.group_id),
    )
}

/// The instances of all `events` in the window, definition after definition.
pub open spec fn all_pending(
    events: Seq<RecurringEvent>,
    start: Timestamp,
    end: Timestamp,
    exceptions: Seq<RecurringEventException>,
) -> Seq<PendingInstance>
    decreases events.len(),
{
    if events.len() == 0 {
        Seq::empty()
    } else {
        all_pending(events.drop_last(), start, end, exceptions) + pending_for(
            events.last(),
            start,
            end,
            exceptions,
        )
    }
}

/// Some definition of `events` has two exceptions that name the same occurrence.
pub open spec fn any_conflict(
    events: Seq<RecurringEvent>,
    start: Timestamp,
    end: Timestamp,
    exceptions: Seq<RecurringEventException>,
) -> bool {
    exists|i: int|
        0 <= i < events.len() && event_conflict(#[trigger] events[i], start, end, exceptions)
}

/// Some instance of `pending` waits for the group `group_id`.
pub open spec fn wanted_group(pending: Seq<PendingInstance>, group_id: u128) -> bool {
    exists|i: int| 0 <= i < pending.len() && (#[trigger] pending[i]).group_id == Some(group_id)
}

/// The first group of `groups` whose id is `group_id`, if there is an id and
/// such a group.
pub open spec fn group_for(groups: Seq<RecurringEventGroup>, group_id: Option<u128>) -> Option<
    RecurringEventGroup,
>
    decreases groups.len(),
{
    if groups.len() == 0 {
        None
    } else {
        match group_for(groups.drop_last(), group_id) {
            Some(group) => Some(group),
            None => if group_id == Some(groups.last().id) {
                Some(groups.last())
            } else {
                None
            },
        }
    }
}

/// The instance with its group attached: the group that `group_for` finds.
/// Where it finds none, the instance stays as it is.
pub open spec fn attached(pending: PendingInstance, groups: Seq<RecurringEventGroup>) -> RecurringCalendarEvent {
    match group_for(groups, pending.group_id) {
        Some(group) => RecurringCalendarEvent {
            title: pending.instance.title,
            description: pending.instance.description,
            location: pending.instance.location,
            start_time: pending.instance.start_time,
            end_time: pending.instance.end_time,
            recurring_event_id: pending.instance.recurring_event_id,
            exception_id: pending.instance.exception_id,
            group: Some(group),
        },
        None => pending.instance,
    }
}

/// `attached` as a function of the instance, for given groups.
pub open spec fn attach_fn(groups: Seq<RecurringEventGroup>) -> spec_fn(PendingInstance) -> RecurringCalendarEvent {
    |pending: PendingInstance| attached(pending, groups)
}

/// The ids of the definitions, in order: the ids for which exceptions are fetched.
pub fn event_ids(events: &Vec<RecurringEvent>) -> (r: Vec<u128>)
    ensures
        r@ == events@.map_values(|e: RecurringEvent| e.id),
{
    let mut ids: Vec<u128> = Vec::new();
    let mut i: usize = 0;
    while i < events.len()
        invariant
            i <= events@.len(),
            ids@ == events@.take(i as int).map_values(|e: RecurringEvent| e.id),
        decreases events@.len() - i,
    {
        ids.push(events[i].id);
        proof {
            assert(events@.take(i + 1) =~= events@.take(i as int).push(events@[i as int]));
            assert(events@.take(i + 1).map_values(|e: RecurringEvent| e.id) =~= events@.take(
                i as int,
            ).map_values(|e: RecurringEvent| e.id).push(events@[i as int].id));
        }
        i += 1;
    }
    proof {
        assert(events@.take(events@.len() as int) =~= events@);
    }
    ids
}

/// Expands every candidate definition into `[start, end)` and reconciles its
/// occurrences with the exceptions. The instances of all definitions come back
/// as one list, definition after definition, each beside the group id of its
/// definition. A definition that is inactive or does not overlap the window
/// yields nothing. Where two exceptions of a definition name the same
/// occurrence, the whole resolution fails with the first such fault.
///
/// The end of the window must leave room for the longest duration, so that
/// the end of every instance can be told.
pub fn resolve_events(
    events: &Vec<RecurringEvent>,
    start: Timestamp,
    end: Timestamp,
    exceptions: &Vec<RecurringEventException>,
) -> (r: Result<Vec<PendingInstance>, IntegrityViolation>)
    requires
        end.can_shift(longest_duration()),
    ensures
        r is Err <==> any_conflict(events@, start, end, exceptions@),
        r matches Ok(pending) ==> pending@ == all_pending(events@, start, end, exceptions@),
        r matches Err(fault) ==> exists|i: int|
            0 <= i < events@.len() && (#[trigger] events@[i]).id == fault.recurring_event_id
                && event_conflict(events@[i], start, end, exceptions@),
{
    let mut out: Vec<PendingInstance> = Vec::new();
    let mut i: usize = 0;
    proof {
        assert(events@.take(0) =~= Seq::<RecurringEvent>::empty());
    }
    while i < events.len()
        invariant
            i <= events@.len(),
            end.can_shift(longest_duration()),
            out@ == all_pending(events@.take(i as int), start, end, exceptions@),
            forall|j: int|
                0 <= j < i ==> !event_conflict(#[trigger] events@[j], start, end, exceptions@),
        decreases events@.len() - i,
    {
        let event = &events[i];
        proof {
            assert(events@.take(i + 1).drop_last() =~= events@.take(i as int));
            assert(events@.take(i + 1).last() == events@[i as int]);
        }
        if event.overlaps(start, end) {
            let instants = event.rrule.all_within_period(start, end);
            assert forall|j: int| 0 <= j < instants@.len() implies (#[trigger] instants@[j]).can_shift(
                event.event_duration_seconds.0 as int,
            ) by {
                assert(in_window(instants@[j], event.rrule@.start, start, end));
            }
            match process_event_instances_and_exceptions(event, &instants, exceptions) {
                Ok(instances) => {
                    let ghost before = out@;
                    let ghost made = instances@;
                    let group_id = event.group_id;
                    for instance in it: instances
                        invariant
                            it.seq() == made,
                            out@ == before + made.take(it.index() as int).map_values(
                                pending_fn(group_id),
                            ),
                    {
                        proof {
                            assert(made.take(it.index() + 1) =~= made.take(it.index() as int).push(
                                instance,
                            ));
                            assert(made.take(it.index() + 1).map_values(pending_fn(group_id))
                                =~= made.take(it.index() as int).map_values(
                                pending_fn(group_id),
                            ).push(PendingInstance { group_id, instance }));
                        }
                        out.push(PendingInstance { group_id, instance });
                    }
                    proof {
                        assert(made.take(made.len() as int) =~= made);
                    }
                },
                Err(fault) => {
                    return Err(fault);
                },
            }
        } else {
            proof {
                lemma_nothing_resolved(*event, exceptions@);
                assert(out@ + Seq::<PendingInstance>::empty() =~= out@);
            }
        }
        i += 1;
    }
    proof {
        assert(events@.take(events@.len() as int) =~= events@);
    }
    Ok(out)
}

proof fn lemma_nothing_resolved(event: RecurringEvent, exceptions: Seq<RecurringEventException>)
    ensures
        resolved_instances(event, Seq::empty(), exceptions).map_values(pending_fn(event.group_id))
            =~= Seq::<PendingInstance>::empty(),
        !conflicting(Seq::empty(), event.id, exceptions),
{
    reveal(Seq::filter);
}

/// The group ids for which groups are fetched: each id that some instance
/// waits for, once. A definition without instances asks for no group.
pub fn needed_group_ids(pending: &Vec<PendingInstance>) -> (r: Vec<u128>)
    ensures
        r@.no_duplicates(),
        forall|g: u128| r@.contains(g) <==> wanted_group(pending@, g),
{
    let mut ids: Vec<u128> = Vec::new();
    let mut i: usize = 0;
    while i < pending.len()
        invariant
            i <= pending@.len(),
            ids@.no_duplicates(),
            forall|g: u128| ids@.contains(g) <==> wanted_group(pending@.take(i as int), g),
        decreases pending@.len() - i,
    {
        let ghost before = ids@;
        match pending[i].group_id {
            Some(id) => {
                if !holds(&ids, id) {
                    ids.push(id);
                    assert forall|g: u128| ids@.contains(g) <==> before.contains(g) || g == id by {
                        if before.contains(g) {
                            let j = choose|j: int| 0 <= j < before.len() && before[j] == g;
                            assert(ids@[j] == g);
                        }
                        if g == id {
                            assert(ids@[before.len() as int] == g);
                        }
                    }
                }
            },
            None => {},
        }
        proof {
            let prefix = pending@.take(i as int);
            let longer = pending@.take(i + 1);
            assert(longer =~= prefix.push(pending@[i as int]));
            assert(forall|g: u128|
                ids@.contains(g) <==> before.contains(g) || pending@[i as int].group_id == Some(g));
            assert forall|g: u128| ids@.contains(g) <==> wanted_group(longer, g) by {
                assert(before.contains(g) <==> wanted_group(prefix, g));
                assert(ids@.contains(g) <==> before.contains(g) || pending@[i as int].group_id
                    == Some(g));
                if wanted_group(prefix, g) {
                    let j = choose|j: int| 0 <= j < prefix.len() && (#[trigger] prefix[j]).group_id
                        == Some(g);
                    assert(longer[j].group_id == Some(g));
                }
                if pending@[i as int].group_id == Some(g) {
                    assert(longer[i as int].group_id == Some(g));
                }
                if wanted_group(longer, g) {
                    let j = choose|j: int| 0 <= j < longer.len() && (#[trigger] longer[j]).group_id
                        == Some(g);
                    if j < i {
                        assert(prefix[j].group_id == Some(g));
                    }
                }
            }
        }
        i += 1;
    }
    proof {
        assert(pending@.take(pending@.len() as int) =~= pending@);
    }
    ids
}

fn holds(ids: &Vec<u128>, id: u128) -> (r: bool)
    ensures
        r == ids@.contains(id),
{
    let mut i: usize = 0;
    while i < ids.len()
        invariant
            i <= ids@.len(),
            forall|j: int| 0 <= j < i ==> ids@[j] != id,
        decreases ids@.len() - i,
    {
        if ids[i] == id {
            return true;
        }
        i += 1;
    }
    false
}

/// A copy of the first group whose id is `group_id`, if there is an id and
/// such a group.
pub fn find_group(groups: &Vec<RecurringEventGroup>, group_id: Option<u128>) -> (r: Option<
    RecurringEventGroup,
>)
    ensures
        r == group_for(groups@, group_id),
{
    let id = match group_id {
        Some(id) => id,
        None => {
            proof {
                lemma_no_id_no_group(groups@);
            }
            return None;
        },
    };
    let mut found: Option<usize> = None;
    let mut i: usize = 0;
    proof {
        assert(groups@.take(0) =~= Seq::<RecurringEventGroup>::empty());
    }
    while i < groups.len()
        invariant
            i <= groups@.len(),
            group_id == Some(id),
            found matches Some(at) ==> at < i,
            group_for(groups@.take(i as int), group_id) == (match found {
                Some(at) => Some(groups@[at as int]),
                None => None,
            }),
        decreases groups@.len() - i,
    {
        proof {
            assert(groups@.take(i + 1).drop_last() =~= groups@.take(i as int));
            assert(groups@.take(i + 1).last() == groups@[i as int]);
        }
        if found.is_none() && groups[i].id == id {
            found = Some(i);
        }
        i += 1;
    }
    proof {
        assert(groups@.take(groups@.len() as int) =~= groups@);
    }
    match found {
        Some(at) => Some(groups[at].duplicate()),
        None => None,
    }
}

proof fn lemma_no_id_no_group(groups: Seq<RecurringEventGroup>)
    ensures
        group_for(groups, None) is None,
    decreases groups.len(),
{
    if groups.len() > 0 {
        lemma_no_id_no_group(groups.drop_last());
    }
}

/// Gives each instance its group: the first of `groups` whose id is the group
/// id of the instance's definition. An instance whose definition has no group,
/// or whose group is not among `groups`, gets none, which is no error. The
/// instances come back in their order.
pub fn attach_groups(pending: Vec<PendingInstance>, groups: &Vec<RecurringEventGroup>) -> (r: Vec<
    RecurringCalendarEvent,
>)
    ensures
        r@ == pending@.map_values(attach_fn(groups@)),
{
    let ghost all = pending@;
    let mut out: Vec<RecurringCalendarEvent> = Vec::new();
    for waiting in it: pending
        invariant
            it.seq() == all,
            out@ == all.take(it.index() as int).map_values(attach_fn(groups@)),
    {
        proof {
            assert(all.take(it.index() + 1) =~= all.take(it.index() as int).push(waiting));
            assert(all.take(it.index() + 1).map_values(attach_fn(groups@)) =~= all.take(
                it.index() as int,
            ).map_values(attach_fn(groups@)).push(attached(waiting, groups@)));
        }
        let mut instance = waiting.instance;
        match find_group(groups, waiting.group_id) {
            Some(group) => {
                instance.group = Some(group);
            },
            None => {},
        }
        out.push(instance);
    }
    proof {
        assert(all.take(all.len() as int) =~= all);
    }
    out
}

/// Attaching groups changes nothing but the group of an instance, and it
/// neither adds nor drops an instance.
pub proof fn lemma_attach_keeps_instances(pending: Seq<PendingInstance>, groups: Seq<RecurringEventGroup>)
    ensures
        pending.map_values(attach_fn(groups)).len() == pending.len(),
        forall|i: int|
            0 <= i < pending.len() ==> {
                let done = #[trigger] pending.map_values(attach_fn(groups))[i];
                &&& done.title == pending[i].instance.title
                &&& done.description == pending[i].instance.description
                &&& done.location == pending[i].instance.location
                &&& done.start_time == pending[i].instance.start_time
                &&& done.end_time == pending[i].instance.end_time
                &&& done.recurring_event_id == pending[i].instance.recurring_event_id
                &&& done.exception_id == pending[i].instance.exception_id
            },
{
}

} // verus!
