//! One resolution request as a state machine. The machine decides; whoever
//! drives it does the fetching. Each step takes what was fetched and says what
//! to do next: fetch the definitions of the window, fetch the exceptions of
//! those definitions, fetch the groups of the instances that are left, and
//! hand out the instances.

use vstd::prelude::*;
use crate::event::{RecurringCalendarEvent, RecurringEvent};
use crate::exception::RecurringEventException;
use crate::group::RecurringEventGroup;
use crate::instant::Timestamp;
use crate::pipeline::{
    all_pending, any_conflict, attach_fn, attach_groups, event_conflict, event_ids,
    longest_duration, needed_group_ids, resolve_events, wanted_group,
};
use crate::resolve::{IntegrityViolation, PendingInstance};

verus! {

/// Why a resolution ended without instances.
#[derive(Debug, Clone, Copy, PartialEq, Eq, Structural)]
pub enum ResolutionError {
    /// Two exceptions of one definition name the same occurrence: the stored
    /// data is at fault.
    IntegrityViolation(IntegrityViolation),
    /// A fetch failed. The request may be issued again as a whole.
    CollaboratorFailure,
    /// The machine was handed something that it had not asked for.
    OutOfTurn,
}

/// Where a resolution stands.
#[derive(Debug)]
pub enum ResolutionState {
    /// The definitions of the window were asked for.
    AwaitingDefinitions { start: Timestamp, end: Timestamp },
    /// The exceptions of these definitions were asked for.
    AwaitingExceptions { start: Timestamp, end: Timestamp, events: Vec<RecurringEvent> },
    /// The groups of these instances were asked for.
    AwaitingGroups { pending: Vec<PendingInstance> },
    /// The resolution has ended; nothing more is asked.
    Finished,
}

/// What the driver hands to the machine.
#[derive(Debug)]
pub enum Fetched {
    Definitions(Vec<RecurringEvent>),
    Exceptions(Vec<RecurringEventException>),
    Groups(Vec<RecurringEventGroup>),
    /// The fetch that was asked for failed.
    Failure,
    /// The caller gave the request up.
    Cancellation,
}

/// What the machine asks of the driver.
#[derive(Debug)]
pub enum Action {
    /// Fetch the active definitions of the owner that overlap the window.
    FetchDefinitions { owner_id: u128, start: Timestamp, end: Timestamp },
    /// Fetch the exceptions of the definitions with these ids.
    FetchExceptions(Vec<u128>),
    /// Fetch the groups with these ids.
    FetchGroups(Vec<u128>),
    /// Hand these instances to the caller: the resolution succeeded.
    Emit(Vec<RecurringCalendarEvent>),
    /// Report the error to the caller.
    Fail(ResolutionError),
    /// Do nothing more: the request was given up, and nothing is handed out.
    Stop,
}

impl ResolutionState {
    /// The window that the state holds, if any, leaves room behind its end
    /// for the longest duration.
    pub open spec fn well_formed(self) -> bool {
        match self {
            ResolutionState::AwaitingDefinitions { start, end } => end.can_shift(longest_duration()),
            ResolutionState::AwaitingExceptions { start, end, events } => end.can_shift(
                longest_duration(),
            ),
            _ => true,
        }
    }
}

/// What a step owes: the state and the action that follow from a state and
/// from what was fetched.
pub open spec fn follows(
    state: ResolutionState,
    fetched: Fetched,
    next: ResolutionState,
    action: Action,
) -> bool {
    match (state, fetched) {
        (_, Fetched::Cancellation) => next is Finished && action is Stop,
        (ResolutionState::Finished, _) => next is Finished && action == Action::Fail(
            ResolutionError::OutOfTurn,
        ),
        (_, Fetched::Failure) => next is Finished && action == Action::Fail(
            ResolutionError::CollaboratorFailure,
        ),
        (ResolutionState::AwaitingDefinitions { start, end }, Fetched::Definitions(found)) => {
            &&& next == (ResolutionState::AwaitingExceptions { start, end, events: found })
            &&& action matches Action::FetchExceptions(ids)
            &&& ids@ == found@.map_values(|e: RecurringEvent| e.id)
        },
        (ResolutionState::AwaitingExceptions { start, end, events }, Fetched::Exceptions(found)) => {
            if any_conflict(events@, start, end, found@) {
                &&& next is Finished
                &&& action matches Action::Fail(ResolutionError::IntegrityViolation(fault))
                &&& exists|i: int|
                    0 <= i < events@.len() && (#[trigger] events@[i]).id
                        == fault.recurring_event_id && event_conflict(
                        events@[i],
                        start,
                        end,
                        found@,
                    )
            } else {
                &&& next matches ResolutionState::AwaitingGroups { pending }
                &&& pending@ == all_pending(events@, start, end, found@)
                &&& action matches Action::FetchGroups(ids)
                &&& ids@.no_duplicates()
                &&& forall|g: u128| ids@.contains(g) <==> wanted_group(pending@, g)
            }
        },
        (ResolutionState::AwaitingGroups { pending }, Fetched::Groups(found)) => {
            &&& next is Finished
            &&& action matches Action::Emit(instances)
            &&& instances@ == pending@.map_values(attach_fn(found@))
        },
        _ => next is Finished && action == Action::Fail(ResolutionError::OutOfTurn),
    }
}

/// Starts the resolution of the window `[start, end)` for the owner: asks for
/// the definitions. The end of the window must leave room for the longest
/// duration.
pub fn begin(owner_id: u128, start: Timestamp, end: Timestamp) -> (r: (ResolutionState, Action))
    requires
        end.can_shift(longest_duration()),
    ensures
        r.0 == (ResolutionState::AwaitingDefinitions { start, end }),
        r.1 == (Action::FetchDefinitions { owner_id, start, end }),
        r.0.well_formed(),
{
    (
        ResolutionState::AwaitingDefinitions { start, end },
        Action::FetchDefinitions { owner_id, start, end },
    )
}

/// Takes what was fetched and decides what comes next. A cancellation ends
/// the resolution at once, with nothing handed out. A failed fetch ends it
/// with that failure. Two exceptions for one occurrence end it with the
/// integrity violation. Otherwise the resolution goes on to its next fetch,
/// and after the last one hands out the instances.
pub fn step(state: ResolutionState, fetched: Fetched) -> (r: (ResolutionState, Action))
    requires
        state.well_formed(),
    ensures
        follows(state, fetched, r.0, r.1),
        r.0.well_formed(),
{
    match (state, fetched) {
        (_, Fetched::Cancellation) => (ResolutionState::Finished, Action::Stop),
        (ResolutionState::Finished, _) => (
            ResolutionState::Finished,
            Action::Fail(ResolutionError::OutOfTurn),
        ),
        (_, Fetched::Failure) => (
            ResolutionState::Finished,
            Action::Fail(ResolutionError::CollaboratorFailure),
        ),
        (ResolutionState::AwaitingDefinitions { start, end }, Fetched::Definitions(found)) => {
            let ids = event_ids(&found);
            (ResolutionState::AwaitingExceptions { start, end, events: found }, Action::FetchExceptions(ids))
        },
        (ResolutionState::AwaitingExceptions { start, end, events }, Fetched::Exceptions(found)) => {
            match resolve_events(&events, start, end, &found) {
                Ok(pending) => {
                    let ids = needed_group_ids(&pending);
                    (ResolutionState::AwaitingGroups { pending }, Action::FetchGroups(ids))
                },
                Err(fault) => (
                    ResolutionState::Finished,
                    Action::Fail(ResolutionError::IntegrityViolation(fault)),
                ),
            }
        },
        (ResolutionState::AwaitingGroups { pending }, Fetched::Groups(found)) => {
            let instances = attach_groups(pending, &found);
            (ResolutionState::Finished, Action::Emit(instances))
        },
        _ => (ResolutionState::Finished, Action::Fail(ResolutionError::OutOfTurn)),
    }
}

/// Once a request is given up, the machine hands out nothing: whatever it
/// held, the step ends in `Stop`, the state is `Finished`, and every later
/// step can only report that it was called out of turn.
pub proof fn lemma_cancellation_discards(state: ResolutionState, next: ResolutionState, action: Action)
    requires
        follows(state, Fetched::Cancellation, next, action),
    ensures
        next is Finished,
        action is Stop,
        forall|later: Fetched, after: ResolutionState, then: Action|
            follows(next, later, after, then) ==> after is Finished && !(then is Emit),
{
}

} // verus!
