//! Groups of recurring events, and the checks on a new group.

use vstd::prelude::*;
use vstd::string::*;
use crate::instant::Timestamp;

verus! {

/// A group of recurring events. A group may hold defaults for the activity and
/// the recurrence bounds of its events.
#[derive(Debug, Clone)]
pub struct RecurringEventGroup {
    pub id: u128,
    pub user_id: u128,
    pub name: String,
    pub description: Option<String>,
    /// The colour that stands for the group.
    pub color: i64,
    pub group_is_active: Option<bool>,
    pub group_recurrence_start: Option<Timestamp>,
    pub group_recurrence_end: Option<Timestamp>,
}

/// A group that has not been stored yet.
#[derive(Debug, Clone)]
pub struct NewRecurringEventGroup {
    pub name: String,
    pub description: Option<String>,
    pub color: i64,
    pub group_is_active: Option<bool>,
    pub group_recurrence_start: Option<Timestamp>,
    pub group_recurrence_end: Option<Timestamp>,
}

/// The new state of a stored group.
#[derive(Debug, Clone)]
pub struct UpdatedRecurringEventGroup {
    pub id: u128,
    pub name: String,
    pub description: Option<String>,
    pub color: i64,
    pub group_is_active: Option<bool>,
    pub group_recurrence_start: Option<Timestamp>,
    pub group_recurrence_end: Option<Timestamp>,
}

/// What is wrong with a new group, field by field.
#[derive(Debug, Clone, Copy, PartialEq, Eq, Structural)]
pub struct GroupErrors {
    /// The name is empty or holds white space only.
    pub name_is_empty: bool,
    /// The colour is zero or negative.
    pub color_not_positive: bool,
    /// Both recurrence bounds are given and the start is not before the end.
    pub start_not_before_end: bool,
}

/// `c` is white space: a character with the Unicode property `White_Space`.
pub open spec fn is_white_space(c: char) -> bool {
    ||| ('\u{9}' <= c && c <= '\u{d}')
    ||| c == ' '
    ||| c == '\u{85}'
    ||| c == '\u{a0}'
    ||| c == '\u{1680}'
    ||| ('\u{2000}' <= c && c <= '\u{200a}')
    ||| c == '\u{2028}'
    ||| c == '\u{2029}'
    ||| c == '\u{202f}'
    ||| c == '\u{205f}'
    ||| c == '\u{3000}'
}

/// `text` is empty once the white space at both ends is taken away: all of it
/// is white space.
pub open spec fn is_blank(text: Seq<char>) -> bool {
    forall|i: int| 0 <= i < text.len() ==> is_white_space(#[trigger] text[i])
}

/// The copy of an optional text.
pub fn copy_text(text: &Option<String>) -> (r: Option<String>)
    ensures
        r == *text,
{
    match text {
        Some(t) => Some(t.clone()),
        None => None,
    }
}

impl GroupErrors {
    /// No field is wrong.
    pub open spec fn none(self) -> bool {
        !self.name_is_empty && !self.color_not_positive && !self.start_not_before_end
    }

    /// Whether no field is wrong.
    pub fn is_empty(&self) -> (r: bool)
        ensures
            r == self.none(),
    {
        !self.name_is_empty && !self.color_not_positive && !self.start_not_before_end
    }
}

impl RecurringEventGroup {
    /// A copy of the group, equal to it in every field.
    pub fn duplicate(&self) -> (r: RecurringEventGroup)
        ensures
            r == *self,
    {
        RecurringEventGroup {
            id: self.id,
            user_id: self.user_id,
            name: self.name.clone(),
            description: copy_text(&self.description),
            color: self.color,
            group_is_active: self.group_is_active,
            group_recurrence_start: self.group_recurrence_start,
            group_recurrence_end: self.group_recurrence_end,
        }
    }
}

fn white_space(c: char) -> (r: bool)
    ensures
        r == is_white_space(c),
{
    ('\u{9}' <= c && c <= '\u{d}') || c == ' ' || c == '\u{85}' || c == '\u{a0}' || c == '\u{1680}'
        || ('\u{2000}' <= c && c <= '\u{200a}') || c == '\u{2028}' || c == '\u{2029}' || c
        == '\u{202f}' || c == '\u{205f}' || c == '\u{3000}'
}

/// Whether `text` holds nothing but white space.
pub fn blank(text: &str) -> (r: bool)
    ensures
        r == is_blank(text@),
{
    let n = text.unicode_len();
    let mut i: usize = 0;
    while i < n
        invariant
            n == text@.len(),
            i <= n,
            forall|j: int| 0 <= j < i ==> is_white_space(#[trigger] text@[j]),
        decreases n - i,
    {
        if !white_space(text.get_char(i)) {
            return false;
        }
        i += 1;
    }
    true
}

impl NewRecurringEventGroup {
    /// The errors of the group as a value: the name must not be blank, the
    /// colour must be positive, and a start that comes with an end must lie
    /// before it.
    pub open spec fn errors(self) -> GroupErrors {
        GroupErrors {
            name_is_empty: is_blank(self.name@),
            color_not_positive: self.color <= 0,
            start_not_before_end: match (self.group_recurrence_start, self.group_recurrence_end) {
                (Some(start), Some(end)) => !start.before(end),
                _ => false,
            },
        }
    }

    /// Checks the fields of a new group. The group is accepted exactly when no
    /// error is reported.
    pub fn validate_new_group(&self) -> (r: Result<(), GroupErrors>)
        ensures
            r is Ok <==> self.errors().none(),
            r matches Err(e) ==> e == self.errors(),
    {
        let start_not_before_end = match (self.group_recurrence_start, self.group_recurrence_end) {
            (Some(start), Some(end)) => !start.is_before(&end),
            _ => false,
        };
        let errors = GroupErrors {
            name_is_empty: blank(self.name.as_str()),
            color_not_positive: self.color <= 0,
            start_not_before_end,
        };
        if errors.is_empty() {
            Ok(())
        } else {
            Err(errors)
        }
    }
}

/// A group together with the number of its events.
#[derive(Debug)]
pub struct GroupWithCount {
    pub group: RecurringEventGroup,
    pub event_count: usize,
}

/// A group as it is shown: the group and the number of its recurring events.
#[derive(Debug)]
pub struct RecurringEventGroupResponse {
    pub group: RecurringEventGroup,
    pub recurring_events: usize,
}

/// What is known of an event when it is moved between groups.
#[derive(Debug, Clone, Copy, PartialEq, Eq, Structural)]
pub struct EventInfo {
    pub id: u128,
    pub group_id: Option<u128>,
    pub user_id: u128,
}

/// The colour of the group that stands for the events without a group.
pub const UNGROUPED_COLOR: i64 = 0xffff_ffff;

/// `group` is the group that stands for the events of `user_id` that belong
/// to no group: it has the id 0, the name `Ungrouped`, a description that says
/// so, the colour `UNGROUPED_COLOR` and no defaults.
pub open spec fn is_ungrouped(group: RecurringEventGroup, user_id: u128) -> bool {
    &&& group.id == 0
    &&& group.user_id == user_id
    &&& group.name@ == "Ungrouped"@
    &&& group.description matches Some(text) && text@ == "Events that don't belong to any group"@
    &&& group.color == UNGROUPED_COLOR
    &&& group.group_is_active is None
    &&& group.group_recurrence_start is None
    &&& group.group_recurrence_end is None
}

/// The group that stands for the events of `user_id` that belong to no group.
pub fn ungrouped_group(user_id: u128) -> (r: RecurringEventGroup)
    ensures
        is_ungrouped(r, user_id),
{
    RecurringEventGroup {
        id: 0,
        user_id,
        name: String::from_str("Ungrouped"),
        description: Some(String::from_str("Events that don't belong to any group")),
        color: UNGROUPED_COLOR,
        group_is_active: None,
        group_recurrence_start: None,
        group_recurrence_end: None,
    }
}

/// The groups of a user as they are shown: each group with the number of its
/// events, in the order given, and behind them the group that stands for the
/// events without a group, with their number.
pub fn group_responses(groups: Vec<GroupWithCount>, ungrouped_events: usize, user_id: u128) -> (r: Vec<
    RecurringEventGroupResponse,
>)
    ensures
        r@.len() == groups@.len() + 1,
        forall|i: int|
            0 <= i < groups@.len() ==> (#[trigger] r@[i]).group == groups@[i].group
                && r@[i].recurring_events == groups@[i].event_count,
        is_ungrouped(r@[groups@.len() as int].group, user_id),
        r@[groups@.len() as int].recurring_events == ungrouped_events,
{
    let ghost all = groups@;
    let mut out: Vec<RecurringEventGroupResponse> = Vec::new();
    for counted in it: groups
        invariant
            it.seq() == all,
            out@.len() == it.index(),
            forall|i: int|
                0 <= i < it.index() ==> (#[trigger] out@[i]).group == all[i].group
                    && out@[i].recurring_events == all[i].event_count,
    {
        out.push(
            RecurringEventGroupResponse {
                group: counted.group,
                recurring_events: counted.event_count,
            },
        );
    }
    out.push(
        RecurringEventGroupResponse {
            group: ungrouped_group(user_id),
            recurring_events: ungrouped_events,
        },
    );
    out
}

/// An event may be moved to the group `new_group_id` when that group exists
/// for the user, the event is known, and the event is not in that group yet.
pub open spec fn move_allowed(target_exists: bool, event: Option<EventInfo>, new_group_id: u128) -> bool {
    target_exists && (match event {
        Some(info) => info.group_id != Some(new_group_id),
        None => false,
    })
}

/// Whether an event may be moved to the group `new_group_id`.
pub fn may_move_event(target_exists: bool, event: Option<EventInfo>, new_group_id: u128) -> (r: bool)
    ensures
        r == move_allowed(target_exists, event, new_group_id),
{
    if !target_exists {
        return false;
    }
    match event {
        Some(info) => match info.group_id {
            Some(current) => current != new_group_id,
            None => true,
        },
        None => false,
    }
}

} // verus!
