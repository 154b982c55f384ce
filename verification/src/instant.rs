//! Instants on the UTC time line and their normalisation from local wall-clock time.

use vstd::prelude::*;

verus! {

/// An instant on the UTC time line: whole seconds since the Unix epoch and the
/// nanoseconds within that second. Two instants are the same exactly when both
/// fields agree, so comparing them never rounds.
#[derive(Clone, Copy, Debug, PartialEq, Eq, Structural, PartialOrd, Ord, Hash)]
pub struct Timestamp {
    pub secs: i64,
    pub nanos: u32,
}

/// The number of seconds in `offset_minutes` minutes.
pub open spec fn offset_seconds(offset_minutes: i32) -> int {
    offset_minutes * 60
}

impl Timestamp {
    /// `self` lies strictly earlier on the time line than `other`.
    pub open spec fn before(self, other: Timestamp) -> bool {
        self.secs < other.secs || (self.secs == other.secs && self.nanos < other.nanos)
    }

    /// Moving `self` by `delta` seconds stays within what an `i64` count of seconds can hold.
    pub open spec fn can_shift(self, delta: int) -> bool {
        i64::MIN <= self.secs + delta <= i64::MAX
    }

    /// `self` moved by `delta` seconds; the nanoseconds are kept.
    pub open spec fn shifted(self, delta: int) -> Timestamp {
        Timestamp { secs: (self.secs + delta) as i64, nanos: self.nanos }
    }

    /// The instant `secs` whole seconds after the Unix epoch.
    pub fn from_secs(secs: i64) -> (r: Timestamp)
        ensures
            r == (Timestamp { secs, nanos: 0 }),
    {
        Timestamp { secs, nanos: 0 }
    }

    /// Whether `self` is strictly earlier than `other`.
    pub fn is_before(&self, other: &Timestamp) -> (r: bool)
        ensures
            r == self.before(*other),
    {
        self.secs < other.secs || (self.secs == other.secs && self.nanos < other.nanos)
    }

    /// `self` moved by `delta` seconds, or `None` where the result has no `i64` count of seconds.
    pub fn checked_add_seconds(self, delta: i64) -> (r: Option<Timestamp>)
        ensures
            r == (if self.can_shift(delta as int) {
                Some(self.shifted(delta as int))
            } else {
                None
            }),
    {
        if delta >= 0 {
            if self.secs <= i64::MAX - delta {
                Some(Timestamp { secs: self.secs + delta, nanos: self.nanos })
            } else {
                None
            }
        } else {
            if self.secs >= i64::MIN - delta {
                Some(Timestamp { secs: self.secs + delta, nanos: self.nanos })
            } else {
                None
            }
        }
    }

    /// `self` moved by `delta` seconds.
    pub fn add_seconds(self, delta: i64) -> (r: Timestamp)
        requires
            self.can_shift(delta as int),
        ensures
            r == self.shifted(delta as int),
    {
        Timestamp { secs: self.secs + delta, nanos: self.nanos }
    }
}

/// Turns a wall-clock reading taken `offset_minutes` minutes ahead of UTC into
/// the UTC instant it denotes: the reading minus the offset. `None` where that
/// instant has no `i64` count of seconds.
pub fn normalize(naive: Timestamp, offset_minutes: i32) -> (r: Option<Timestamp>)
    ensures
        r == (if naive.can_shift(-offset_seconds(offset_minutes)) {
            Some(naive.shifted(-offset_seconds(offset_minutes)))
        } else {
            None
        }),
{
    let minutes: i64 = offset_minutes as i64;
    naive.checked_add_seconds(-(minutes * 60))
}

/// The wall-clock reading, `offset_minutes` minutes ahead of UTC, of the instant
/// `utc`: the instant plus the offset. `None` where it has no `i64` count of seconds.
pub fn localize(utc: Timestamp, offset_minutes: i32) -> (r: Option<Timestamp>)
    ensures
        r == (if utc.can_shift(offset_seconds(offset_minutes)) {
            Some(utc.shifted(offset_seconds(offset_minutes)))
        } else {
            None
        }),
{
    let minutes: i64 = offset_minutes as i64;
    utc.checked_add_seconds(minutes * 60)
}

/// Normalising a wall-clock reading and adding the offset back gives the
/// reading again, exactly: whenever `normalize` yields an instant, `localize`
/// of that instant with the same offset yields the reading.
pub proof fn lemma_normalize_round_trip(naive: Timestamp, offset_minutes: i32)
    requires
        naive.can_shift(-offset_seconds(offset_minutes)),
    ensures
        naive.shifted(-offset_seconds(offset_minutes)).can_shift(offset_seconds(offset_minutes)),
        naive.shifted(-offset_seconds(offset_minutes)).shifted(offset_seconds(offset_minutes))
            == naive,
{
}

/// The order of instants is strict and total: of two different instants exactly
/// one lies before the other, and none lies before itself.
pub proof fn lemma_before_is_total_order(a: Timestamp, b: Timestamp, c: Timestamp)
    ensures
        !a.before(a),
        a != b ==> (a.before(b) <==> !b.before(a)),
        a.before(b) && b.before(c) ==> a.before(c),
{
}

} // verus!
