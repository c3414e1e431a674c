//! Instants and their order. The library reads no clock: every event comes
//! with the time at which it arrived.

use vstd::prelude::*;

verus! {

/// An instant of UTC: the whole seconds since the Unix epoch and the
/// nanoseconds past that second.
#[derive(Clone, Copy, Debug, PartialEq, Eq, Structural)]
pub struct Timestamp {
    pub secs: i64,
    pub nanos: u32,
}

impl Timestamp {
    /// `self` is not later than `other`: seconds decide, nanoseconds break
    /// the tie.
    pub open spec fn le(self, other: Timestamp) -> bool {
        self.secs < other.secs || (self.secs == other.secs && self.nanos <= other.nanos)
    }

    /// Whether `self` is not later than `other`.
    pub fn not_after(&self, other: &Timestamp) -> (answer: bool)
        ensures
            answer == self.le(*other),
    {
        self.secs < other.secs || (self.secs == other.secs && self.nanos <= other.nanos)
    }
}

/// Whether each instant of `times` is not later than the one after it.
pub open spec fn non_decreasing(times: Seq<Timestamp>) -> bool {
    forall|i: int, j: int| 0 <= i <= j < times.len() ==> times[i].le(times[j])
}

/// Whether each of `events`, which are paired with the times at which they
/// arrived, came no earlier than the one before it.
pub open spec fn in_order<E>(events: Seq<(E, Timestamp)>) -> bool {
    forall|i: int, j: int| 0 <= i <= j < events.len() ==> events[i].1.le(events[j].1)
}

/// What is left of events that arrived in order, once the first is taken
/// away, arrived in order.
pub proof fn lemma_rest_in_order<E>(events: Seq<(E, Timestamp)>)
    requires
        in_order(events),
        events.len() > 0,
    ensures
        in_order(events.drop_first()),
        events.len() > 1 ==> events[0].1.le(events.drop_first()[0].1),
        events.len() > 1 ==> events.drop_first().last() == events.last(),
{
    let rest = events.drop_first();
    assert forall|i: int, j: int| 0 <= i <= j < rest.len() implies rest[i].1.le(rest[j].1) by {
        assert(rest[i] == events[i + 1]);
        assert(rest[j] == events[j + 1]);
    }
    if events.len() > 1 {
        assert(rest[0] == events[1]);
    }
}

} // verus!
