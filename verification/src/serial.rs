//! Serials of the Wayland protocol, which grow by one and wrap around.

use vstd::prelude::*;

verus! {

/// Distance from which on two serials are taken to lie on different sides of a wrap-around.
pub const WRAP_DISTANCE: u32 = 0x7fff_ffff;

/// A serial number of a configure.
#[derive(Debug, Clone, Copy, PartialEq, Eq, Structural)]
pub struct Serial(pub u32);

impl Serial {
    /// How far apart two serials are as numbers.
    pub open spec fn distance(self, other: Serial) -> int {
        if self.0 > other.0 {
            self.0 - other.0
        } else {
            other.0 - self.0
        }
    }

    /// Whether this serial was given out after `other`, or is the same one.
    ///
    /// Serials that are close to each other compare as numbers. Serials that are far apart have a
    /// wrap-around between them, so there the smaller number is the newer one.
    pub open spec fn no_older_than(self, other: Serial) -> bool {
        if self.distance(other) < WRAP_DISTANCE {
            other.0 <= self.0
        } else {
            self.0 <= other.0
        }
    }

    /// Tells whether this serial was given out after `other`, or is the same one.
    pub fn is_no_older_than(self, other: Serial) -> (newer: bool)
        ensures
            newer == self.no_older_than(other),
    {
        let distance: u32 = if self.0 > other.0 {
            self.0 - other.0
        } else {
            other.0 - self.0
        };
        if distance < WRAP_DISTANCE {
            other.0 <= self.0
        } else {
            self.0 <= other.0
        }
    }
}

/// The serial that is given out `steps` after `serial`.
pub open spec fn later(serial: Serial, steps: int) -> Serial {
    Serial(((serial.0 + steps) % 0x1_0000_0000) as u32)
}

/// A serial given out fewer than `WRAP_DISTANCE` steps after another one is no older than it, and
/// the other one is older, also where the number has wrapped around in between.
pub proof fn later_is_newer(serial: Serial, steps: int)
    requires
        0 <= steps < WRAP_DISTANCE,
    ensures
        later(serial, steps).no_older_than(serial),
        steps > 0 ==> !serial.no_older_than(later(serial, steps)),
{
}

/// Serials that are given out within `WRAP_DISTANCE` steps compare in the order in which they are
/// given out, also where the number has wrapped around in between.
pub proof fn serials_compare_in_order(base: Serial, a: int, b: int)
    requires
        0 <= a < WRAP_DISTANCE,
        0 <= b < WRAP_DISTANCE,
    ensures
        later(base, a).no_older_than(later(base, b)) <==> b <= a,
{
    if b <= a {
        assert(later(base, a) == later(later(base, b), a - b));
        later_is_newer(later(base, b), a - b);
    } else {
        assert(later(base, b) == later(later(base, a), b - a));
        later_is_newer(later(base, a), b - a);
    }
}

/// A serial is newer than the other ones of the half of all serials that were given out before it,
/// and older than those of the half that come after it.
pub proof fn half_of_the_serials_are_newer(serial: Serial, steps: int)
    requires
        0 < steps < 0x7fff_ffff,
    ensures
        later(serial, steps).no_older_than(serial),
        !serial.no_older_than(later(serial, steps)),
        serial.no_older_than(serial),
        later(serial, steps) == (if serial.0 + steps <= u32::MAX {
            Serial((serial.0 + steps) as u32)
        } else {
            Serial((serial.0 + steps - u32::MAX - 1) as u32)
        }),
{
}

/// Any two serials compare, and of two different serials exactly one is the newer.
pub proof fn serials_are_comparable(a: Serial, b: Serial)
    ensures
        a.no_older_than(b) || b.no_older_than(a),
        a.no_older_than(b) && b.no_older_than(a) ==> a == b,
{
}

/// Whether things were sent one after the other, each with the serial that is given out the noted
/// number of steps after a first one.
pub open spec fn sent_in_order<A>(sent: Seq<(Serial, A)>, first: Serial, steps: Seq<int>) -> bool {
    &&& steps.len() == sent.len()
    &&& forall|i: int|
        0 <= i < steps.len() ==> 0 <= #[trigger] steps[i] < WRAP_DISTANCE && sent[i].0 == later(
            first,
            steps[i],
        )
    &&& forall|i: int, j: int| 0 <= i < j < steps.len() ==> steps[i] < steps[j]
}

/// Whether a serial given out at `step` comes after those at `steps`, and not too many later.
pub open spec fn comes_after(step: int, steps: Seq<int>) -> bool {
    &&& 0 <= step < WRAP_DISTANCE
    &&& forall|i: int| 0 <= i < steps.len() ==> #[trigger] steps[i] < step
}

/// Sending one more thing, with a serial that is given out later, keeps the order.
pub proof fn sending_keeps_the_order<A>(
    sent: Seq<(Serial, A)>,
    first: Serial,
    steps: Seq<int>,
    next: A,
    step: int,
)
    requires
        sent_in_order(sent, first, steps),
        comes_after(step, steps),
    ensures
        sent_in_order(sent.push((later(first, step), next)), first, steps.push(step)),
{
    let after = sent.push((later(first, step), next));
    let longer = steps.push(step);
    assert forall|i: int| 0 <= i < longer.len() implies 0 <= #[trigger] longer[i] < WRAP_DISTANCE
        && after[i].0 == later(first, longer[i]) by {
        if i < steps.len() {
            assert(longer[i] == steps[i]);
        }
    }
}

/// Taking things away from the start keeps the order.
pub proof fn answering_keeps_the_order<A>(
    sent: Seq<(Serial, A)>,
    first: Serial,
    steps: Seq<int>,
    count: int,
)
    requires
        sent_in_order(sent, first, steps),
        0 <= count <= sent.len(),
    ensures
        sent_in_order(sent.skip(count), first, steps.skip(count)),
{
    let left = steps.skip(count);
    assert forall|i: int| 0 <= i < left.len() implies 0 <= #[trigger] left[i] < WRAP_DISTANCE
        && sent.skip(count)[i].0 == later(first, left[i]) by {
        assert(left[i] == steps[i + count]);
    }
}

/// Once the things sent before some serial are gone, the steps can be counted from that serial on,
/// so that the order holds however many serials are given out over time.
pub proof fn order_counts_from_any_earlier_serial<A>(
    sent: Seq<(Serial, A)>,
    first: Serial,
    steps: Seq<int>,
    gone: int,
)
    requires
        sent_in_order(sent, first, steps),
        0 <= gone,
        forall|i: int| 0 <= i < steps.len() ==> gone <= #[trigger] steps[i],
    ensures
        sent_in_order(
            sent,
            later(first, gone),
            Seq::new(steps.len(), |i: int| steps[i] - gone),
        ),
{
    let fewer = Seq::new(steps.len(), |i: int| steps[i] - gone);
    assert forall|i: int| 0 <= i < fewer.len() implies 0 <= #[trigger] fewer[i] < WRAP_DISTANCE
        && sent[i].0 == later(later(first, gone), fewer[i]) by {
        assert(gone <= steps[i]);
        assert(later(later(first, gone), steps[i] - gone) == later(first, steps[i]));
    }
}

/// A commit answers the things up to some point and none after it, as long as their serials were
/// given out one after the other and not too many of them.
pub proof fn answered_come_first<A>(
    sent: Seq<(Serial, A)>,
    first: Serial,
    steps: Seq<int>,
    step: int,
) -> (count: int)
    requires
        sent_in_order(sent, first, steps),
        0 <= step < WRAP_DISTANCE,
    ensures
        0 <= count <= sent.len(),
        forall|i: int|
            0 <= i < sent.len() ==> (later(first, step).no_older_than((#[trigger] sent[i]).0)
                <==> i < count),
{
    let count = first_beyond(steps, step);
    assert forall|i: int| 0 <= i < sent.len() implies (later(first, step).no_older_than(
        (#[trigger] sent[i]).0,
    ) <==> i < count) by {
        assert(sent[i].0 == later(first, steps[i]));
        serials_compare_in_order(first, step, steps[i]);
    }
    count
}

proof fn first_beyond(steps: Seq<int>, step: int) -> (count: int)
    requires
        forall|i: int, j: int| 0 <= i < j < steps.len() ==> steps[i] < steps[j],
    ensures
        0 <= count <= steps.len(),
        forall|i: int| 0 <= i < steps.len() ==> (#[trigger] steps[i] <= step <==> i < count),
    decreases steps.len(),
{
    if steps.len() == 0 {
        0
    } else if steps.last() <= step {
        steps.len() as int
    } else {
        let front = steps.drop_last();
        let count = first_beyond(front, step);
        assert forall|i: int| 0 <= i < steps.len() implies (#[trigger] steps[i] <= step <==> i
            < count) by {
            if i < front.len() {
                assert(front[i] == steps[i]);
            }
        }
        count
    }
}

} // verus!
