//! Pointer grabs that pan, zoom and click through mirrors.

use crate::ipc::Timestamp;
use crate::window::id::MappedId;
use vstd::prelude::*;

verus! {

impl Timestamp {
    /// The timestamp in nanoseconds.
    pub open spec fn total_nanos(self) -> int {
        self.secs * 1_000_000_000 + self.nanos
    }

    /// A time given in milliseconds.
    pub fn from_millis(millis: u32) -> (time: Timestamp)
        ensures
            time.total_nanos() == millis * 1_000_000,
            time.nanos < 1_000_000_000,
    {
        Timestamp { secs: (millis / 1000) as u64, nanos: (millis % 1000) * 1_000_000 }
    }

    /// A time given in microseconds.
    pub fn from_micros(micros: u64) -> (time: Timestamp)
        ensures
            time.total_nanos() == micros * 1000,
            time.nanos < 1_000_000_000,
    {
        let rest: u64 = micros % 1_000_000;
        Timestamp { secs: micros / 1_000_000, nanos: rest as u32 * 1000 }
    }
}

/// What a grab does to the view of a mirror.
#[derive(Debug, Clone, Copy, PartialEq, Eq, Structural)]
pub enum MirrorViewGrabMode {
    Pan,
    Zoom,
}

/// A grab that changes the view of a mirror as the pointer moves.
///
/// Motion is noted as it comes and applied once per frame.
#[derive(Debug)]
pub struct MirrorViewGrab {
    window: MappedId,
    mode: MirrorViewGrabMode,
    button: u32,
    event_timestamp: Option<Timestamp>,
}

/// The contents of a [`MirrorViewGrab`].
pub struct MirrorViewGrabView {
    /// The mirror.
    pub window: MappedId,
    /// What the grab does.
    pub mode: MirrorViewGrabMode,
    /// The button that holds the grab.
    pub button: u32,
    /// When the pointer last moved, until that is applied.
    pub event_timestamp: Option<Timestamp>,
}

impl View for MirrorViewGrab {
    type V = MirrorViewGrabView;

    closed spec fn view(&self) -> MirrorViewGrabView {
        MirrorViewGrabView {
            window: self.window,
            mode: self.mode,
            button: self.button,
            event_timestamp: self.event_timestamp,
        }
    }
}

/// What a frame does with the motion since the last one.
#[derive(Debug)]
pub struct FramePlan {
    /// The windows, by their places in the layout, whose view is changed.
    pub targets: Vec<usize>,
    /// Output to redraw, by a number of the host.
    pub redraw_output: Option<u64>,
    /// Whether the grab goes on.
    pub keep_grab: bool,
}

/// The places of the windows with an id.
pub open spec fn places_of(windows: Seq<(MappedId, Option<u64>)>, id: MappedId) -> Seq<usize>
    decreases windows.len(),
{
    if windows.len() == 0 {
        Seq::empty()
    } else {
        let front = places_of(windows.drop_last(), id);
        if windows.last().0 == id {
            front.push((windows.len() - 1) as usize)
        } else {
            front
        }
    }
}

proof fn places_are_in_range(windows: Seq<(MappedId, Option<u64>)>, id: MappedId)
    requires
        windows.len() <= usize::MAX,
    ensures
        forall|k: int|
            0 <= k < places_of(windows, id).len() ==> (#[trigger] places_of(windows, id)[k])
                < windows.len() && windows[places_of(windows, id)[k] as int].0 == id,
    decreases windows.len(),
{
    if windows.len() > 0 {
        let front = windows.drop_last();
        let before = places_of(front, id);
        let places = places_of(windows, id);
        places_are_in_range(front, id);
        assert forall|k: int| 0 <= k < places.len() implies (#[trigger] places[k]) < windows.len()
            && windows[places[k] as int].0 == id by {
            if k < before.len() {
                assert(places[k] == before[k]);
                assert(front[before[k] as int] == windows[before[k] as int]);
            }
        }
    }
}

/// The time of an event counts in whole seconds and the nanoseconds beyond them, so later times are
/// larger, and a second is a thousand million nanoseconds.
pub proof fn timestamps_count_nanoseconds(a: Timestamp, b: Timestamp)
    ensures
        a.secs == b.secs ==> a.total_nanos() - b.total_nanos() == a.nanos - b.nanos,
        a.nanos == b.nanos && a.secs == b.secs + 1 ==> a.total_nanos() == b.total_nanos()
            + 1_000_000_000,
        a.nanos < 1_000_000_000 && b.nanos < 1_000_000_000 && a.total_nanos() == b.total_nanos()
            ==> a == b,
{
}

/// The output to redraw for the windows with an id: that of the last of them.
pub open spec fn redrawn_output(windows: Seq<(MappedId, Option<u64>)>, id: MappedId) -> Option<
    u64,
> {
    let places = places_of(windows, id);
    if places.len() > 0 {
        windows[places.last() as int].1
    } else {
        None
    }
}

/// A frame goes on exactly as long as the mirror is there, and redraws the output of its last place
/// in the layout; the places come in their order.
pub proof fn frames_redraw_the_output_of_the_mirror(
    windows: Seq<(MappedId, Option<u64>)>,
    id: MappedId,
    at: int,
    i: int,
    j: int,
)
    requires
        windows.len() <= usize::MAX,
    ensures
        (0 <= at < windows.len() && windows[at].0 == id && forall|later: int|
            at < later < windows.len() ==> (#[trigger] windows[later]).0 != id) ==> redrawn_output(
            windows,
            id,
        ) == windows[at].1 && places_of(windows, id).len() > 0 && places_of(windows, id).last()
            == at,
        (forall|k: int| 0 <= k < windows.len() ==> (#[trigger] windows[k]).0 != id)
            ==> redrawn_output(windows, id) is None && places_of(windows, id).len() == 0,
        0 <= i < j < places_of(windows, id).len() ==> places_of(windows, id)[i] < places_of(
            windows,
            id,
        )[j],
    decreases windows.len(),
{
    if windows.len() > 0 {
        let front = windows.drop_last();
        let before = places_of(front, id);
        let places = places_of(windows, id);
        places_are_in_range(front, id);
        frames_redraw_the_output_of_the_mirror(front, id, at, i, j);
        if forall|k: int| 0 <= k < windows.len() ==> (#[trigger] windows[k]).0 != id {
            assert forall|k: int| 0 <= k < front.len() implies (#[trigger] front[k]).0 != id by {
                assert(windows[k].0 != id);
            }
            assert(windows[windows.len() - 1].0 != id);
        }
        if 0 <= at < windows.len() - 1 && windows[at].0 == id && forall|later: int|
            at < later < windows.len() ==> (#[trigger] windows[later]).0 != id {
            assert forall|later: int| at < later < front.len() implies (#[trigger] front[later]).0
                != id by {
                assert(windows[later].0 != id);
            }
            assert(windows[windows.len() - 1].0 != id);
        }
        if 0 <= i < j < places.len() {
            if j < before.len() {
                assert(places[i] == before[i] && places[j] == before[j]);
            } else {
                assert(places[i] == before[i]);
            }
        }
    }
}

impl MirrorViewGrab {
    /// Starts a grab that a button holds.
    pub fn new(window: MappedId, mode: MirrorViewGrabMode, button: u32) -> (grab: Self)
        ensures
            grab@ == (MirrorViewGrabView { window, mode, button, event_timestamp: None }),
    {
        MirrorViewGrab { window, mode, button, event_timestamp: None }
    }

    /// Tells whether the pointer zooms the view as it moves up and down.
    pub fn zooms(&self) -> (zooms: bool)
        ensures
            zooms == (self@.mode is Zoom),
    {
        matches!(self.mode, MirrorViewGrabMode::Zoom)
    }

    /// Notes that the pointer moved, with the time of the event in milliseconds.
    pub fn motion(&mut self, time: u32)
        ensures
            final(self)@.event_timestamp is Some,
            final(self)@.event_timestamp->0.total_nanos() == time * 1_000_000,
            final(self)@.event_timestamp->0.nanos < 1_000_000_000,
            final(self)@ == (MirrorViewGrabView {
                event_timestamp: final(self)@.event_timestamp,
                ..old(self)@
            }),
    {
        self.event_timestamp = Some(Timestamp::from_millis(time));
    }

    /// Notes that the pointer moved by some distance, with the time of the event in microseconds.
    pub fn relative_motion(&mut self, utime: u64)
        ensures
            final(self)@.event_timestamp is Some,
            final(self)@.event_timestamp->0.total_nanos() == utime * 1000,
            final(self)@.event_timestamp->0.nanos < 1_000_000_000,
            final(self)@ == (MirrorViewGrabView {
                event_timestamp: final(self)@.event_timestamp,
                ..old(self)@
            }),
    {
        self.event_timestamp = Some(Timestamp::from_micros(utime));
    }

    /// Plans what to do at the end of a frame, given the windows of the layout with the outputs
    /// that they are on.
    ///
    /// Without motion there is nothing to do. With motion, the view of the mirror changes, and
    /// only its output is redrawn; the grab ends when the mirror is gone.
    pub fn on_frame(&mut self, windows: &Vec<(MappedId, Option<u64>)>) -> (plan: FramePlan)
        ensures
            final(self)@ == (MirrorViewGrabView { event_timestamp: None, ..old(self)@ }),
            old(self)@.event_timestamp is None ==> plan.keep_grab && plan.targets@.len() == 0
                && plan.redraw_output is None,
            old(self)@.event_timestamp is Some ==> {
                let places = places_of(windows@, old(self)@.window);
                &&& plan.targets@ == places
                &&& plan.keep_grab == (places.len() > 0)
                &&& plan.redraw_output == if places.len() > 0 {
                    windows@[places.last() as int].1
                } else {
                    None
                }
            },
            old(self)@.event_timestamp is Some ==> plan.redraw_output == redrawn_output(
                windows@,
                old(self)@.window,
            ),
    {
        let mut targets: Vec<usize> = Vec::new();
        if self.event_timestamp.take().is_none() {
            return FramePlan { targets, redraw_output: None, keep_grab: true };
        }
        let window = self.window;
        let mut redraw_output: Option<u64> = None;
        for i in 0..windows.len()
            invariant
                targets@ == places_of(windows@.take(i as int), window),
                redraw_output == if targets.len() > 0 {
                    windows@[targets@.last() as int].1
                } else {
                    None
                },
        {
            assert(windows@.take(i + 1).drop_last() =~= windows@.take(i as int));
            let (id, output) = windows[i];
            if id == window {
                targets.push(i);
                redraw_output = output;
            }
        }
        assert(windows@.take(windows@.len() as int) =~= windows@);
        let keep_grab = targets.len() > 0;
        FramePlan { targets, redraw_output, keep_grab }
    }

    /// Tells whether the grab ends, given the buttons that are still pressed.
    pub fn button(&self, pressed: &Vec<u32>) -> (ends: bool)
        ensures
            ends == !pressed@.contains(self@.button),
    {
        for i in 0..pressed.len()
            invariant
                forall|j: int| 0 <= j < i ==> pressed@[j] != self@.button,
        {
            if pressed[i] == self.button {
                assert(pressed@[i as int] == self@.button);
                return false;
            }
        }
        true
    }
}

/// The windows whose view a frame changes are those with the id of the mirror, and no other.
pub proof fn frame_changes_only_the_mirror(
    windows: Seq<(MappedId, Option<u64>)>,
    id: MappedId,
    place: int,
)
    requires
        windows.len() <= usize::MAX,
        0 <= place < windows.len(),
    ensures
        places_of(windows, id).contains(place as usize) <==> windows[place].0 == id,
    decreases windows.len(),
{
    let front = windows.drop_last();
    let places = places_of(windows, id);
    places_are_in_range(windows, id);
    if place == windows.len() - 1 {
        if windows[place].0 == id {
            assert(places.last() == place as usize);
        } else if places.contains(place as usize) {
            let k = choose|k: int| 0 <= k < places.len() && places[k] == place as usize;
            assert(windows[places[k] as int].0 == id);
        }
    } else {
        frame_changes_only_the_mirror(front, id, place);
        let before = places_of(front, id);
        if before.contains(place as usize) {
            let k = choose|k: int| 0 <= k < before.len() && before[k] == place as usize;
            assert(places[k] == place as usize);
        }
        if places.contains(place as usize) {
            let k = choose|k: int| 0 <= k < places.len() && places[k] == place as usize;
            assert(windows[places[k] as int].0 == id);
        }
    }
}

/// A grab that sends clicks and motion on a mirror to its source.
#[derive(Debug, Clone, Copy, PartialEq, Eq)]
pub struct MirrorClickGrab;

impl MirrorClickGrab {
    /// Tells whether the grab ends, given the buttons that are still pressed.
    pub fn button(&self, pressed: &Vec<u32>) -> (ends: bool)
        ensures
            ends == (pressed@.len() == 0),
    {
        pressed.len() == 0
    }
}

} // verus!
