//! Screencasts of the event stream.

use crate::ipc::{Cast, Event};
use crate::state::maps::{
    index_values, indexed, indexed_is_keyed, indexed_of_listed, keyed, list_values, lists_values,
    Keyed,
};
use crate::state::{run, run_one, EventStreamStatePart};
use std::collections::HashMap;
use vstd::prelude::*;

verus! {

/// The casts state communicated over the event stream.
#[derive(Debug)]
pub struct CastsState {
    /// Map from a stream id to the screencast.
    pub casts: HashMap<u64, Cast>,
}

impl View for CastsState {
    type V = Map<u64, Cast>;

    open spec fn view(&self) -> Map<u64, Cast> {
        self.casts@
    }
}

impl Keyed for Cast {
    open spec fn spec_key(self) -> u64 {
        self.stream_id
    }

    fn key(&self) -> (key: u64) {
        self.stream_id
    }
}

impl Default for CastsState {
    fn default() -> (state: Self)
        ensures
            state@ == Self::initial(),
    {
        CastsState { casts: HashMap::new() }
    }
}

impl EventStreamStatePart for CastsState {
    open spec fn initial() -> Map<u64, Cast> {
        Map::empty()
    }

    open spec fn handles(event: Event) -> bool {
        event is CastsChanged || event is CastStartedOrChanged || event is CastStopped
    }

    open spec fn accepts(pre: Map<u64, Cast>, event: Event) -> bool {
        match event {
            Event::CastStopped { stream_id } => pre.contains_key(stream_id),
            _ => true,
        }
    }

    open spec fn step(pre: Map<u64, Cast>, event: Event, post: Map<u64, Cast>) -> bool {
        match event {
            Event::CastsChanged { casts } => post == indexed(casts@),
            Event::CastStartedOrChanged { cast } => post == pre.insert(cast.stream_id, cast),
            Event::CastStopped { stream_id } => post == pre.remove(stream_id),
            _ => false,
        }
    }

    open spec fn snapshot(state: Map<u64, Cast>, events: Seq<Event>) -> bool {
        &&& events.len() == 1
        &&& events[0] matches Event::CastsChanged { casts }
        &&& lists_values(state, casts@)
    }

    open spec fn consistent(state: Map<u64, Cast>) -> bool {
        keyed(state)
    }

    fn replicate(&self) -> (events: Vec<Event>) {
        let casts = list_values(&self.casts);
        let mut events: Vec<Event> = Vec::new();
        events.push(Event::CastsChanged { casts });
        events
    }

    fn apply(&mut self, event: Event) -> (rest: Option<Event>) {
        let ghost pre = self@;
        match event {
            Event::CastsChanged { casts } => {
                self.casts = index_values(casts);
            },
            Event::CastStartedOrChanged { cast } => {
                self.casts.insert(cast.stream_id, cast);
            },
            Event::CastStopped { stream_id } => {
                self.casts.remove(&stream_id);
                assert(self@ =~= pre.remove(stream_id));
            },
            event => {
                return Some(event);
            },
        }
        None
    }

    proof fn initial_is_consistent() {
    }

    proof fn step_keeps_consistent(pre: Map<u64, Cast>, event: Event, post: Map<u64, Cast>) {
        if let Event::CastsChanged { casts } = event {
            indexed_is_keyed(casts@);
        }
    }
}

/// Applying a snapshot of the casts to the initial state gives the casts back.
pub proof fn casts_snapshot_restores(
    state: Map<u64, Cast>,
    events: Seq<Event>,
    post: Map<u64, Cast>,
)
    requires
        CastsState::consistent(state),
        CastsState::snapshot(state, events),
    ensures
        run::<CastsState>(CastsState::initial(), events, post) <==> post == state,
{
    if let Event::CastsChanged { casts } = events[0] {
        indexed_of_listed(state, casts@);
    }
    run_one::<CastsState>(CastsState::initial(), events, post);
}

} // verus!
