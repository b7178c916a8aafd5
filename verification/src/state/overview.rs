//! The overview and the config in the event stream.

use crate::ipc::Event;
use crate::state::{run, run_one, EventStreamStatePart};
use vstd::prelude::*;

verus! {

/// The overview state communicated over the event stream.
#[derive(Debug)]
pub struct OverviewState {
    /// Whether the overview is currently open.
    pub is_open: bool,
}

/// The config state communicated over the event stream.
#[derive(Debug)]
pub struct ConfigState {
    /// Whether the last config load attempt had failed.
    pub failed: bool,
}

impl View for OverviewState {
    type V = bool;

    open spec fn view(&self) -> bool {
        self.is_open
    }
}

impl View for ConfigState {
    type V = bool;

    open spec fn view(&self) -> bool {
        self.failed
    }
}

impl Default for OverviewState {
    fn default() -> (state: Self)
        ensures
            state@ == Self::initial(),
    {
        OverviewState { is_open: false }
    }
}

impl Default for ConfigState {
    fn default() -> (state: Self)
        ensures
            state@ == Self::initial(),
    {
        ConfigState { failed: false }
    }
}

impl EventStreamStatePart for OverviewState {
    open spec fn initial() -> bool {
        false
    }

    open spec fn handles(event: Event) -> bool {
        event is OverviewOpenedOrClosed
    }

    open spec fn accepts(pre: bool, event: Event) -> bool {
        true
    }

    open spec fn step(pre: bool, event: Event, post: bool) -> bool {
        match event {
            Event::OverviewOpenedOrClosed { is_open } => post == is_open,
            _ => false,
        }
    }

    open spec fn snapshot(state: bool, events: Seq<Event>) -> bool {
        events == seq![Event::OverviewOpenedOrClosed { is_open: state }]
    }

    open spec fn consistent(state: bool) -> bool {
        true
    }

    fn replicate(&self) -> (events: Vec<Event>) {
        let mut events: Vec<Event> = Vec::new();
        events.push(Event::OverviewOpenedOrClosed { is_open: self.is_open });
        assert(events@ =~= seq![Event::OverviewOpenedOrClosed { is_open: self@ }]);
        events
    }

    fn apply(&mut self, event: Event) -> (rest: Option<Event>) {
        match event {
            Event::OverviewOpenedOrClosed { is_open } => {
                self.is_open = is_open;
            },
            event => {
                return Some(event);
            },
        }
        None
    }

    proof fn initial_is_consistent() {
    }

    proof fn step_keeps_consistent(pre: bool, event: Event, post: bool) {
    }
}

impl EventStreamStatePart for ConfigState {
    open spec fn initial() -> bool {
        false
    }

    open spec fn handles(event: Event) -> bool {
        event is ConfigLoaded
    }

    open spec fn accepts(pre: bool, event: Event) -> bool {
        true
    }

    open spec fn step(pre: bool, event: Event, post: bool) -> bool {
        match event {
            Event::ConfigLoaded { failed } => post == failed,
            _ => false,
        }
    }

    open spec fn snapshot(state: bool, events: Seq<Event>) -> bool {
        events == seq![Event::ConfigLoaded { failed: state }]
    }

    open spec fn consistent(state: bool) -> bool {
        true
    }

    fn replicate(&self) -> (events: Vec<Event>) {
        let mut events: Vec<Event> = Vec::new();
        events.push(Event::ConfigLoaded { failed: self.failed });
        assert(events@ =~= seq![Event::ConfigLoaded { failed: self@ }]);
        events
    }

    fn apply(&mut self, event: Event) -> (rest: Option<Event>) {
        match event {
            Event::ConfigLoaded { failed } => {
                self.failed = failed;
            },
            event => {
                return Some(event);
            },
        }
        None
    }

    proof fn initial_is_consistent() {
    }

    proof fn step_keeps_consistent(pre: bool, event: Event, post: bool) {
    }
}

/// Applying a snapshot of the overview to the initial state gives the overview back.
pub proof fn overview_snapshot_restores(state: bool, events: Seq<Event>, post: bool)
    requires
        OverviewState::snapshot(state, events),
    ensures
        run::<OverviewState>(OverviewState::initial(), events, post) <==> post == state,
{
    run_one::<OverviewState>(OverviewState::initial(), events, post);
}

/// Applying a snapshot of the config to the initial state gives the config back.
pub proof fn config_snapshot_restores(state: bool, events: Seq<Event>, post: bool)
    requires
        ConfigState::snapshot(state, events),
    ensures
        run::<ConfigState>(ConfigState::initial(), events, post) <==> post == state,
{
    run_one::<ConfigState>(ConfigState::initial(), events, post);
}

} // verus!
