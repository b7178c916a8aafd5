//! Keyboard layouts of the event stream.

use crate::ipc::{Event, KeyboardLayouts, KeyboardLayoutsView};
use crate::state::{run, run_one, EventStreamStatePart};
use vstd::prelude::*;

verus! {

/// The keyboard layout state communicated over the event stream.
#[derive(Debug)]
pub struct KeyboardLayoutsState {
    /// Configured keyboard layouts.
    pub keyboard_layouts: Option<KeyboardLayouts>,
}

impl View for KeyboardLayoutsState {
    type V = Option<KeyboardLayoutsView>;

    open spec fn view(&self) -> Option<KeyboardLayoutsView> {
        match self.keyboard_layouts {
            Some(keyboard_layouts) => Some(keyboard_layouts@),
            None => None,
        }
    }
}

impl Default for KeyboardLayoutsState {
    fn default() -> (state: Self)
        ensures
            state@ == Self::initial(),
    {
        KeyboardLayoutsState { keyboard_layouts: None }
    }
}

impl EventStreamStatePart for KeyboardLayoutsState {
    open spec fn initial() -> Option<KeyboardLayoutsView> {
        None
    }

    open spec fn handles(event: Event) -> bool {
        event is KeyboardLayoutsChanged || event is KeyboardLayoutSwitched
    }

    /// The layouts must be set before one can be switched to.
    open spec fn accepts(pre: Option<KeyboardLayoutsView>, event: Event) -> bool {
        event is KeyboardLayoutSwitched ==> pre is Some
    }

    open spec fn step(
        pre: Option<KeyboardLayoutsView>,
        event: Event,
        post: Option<KeyboardLayoutsView>,
    ) -> bool {
        match event {
            Event::KeyboardLayoutsChanged { keyboard_layouts } => post == Some(keyboard_layouts@),
            Event::KeyboardLayoutSwitched { idx } => post == Some(
                KeyboardLayoutsView { current_idx: idx, ..pre->0 },
            ),
            _ => false,
        }
    }

    open spec fn snapshot(state: Option<KeyboardLayoutsView>, events: Seq<Event>) -> bool {
        match state {
            Some(layouts) => {
                &&& events.len() == 1
                &&& events[0] matches Event::KeyboardLayoutsChanged { keyboard_layouts }
                &&& keyboard_layouts@ == layouts
            },
            None => events.len() == 0,
        }
    }

    open spec fn consistent(state: Option<KeyboardLayoutsView>) -> bool {
        true
    }

    fn replicate(&self) -> (events: Vec<Event>) {
        let mut events: Vec<Event> = Vec::new();
        if let Some(keyboard_layouts) = &self.keyboard_layouts {
            events.push(
                Event::KeyboardLayoutsChanged { keyboard_layouts: keyboard_layouts.clone() },
            );
        }
        events
    }

    fn apply(&mut self, event: Event) -> (rest: Option<Event>) {
        match event {
            Event::KeyboardLayoutsChanged { keyboard_layouts } => {
                self.keyboard_layouts = Some(keyboard_layouts);
            },
            Event::KeyboardLayoutSwitched { idx } => {
                if let Some(layouts) = self.keyboard_layouts.take() {
                    self.keyboard_layouts = Some(KeyboardLayouts { current_idx: idx, ..layouts });
                }
            },
            event => {
                return Some(event);
            },
        }
        None
    }

    proof fn initial_is_consistent() {
    }

    proof fn step_keeps_consistent(
        pre: Option<KeyboardLayoutsView>,
        event: Event,
        post: Option<KeyboardLayoutsView>,
    ) {
    }
}

/// Applying a snapshot of the keyboard layouts to the initial state gives the layouts back.
pub proof fn keyboard_layouts_snapshot_restores(
    state: Option<KeyboardLayoutsView>,
    events: Seq<Event>,
    post: Option<KeyboardLayoutsView>,
)
    requires
        KeyboardLayoutsState::snapshot(state, events),
    ensures
        run::<KeyboardLayoutsState>(KeyboardLayoutsState::initial(), events, post) <==> post
            == state,
{
    if state is Some {
        run_one::<KeyboardLayoutsState>(KeyboardLayoutsState::initial(), events, post);
    }
}

} // verus!
