//! Workspaces of the event stream.

use crate::ipc::{Event, Workspace};
use crate::state::maps::{
    index_values, indexed, indexed_is_keyed, indexed_of_listed, keyed, list_values, lists_values,
    update_values, Keyed,
};
use crate::state::{run, run_one, EventStreamStatePart};
use crate::text::{same_text, text_of};
use std::collections::HashMap;
use vstd::prelude::*;

verus! {

/// The workspaces state communicated over the event stream.
#[derive(Debug)]
pub struct WorkspacesState {
    /// Map from a workspace id to the workspace.
    pub workspaces: HashMap<u64, Workspace>,
}

impl View for WorkspacesState {
    type V = Map<u64, Workspace>;

    open spec fn view(&self) -> Map<u64, Workspace> {
        self.workspaces@
    }
}

impl Keyed for Workspace {
    open spec fn spec_key(self) -> u64 {
        self.id
    }

    fn key(&self) -> (key: u64) {
        self.id
    }
}

/// The workspace with its urgency set, if it is the one with the given id.
pub open spec fn with_urgency(ws: Workspace, id: u64, urgent: bool) -> Workspace {
    if ws.id == id {
        Workspace { is_urgent: urgent, ..ws }
    } else {
        ws
    }
}

/// A workspace after the one with the given id was activated on an output.
pub open spec fn after_activation(
    ws: Workspace,
    id: u64,
    focused: bool,
    output: Option<Seq<char>>,
) -> Workspace {
    Workspace {
        is_active: if text_of(&ws.output) == output {
            ws.id == id
        } else {
            ws.is_active
        },
        is_focused: if focused {
            ws.id == id
        } else {
            ws.is_focused
        },
        ..ws
    }
}

impl Default for WorkspacesState {
    fn default() -> (state: Self)
        ensures
            state@ == Self::initial(),
    {
        WorkspacesState { workspaces: HashMap::new() }
    }
}

impl EventStreamStatePart for WorkspacesState {
    open spec fn initial() -> Map<u64, Workspace> {
        Map::empty()
    }

    open spec fn handles(event: Event) -> bool {
        event is WorkspacesChanged || event is WorkspaceUrgencyChanged
            || event is WorkspaceActivated || event is WorkspaceActiveWindowChanged
    }

    open spec fn accepts(pre: Map<u64, Workspace>, event: Event) -> bool {
        match event {
            Event::WorkspaceActivated { id, .. } => pre.contains_key(id),
            Event::WorkspaceActiveWindowChanged { workspace_id, .. } => pre.contains_key(
                workspace_id,
            ),
            _ => true,
        }
    }

    open spec fn step(
        pre: Map<u64, Workspace>,
        event: Event,
        post: Map<u64, Workspace>,
    ) -> bool {
        match event {
            Event::WorkspacesChanged { workspaces } => post == indexed(workspaces@),
            Event::WorkspaceUrgencyChanged { id, urgent } => post == pre.map_values(
                |ws: Workspace| with_urgency(ws, id, urgent),
            ),
            Event::WorkspaceActivated { id, focused } => post == pre.map_values(
                |ws: Workspace| after_activation(ws, id, focused, text_of(&pre[id].output)),
            ),
            Event::WorkspaceActiveWindowChanged { workspace_id, active_window_id } => post
                == pre.insert(workspace_id, Workspace { active_window_id, ..pre[workspace_id] }),
            _ => false,
        }
    }

    open spec fn snapshot(state: Map<u64, Workspace>, events: Seq<Event>) -> bool {
        &&& events.len() == 1
        &&& events[0] matches Event::WorkspacesChanged { workspaces }
        &&& lists_values(state, workspaces@)
    }

    open spec fn consistent(state: Map<u64, Workspace>) -> bool {
        keyed(state)
    }

    fn replicate(&self) -> (events: Vec<Event>) {
        let workspaces = list_values(&self.workspaces);
        let mut events: Vec<Event> = Vec::new();
        events.push(Event::WorkspacesChanged { workspaces });
        events
    }

    fn apply(&mut self, event: Event) -> (rest: Option<Event>) {
        let ghost pre = self@;
        match event {
            Event::WorkspacesChanged { workspaces } => {
                self.workspaces = index_values(workspaces);
            },
            Event::WorkspaceUrgencyChanged { id, urgent } => {
                let update = |ws: Workspace| -> (out: Workspace)
                    ensures
                        out == with_urgency(ws, id, urgent),
                    {
                        if ws.id == id {
                            Workspace { is_urgent: urgent, ..ws }
                        } else {
                            ws
                        }
                    };
                update_values(&mut self.workspaces, update);
                assert(self@ =~= pre.map_values(|ws: Workspace| with_urgency(ws, id, urgent)));
            },
            Event::WorkspaceActivated { id, focused } => {
                let output: Option<String> = match self.workspaces.get(&id) {
                    Some(ws) => ws.output.clone(),
                    None => None,
                };
                let update = |ws: Workspace| -> (out: Workspace)
                    ensures
                        out == after_activation(ws, id, focused, text_of(&output)),
                    {
                        let got_activated: bool = ws.id == id;
                        let is_active: bool = if same_text(&ws.output, &output) {
                            got_activated
                        } else {
                            ws.is_active
                        };
                        let is_focused: bool = if focused {
                            got_activated
                        } else {
                            ws.is_focused
                        };
                        Workspace { is_active, is_focused, ..ws }
                    };
                update_values(&mut self.workspaces, update);
                assert(self@ =~= pre.map_values(
                    |ws: Workspace| after_activation(ws, id, focused, text_of(&pre[id].output)),
                ));
            },
            Event::WorkspaceActiveWindowChanged { workspace_id, active_window_id } => {
                if let Some(ws) = self.workspaces.remove(&workspace_id) {
                    self.workspaces.insert(workspace_id, Workspace { active_window_id, ..ws });
                }
                assert(self@ =~= pre.insert(
                    workspace_id,
                    Workspace { active_window_id, ..pre[workspace_id] },
                ));
            },
            event => {
                return Some(event);
            },
        }
        None
    }

    proof fn initial_is_consistent() {
    }

    proof fn step_keeps_consistent(
        pre: Map<u64, Workspace>,
        event: Event,
        post: Map<u64, Workspace>,
    ) {
        if let Event::WorkspacesChanged { workspaces } = event {
            indexed_is_keyed(workspaces@);
        }
    }
}

/// Applying a snapshot of the workspaces to the initial state gives the workspaces back.
pub proof fn workspaces_snapshot_restores(
    state: Map<u64, Workspace>,
    events: Seq<Event>,
    post: Map<u64, Workspace>,
)
    requires
        WorkspacesState::consistent(state),
        WorkspacesState::snapshot(state, events),
    ensures
        run::<WorkspacesState>(WorkspacesState::initial(), events, post) <==> post == state,
{
    if let Event::WorkspacesChanged { workspaces } = events[0] {
        indexed_of_listed(state, workspaces@);
    }
    run_one::<WorkspacesState>(WorkspacesState::initial(), events, post);
}

/// Whether at most one workspace is active on each output.
pub open spec fn active_is_unique(workspaces: Map<u64, Workspace>) -> bool {
    forall|j: u64, k: u64|
        #[trigger] workspaces.contains_key(j) && #[trigger] workspaces.contains_key(k)
            && workspaces[j].is_active && workspaces[k].is_active && text_of(&workspaces[j].output)
            == text_of(&workspaces[k].output) ==> j == k
}

/// Whether at most one workspace has the focus.
pub open spec fn focus_is_unique(workspaces: Map<u64, Workspace>) -> bool {
    forall|j: u64, k: u64|
        #[trigger] workspaces.contains_key(j) && #[trigger] workspaces.contains_key(k)
            && workspaces[j].is_focused && workspaces[k].is_focused ==> j == k
}

/// No event makes a second workspace active on an output, or focuses a second one; only a whole
/// new set of workspaces could.
pub proof fn active_and_focus_stay_unique(
    pre: Map<u64, Workspace>,
    event: Event,
    post: Map<u64, Workspace>,
)
    requires
        keyed(pre),
        active_is_unique(pre),
        focus_is_unique(pre),
        WorkspacesState::handles(event),
        WorkspacesState::accepts(pre, event),
        WorkspacesState::step(pre, event, post),
        !(event is WorkspacesChanged),
    ensures
        active_is_unique(post),
        focus_is_unique(post),
{
}

/// After an activation the activated workspace is the active one of its output, and the focused
/// one if the activation says so.
pub proof fn activation_takes_effect(
    pre: Map<u64, Workspace>,
    id: u64,
    focused: bool,
    post: Map<u64, Workspace>,
)
    requires
        keyed(pre),
        pre.contains_key(id),
        WorkspacesState::step(pre, (Event::WorkspaceActivated { id, focused }), post),
    ensures
        post.dom() == pre.dom(),
        forall|k: u64|
            #[trigger] post.contains_key(k) && text_of(&post[k].output) == text_of(&post[id].output)
                ==> (post[k].is_active <==> k == id),
        focused ==> forall|k: u64| #[trigger]
            post.contains_key(k) ==> (post[k].is_focused <==> k == id),
{
    assert(post.dom() =~= pre.dom());
    assert(post.contains_key(id));
}

} // verus!
