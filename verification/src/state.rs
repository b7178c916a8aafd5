//! Keeping track of the state that the event stream communicates.
//!
//! 1. Create an [`EventStreamState`] with `Default::default()`, or any single part of it.
//! 2. Pass every [`Event`] to [`EventStreamStatePart::apply`].
//! 3. Read the fields of the state as needed.

pub mod block_out;
pub mod casts;
pub mod keyboard_layouts;
pub mod laws;
pub mod maps;
pub mod overview;
pub mod windows;
pub mod workspaces;

use crate::ipc::{BlockOutStateView, Cast, Event, KeyboardLayoutsView, Window, Workspace};
use crate::state::block_out::{block_out_snapshot_restores, BlockOutStateState};
use crate::state::casts::{casts_snapshot_restores, CastsState};
use crate::state::keyboard_layouts::{keyboard_layouts_snapshot_restores, KeyboardLayoutsState};
use crate::state::overview::{
    config_snapshot_restores, overview_snapshot_restores, ConfigState, OverviewState,
};
use crate::state::windows::{windows_snapshot_restores, WindowsState};
use crate::state::workspaces::{workspaces_snapshot_restores, WorkspacesState};
use vstd::prelude::*;

verus! {

/// Part of the state communicated via the event stream.
///
/// The specification functions describe the part by its view.
pub trait EventStreamStatePart: View + Sized {
    /// The state before any event.
    spec fn initial() -> Self::V;

    /// Whether the event is for this part of the state.
    spec fn handles(event: Event) -> bool;

    /// Whether what the event refers to is there.
    spec fn accepts(pre: Self::V, event: Event) -> bool;

    /// What an event for this part does.
    spec fn step(pre: Self::V, event: Event, post: Self::V) -> bool;

    /// Whether the events are a snapshot of the state.
    spec fn snapshot(state: Self::V, events: Seq<Event>) -> bool;

    /// Whether every entry is filed under its own id, which every sequence of events ensures.
    spec fn consistent(state: Self::V) -> bool;

    /// Returns a sequence of events that replicates this state from default initialization.
    fn replicate(&self) -> (events: Vec<Event>)
        ensures
            Self::snapshot(self@, events@),
    ;

    /// Applies the event to this state.
    ///
    /// Returns `None` after applying the event, and `Some(event)` if the event is ignored by this
    /// part of the state.
    fn apply(&mut self, event: Event) -> (rest: Option<Event>)
        requires
            Self::accepts(old(self)@, event),
        ensures
            Self::handles(event) ==> rest is None && Self::step(old(self)@, event, final(self)@),
            !Self::handles(event) ==> rest == Some(event) && final(self)@ == old(self)@,
    ;

    /// The initial state is consistent.
    proof fn initial_is_consistent()
        ensures
            Self::consistent(Self::initial()),
    ;

    /// Events keep the state consistent.
    proof fn step_keeps_consistent(pre: Self::V, event: Event, post: Self::V)
        requires
            Self::consistent(pre),
            Self::handles(event),
            Self::accepts(pre, event),
            Self::step(pre, event, post),
        ensures
            Self::consistent(post),
    ;
}

/// What handing one event to a part does, be the event for that part or not.
pub open spec fn moves<P: EventStreamStatePart>(pre: P::V, event: Event, post: P::V) -> bool {
    if P::handles(event) {
        P::accepts(pre, event) && P::step(pre, event, post)
    } else {
        post == pre
    }
}

/// What handing a sequence of events to a part does.
pub open spec fn run<P: EventStreamStatePart>(
    pre: P::V,
    events: Seq<Event>,
    post: P::V,
) -> bool
    decreases events.len(),
{
    if events.len() == 0 {
        post == pre
    } else {
        exists|mid: P::V| #[trigger]
            moves::<P>(mid, events.last(), post) && run::<P>(pre, events.drop_last(), mid)
    }
}

/// A run over a single event is that event's move.
pub(crate) proof fn run_one<P: EventStreamStatePart>(
    pre: P::V,
    events: Seq<Event>,
    post: P::V,
)
    requires
        events.len() == 1,
    ensures
        run::<P>(pre, events, post) <==> moves::<P>(pre, events[0], post),
{
    reveal_with_fuel(run, 2);
    assert(events.last() == events[0]);
}

/// If a first batch of events always ends in one state, a longer run goes on from that state.
proof fn run_after<P: EventStreamStatePart>(
    pre: P::V,
    first: Seq<Event>,
    mid: P::V,
    rest: Seq<Event>,
    post: P::V,
)
    requires
        forall|m: P::V| #[trigger] run::<P>(pre, first, m) <==> m == mid,
    ensures
        run::<P>(pre, first + rest, post) <==> run::<P>(mid, rest, post),
    decreases rest.len(),
{
    if rest.len() == 0 {
        assert(first + rest =~= first);
    } else {
        assert((first + rest).drop_last() =~= first + rest.drop_last());
        assert forall|m: P::V|
            run::<P>(pre, first + rest.drop_last(), m) <==> #[trigger] run::<P>(
                mid,
                rest.drop_last(),
                m,
            ) by {
            run_after::<P>(pre, first, mid, rest.drop_last(), m);
        }
        if run::<P>(pre, first + rest, post) {
            let m = choose|m: P::V| #[trigger]
                moves::<P>(m, (first + rest).last(), post) && run::<P>(
                    pre,
                    (first + rest).drop_last(),
                    m,
                );
            assert(run::<P>(mid, rest.drop_last(), m));
            assert(moves::<P>(m, rest.last(), post));
        }
        if run::<P>(mid, rest, post) {
            let m = choose|m: P::V| #[trigger]
                moves::<P>(m, rest.last(), post) && run::<P>(mid, rest.drop_last(), m);
            assert(run::<P>(pre, first + rest.drop_last(), m));
            assert(moves::<P>(m, (first + rest).last(), post));
        }
    }
}

/// The full state communicated over the event stream.
///
/// Different parts of the state are not guaranteed to be consistent with each other across every
/// single event. For example, the first [`Event::WindowOpenedOrChanged`] for a just-opened window
/// may come *after* an [`Event::WorkspaceActiveWindowChanged`] for that window. Between these two
/// events, the active window id of the workspace refers to a window that does not exist yet in
/// the windows part.
#[derive(Debug)]
pub struct EventStreamState {
    /// State of workspaces.
    pub workspaces: WorkspacesState,
    /// State of windows.
    pub windows: WindowsState,
    /// State of the keyboard layouts.
    pub keyboard_layouts: KeyboardLayoutsState,
    /// State of the overview.
    pub overview: OverviewState,
    /// State of the config.
    pub config: ConfigState,
    /// State of block-out.
    pub block_out: BlockOutStateState,
    /// State of screencasts.
    pub casts: CastsState,
}

/// The views of all parts.
pub struct EventStreamStateView {
    pub workspaces: Map<u64, Workspace>,
    pub windows: Map<u64, Window>,
    pub keyboard_layouts: Option<KeyboardLayoutsView>,
    pub overview: bool,
    pub config: bool,
    pub block_out: Option<BlockOutStateView>,
    pub casts: Map<u64, Cast>,
}

impl View for EventStreamState {
    type V = EventStreamStateView;

    open spec fn view(&self) -> EventStreamStateView {
        EventStreamStateView {
            workspaces: self.workspaces@,
            windows: self.windows@,
            keyboard_layouts: self.keyboard_layouts@,
            overview: self.overview@,
            config: self.config@,
            block_out: self.block_out@,
            casts: self.casts@,
        }
    }
}

/// Snapshots of all parts.
pub struct SnapshotParts {
    pub workspaces: Seq<Event>,
    pub windows: Seq<Event>,
    pub keyboard_layouts: Seq<Event>,
    pub overview: Seq<Event>,
    pub config: Seq<Event>,
    pub block_out: Seq<Event>,
    pub casts: Seq<Event>,
}

impl SnapshotParts {
    /// The snapshots, one after the other.
    pub open spec fn joined(self) -> Seq<Event> {
        self.workspaces + (self.windows + (self.keyboard_layouts + (self.overview + (self.config + (
        self.block_out + self.casts)))))
    }

    /// Whether each of them is a snapshot of its part of the state.
    pub open spec fn of(self, state: EventStreamStateView) -> bool {
        &&& WorkspacesState::snapshot(state.workspaces, self.workspaces)
        &&& WindowsState::snapshot(state.windows, self.windows)
        &&& KeyboardLayoutsState::snapshot(state.keyboard_layouts, self.keyboard_layouts)
        &&& OverviewState::snapshot(state.overview, self.overview)
        &&& ConfigState::snapshot(state.config, self.config)
        &&& BlockOutStateState::snapshot(state.block_out, self.block_out)
        &&& CastsState::snapshot(state.casts, self.casts)
    }
}

impl Default for EventStreamState {
    fn default() -> (state: Self)
        ensures
            state@ == Self::initial(),
    {
        EventStreamState {
            workspaces: WorkspacesState::default(),
            windows: WindowsState::default(),
            keyboard_layouts: KeyboardLayoutsState::default(),
            overview: OverviewState::default(),
            config: ConfigState::default(),
            block_out: BlockOutStateState::default(),
            casts: CastsState::default(),
        }
    }
}

impl EventStreamStatePart for EventStreamState {
    open spec fn initial() -> EventStreamStateView {
        EventStreamStateView {
            workspaces: WorkspacesState::initial(),
            windows: WindowsState::initial(),
            keyboard_layouts: KeyboardLayoutsState::initial(),
            overview: OverviewState::initial(),
            config: ConfigState::initial(),
            block_out: BlockOutStateState::initial(),
            casts: CastsState::initial(),
        }
    }

    open spec fn handles(event: Event) -> bool {
        ||| WorkspacesState::handles(event)
        ||| WindowsState::handles(event)
        ||| KeyboardLayoutsState::handles(event)
        ||| OverviewState::handles(event)
        ||| ConfigState::handles(event)
        ||| BlockOutStateState::handles(event)
        ||| CastsState::handles(event)
    }

    open spec fn accepts(pre: EventStreamStateView, event: Event) -> bool {
        &&& WorkspacesState::accepts(pre.workspaces, event)
        &&& WindowsState::accepts(pre.windows, event)
        &&& KeyboardLayoutsState::accepts(pre.keyboard_layouts, event)
        &&& OverviewState::accepts(pre.overview, event)
        &&& ConfigState::accepts(pre.config, event)
        &&& BlockOutStateState::accepts(pre.block_out, event)
        &&& CastsState::accepts(pre.casts, event)
    }

    open spec fn step(
        pre: EventStreamStateView,
        event: Event,
        post: EventStreamStateView,
    ) -> bool {
        &&& moves::<WorkspacesState>(pre.workspaces, event, post.workspaces)
        &&& moves::<WindowsState>(pre.windows, event, post.windows)
        &&& moves::<KeyboardLayoutsState>(pre.keyboard_layouts, event, post.keyboard_layouts)
        &&& moves::<OverviewState>(pre.overview, event, post.overview)
        &&& moves::<ConfigState>(pre.config, event, post.config)
        &&& moves::<BlockOutStateState>(pre.block_out, event, post.block_out)
        &&& moves::<CastsState>(pre.casts, event, post.casts)
    }

    open spec fn snapshot(state: EventStreamStateView, events: Seq<Event>) -> bool {
        exists|parts: SnapshotParts| #[trigger] parts.of(state) && events == parts.joined()
    }

    open spec fn consistent(state: EventStreamStateView) -> bool {
        &&& WorkspacesState::consistent(state.workspaces)
        &&& WindowsState::consistent(state.windows)
        &&& KeyboardLayoutsState::consistent(state.keyboard_layouts)
        &&& OverviewState::consistent(state.overview)
        &&& ConfigState::consistent(state.config)
        &&& BlockOutStateState::consistent(state.block_out)
        &&& CastsState::consistent(state.casts)
    }

    fn replicate(&self) -> (events: Vec<Event>) {
        let mut workspaces = self.workspaces.replicate();
        let mut windows = self.windows.replicate();
        let mut keyboard_layouts = self.keyboard_layouts.replicate();
        let mut overview = self.overview.replicate();
        let mut config = self.config.replicate();
        let mut block_out = self.block_out.replicate();
        let mut casts = self.casts.replicate();
        let ghost parts = SnapshotParts {
            workspaces: workspaces@,
            windows: windows@,
            keyboard_layouts: keyboard_layouts@,
            overview: overview@,
            config: config@,
            block_out: block_out@,
            casts: casts@,
        };
        let mut events: Vec<Event> = Vec::new();
        events.append(&mut workspaces);
        events.append(&mut windows);
        events.append(&mut keyboard_layouts);
        events.append(&mut overview);
        events.append(&mut config);
        events.append(&mut block_out);
        events.append(&mut casts);
        proof {
            assert(parts.of(self@));
            assert(events@ =~= parts.joined());
        }
        events
    }

    fn apply(&mut self, event: Event) -> (rest: Option<Event>) {
        let event = match self.workspaces.apply(event) {
            Some(event) => event,
            None => {
                return None;
            },
        };
        let event = match self.windows.apply(event) {
            Some(event) => event,
            None => {
                return None;
            },
        };
        let event = match self.keyboard_layouts.apply(event) {
            Some(event) => event,
            None => {
                return None;
            },
        };
        let event = match self.overview.apply(event) {
            Some(event) => event,
            None => {
                return None;
            },
        };
        let event = match self.config.apply(event) {
            Some(event) => event,
            None => {
                return None;
            },
        };
        let event = match self.block_out.apply(event) {
            Some(event) => event,
            None => {
                return None;
            },
        };
        let event = match self.casts.apply(event) {
            Some(event) => event,
            None => {
                return None;
            },
        };
        Some(event)
    }

    proof fn initial_is_consistent() {
    }

    proof fn step_keeps_consistent(
        pre: EventStreamStateView,
        event: Event,
        post: EventStreamStateView,
    ) {
        if WorkspacesState::handles(event) {
            WorkspacesState::step_keeps_consistent(pre.workspaces, event, post.workspaces);
        }
        if WindowsState::handles(event) {
            WindowsState::step_keeps_consistent(pre.windows, event, post.windows);
        }
        if KeyboardLayoutsState::handles(event) {
            KeyboardLayoutsState::step_keeps_consistent(
                pre.keyboard_layouts,
                event,
                post.keyboard_layouts,
            );
        }
        if OverviewState::handles(event) {
            OverviewState::step_keeps_consistent(pre.overview, event, post.overview);
        }
        if ConfigState::handles(event) {
            ConfigState::step_keeps_consistent(pre.config, event, post.config);
        }
        if BlockOutStateState::handles(event) {
            BlockOutStateState::step_keeps_consistent(pre.block_out, event, post.block_out);
        }
        if CastsState::handles(event) {
            CastsState::step_keeps_consistent(pre.casts, event, post.casts);
        }
    }
}

proof fn workspaces_stage(pre: EventStreamStateView, events: Seq<Event>, post: EventStreamStateView)
    requires
        pre.workspaces == WorkspacesState::initial(),
        WorkspacesState::consistent(post.workspaces),
        WorkspacesState::snapshot(post.workspaces, events),
        post == (EventStreamStateView { workspaces: post.workspaces, ..pre }),
    ensures
        forall|m: EventStreamStateView| #[trigger]
            run::<EventStreamState>(pre, events, m) <==> m == post,
{
    assert forall|m: EventStreamStateView| #[trigger]
        run::<EventStreamState>(pre, events, m) <==> m == post by {
        workspaces_snapshot_restores(post.workspaces, events, m.workspaces);
        if events.len() > 0 {
            run_one::<WorkspacesState>(pre.workspaces, events, m.workspaces);
            run_one::<EventStreamState>(pre, events, m);
        }
    }
}

proof fn windows_stage(pre: EventStreamStateView, events: Seq<Event>, post: EventStreamStateView)
    requires
        pre.windows == WindowsState::initial(),
        WindowsState::consistent(post.windows),
        WindowsState::snapshot(post.windows, events),
        post == (EventStreamStateView { windows: post.windows, ..pre }),
    ensures
        forall|m: EventStreamStateView| #[trigger]
            run::<EventStreamState>(pre, events, m) <==> m == post,
{
    assert forall|m: EventStreamStateView| #[trigger]
        run::<EventStreamState>(pre, events, m) <==> m == post by {
        windows_snapshot_restores(post.windows, events, m.windows);
        if events.len() > 0 {
            run_one::<WindowsState>(pre.windows, events, m.windows);
            run_one::<EventStreamState>(pre, events, m);
        }
    }
}

proof fn keyboard_layouts_stage(
    pre: EventStreamStateView,
    events: Seq<Event>,
    post: EventStreamStateView,
)
    requires
        pre.keyboard_layouts == KeyboardLayoutsState::initial(),
        KeyboardLayoutsState::consistent(post.keyboard_layouts),
        KeyboardLayoutsState::snapshot(post.keyboard_layouts, events),
        post == (EventStreamStateView { keyboard_layouts: post.keyboard_layouts, ..pre }),
    ensures
        forall|m: EventStreamStateView| #[trigger]
            run::<EventStreamState>(pre, events, m) <==> m == post,
{
    assert forall|m: EventStreamStateView| #[trigger]
        run::<EventStreamState>(pre, events, m) <==> m == post by {
        keyboard_layouts_snapshot_restores(post.keyboard_layouts, events, m.keyboard_layouts);
        if events.len() > 0 {
            run_one::<KeyboardLayoutsState>(pre.keyboard_layouts, events, m.keyboard_layouts);
            run_one::<EventStreamState>(pre, events, m);
        }
    }
}

proof fn overview_stage(pre: EventStreamStateView, events: Seq<Event>, post: EventStreamStateView)
    requires
        pre.overview == OverviewState::initial(),
        OverviewState::consistent(post.overview),
        OverviewState::snapshot(post.overview, events),
        post == (EventStreamStateView { overview: post.overview, ..pre }),
    ensures
        forall|m: EventStreamStateView| #[trigger]
            run::<EventStreamState>(pre, events, m) <==> m == post,
{
    assert forall|m: EventStreamStateView| #[trigger]
        run::<EventStreamState>(pre, events, m) <==> m == post by {
        overview_snapshot_restores(post.overview, events, m.overview);
        if events.len() > 0 {
            run_one::<OverviewState>(pre.overview, events, m.overview);
            run_one::<EventStreamState>(pre, events, m);
        }
    }
}

proof fn config_stage(pre: EventStreamStateView, events: Seq<Event>, post: EventStreamStateView)
    requires
        pre.config == ConfigState::initial(),
        ConfigState::consistent(post.config),
        ConfigState::snapshot(post.config, events),
        post == (EventStreamStateView { config: post.config, ..pre }),
    ensures
        forall|m: EventStreamStateView| #[trigger]
            run::<EventStreamState>(pre, events, m) <==> m == post,
{
    assert forall|m: EventStreamStateView| #[trigger]
        run::<EventStreamState>(pre, events, m) <==> m == post by {
        config_snapshot_restores(post.config, events, m.config);
        if events.len() > 0 {
            run_one::<ConfigState>(pre.config, events, m.config);
            run_one::<EventStreamState>(pre, events, m);
        }
    }
}

proof fn block_out_stage(pre: EventStreamStateView, events: Seq<Event>, post: EventStreamStateView)
    requires
        pre.block_out == BlockOutStateState::initial(),
        BlockOutStateState::consistent(post.block_out),
        BlockOutStateState::snapshot(post.block_out, events),
        post == (EventStreamStateView { block_out: post.block_out, ..pre }),
    ensures
        forall|m: EventStreamStateView| #[trigger]
            run::<EventStreamState>(pre, events, m) <==> m == post,
{
    assert forall|m: EventStreamStateView| #[trigger]
        run::<EventStreamState>(pre, events, m) <==> m == post by {
        block_out_snapshot_restores(post.block_out, events, m.block_out);
        if events.len() > 0 {
            run_one::<BlockOutStateState>(pre.block_out, events, m.block_out);
            run_one::<EventStreamState>(pre, events, m);
        }
    }
}

proof fn casts_stage(pre: EventStreamStateView, events: Seq<Event>, post: EventStreamStateView)
    requires
        pre.casts == CastsState::initial(),
        CastsState::consistent(post.casts),
        CastsState::snapshot(post.casts, events),
        post == (EventStreamStateView { casts: post.casts, ..pre }),
    ensures
        forall|m: EventStreamStateView| #[trigger]
            run::<EventStreamState>(pre, events, m) <==> m == post,
{
    assert forall|m: EventStreamStateView| #[trigger]
        run::<EventStreamState>(pre, events, m) <==> m == post by {
        casts_snapshot_restores(post.casts, events, m.casts);
        if events.len() > 0 {
            run_one::<CastsState>(pre.casts, events, m.casts);
            run_one::<EventStreamState>(pre, events, m);
        }
    }
}

/// Applying a snapshot of the full state to the initial state gives the state back.
pub proof fn snapshot_restores(
    state: EventStreamStateView,
    events: Seq<Event>,
    post: EventStreamStateView,
)
    requires
        EventStreamState::consistent(state),
        EventStreamState::snapshot(state, events),
    ensures
        run::<EventStreamState>(EventStreamState::initial(), events, post) <==> post == state,
{
    let parts = choose|parts: SnapshotParts| #[trigger]
        parts.of(state) && events == parts.joined();
    let s0 = EventStreamState::initial();
    let s1 = EventStreamStateView { workspaces: state.workspaces, ..s0 };
    let s2 = EventStreamStateView { windows: state.windows, ..s1 };
    let s3 = EventStreamStateView { keyboard_layouts: state.keyboard_layouts, ..s2 };
    let s4 = EventStreamStateView { overview: state.overview, ..s3 };
    let s5 = EventStreamStateView { config: state.config, ..s4 };
    let s6 = EventStreamStateView { block_out: state.block_out, ..s5 };
    let s7 = EventStreamStateView { casts: state.casts, ..s6 };
    workspaces_stage(s0, parts.workspaces, s1);
    windows_stage(s1, parts.windows, s2);
    keyboard_layouts_stage(s2, parts.keyboard_layouts, s3);
    overview_stage(s3, parts.overview, s4);
    config_stage(s4, parts.config, s5);
    block_out_stage(s5, parts.block_out, s6);
    casts_stage(s6, parts.casts, s7);
    let tail5 = parts.block_out + parts.casts;
    let tail4 = parts.config + tail5;
    let tail3 = parts.overview + tail4;
    let tail2 = parts.keyboard_layouts + tail3;
    let tail1 = parts.windows + tail2;
    run_after::<EventStreamState>(s0, parts.workspaces, s1, tail1, post);
    run_after::<EventStreamState>(s1, parts.windows, s2, tail2, post);
    run_after::<EventStreamState>(s2, parts.keyboard_layouts, s3, tail3, post);
    run_after::<EventStreamState>(s3, parts.overview, s4, tail4, post);
    run_after::<EventStreamState>(s4, parts.config, s5, tail5, post);
    run_after::<EventStreamState>(s5, parts.block_out, s6, parts.casts, post);
    assert(run::<EventStreamState>(s6, parts.casts, post) <==> post == s7);
}

/// Every event is for exactly one part of the state, or, as a taken screenshot is, for none.
pub proof fn parts_share_no_event(event: Event)
    ensures
        EventStreamState::handles(event) <==> !(event is ScreenshotCaptured),
        WorkspacesState::handles(event) ==> !WindowsState::handles(event),
        WorkspacesState::handles(event) || WindowsState::handles(event)
            ==> !KeyboardLayoutsState::handles(event),
        WorkspacesState::handles(event) || WindowsState::handles(event)
            || KeyboardLayoutsState::handles(event) ==> !OverviewState::handles(event),
        WorkspacesState::handles(event) || WindowsState::handles(event)
            || KeyboardLayoutsState::handles(event) || OverviewState::handles(event)
            ==> !ConfigState::handles(event),
        WorkspacesState::handles(event) || WindowsState::handles(event)
            || KeyboardLayoutsState::handles(event) || OverviewState::handles(event)
            || ConfigState::handles(event) ==> !BlockOutStateState::handles(event),
        WorkspacesState::handles(event) || WindowsState::handles(event)
            || KeyboardLayoutsState::handles(event) || OverviewState::handles(event)
            || ConfigState::handles(event) || BlockOutStateState::handles(event)
            ==> !CastsState::handles(event),
{
}

} // verus!
