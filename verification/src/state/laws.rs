//! What every event does to the state, and what it leaves alone.

use crate::ipc::{BlockedWindow, Cast, Event, Timestamp, Window, WindowLayout, Workspace};
use crate::state::block_out::{
    ascending_ids, base_of, has_blocked, upsert_keeps_ascending, upsert_replaces_one,
    without_blocked,
};
use crate::state::maps::{indexed_files_values, indexed_holds_nothing_else, keyed};
use crate::state::windows::with_layouts_takes_the_last;
use crate::state::{EventStreamState, EventStreamStatePart, EventStreamStateView};
use crate::text::text_of;
use vstd::prelude::*;

verus! {

/// An event about windows changes only the windows, and so for every other part.
pub proof fn events_change_one_part(
    pre: EventStreamStateView,
    event: Event,
    post: EventStreamStateView,
)
    requires
        EventStreamState::step(pre, event, post),
    ensures
        event is WindowsChanged || event is WindowOpenedOrChanged || event is WindowClosed
            || event is WindowFocusChanged || event is WindowFocusTimestampChanged
            || event is WindowUrgencyChanged || event is WindowLayoutsChanged ==> post == (
        EventStreamStateView { windows: post.windows, ..pre }),
        event is WorkspacesChanged || event is WorkspaceUrgencyChanged || event
            is WorkspaceActivated || event is WorkspaceActiveWindowChanged ==> post == (
        EventStreamStateView { workspaces: post.workspaces, ..pre }),
        event is KeyboardLayoutsChanged || event is KeyboardLayoutSwitched ==> post == (
        EventStreamStateView { keyboard_layouts: post.keyboard_layouts, ..pre }),
        event is OverviewOpenedOrClosed ==> post == (EventStreamStateView {
            overview: post.overview,
            ..pre
        }),
        event is ConfigLoaded ==> post == (EventStreamStateView { config: post.config, ..pre }),
        event is BlockOutStateChanged || event is BlockOutWindowAddedOrChanged || event
            is BlockOutWindowRemoved || event is BlockOutEnabledChanged ==> post == (
        EventStreamStateView { block_out: post.block_out, ..pre }),
        event is CastsChanged || event is CastStartedOrChanged || event is CastStopped ==> post == (
        EventStreamStateView { casts: post.casts, ..pre }),
        event is ScreenshotCaptured ==> post == pre,
{
}

/// An event is accepted unless it names something that is not there: a window that closes or whose
/// layout changes, a workspace that is activated or whose active window changes, a cast that stops,
/// or the layouts before they were set.
pub proof fn events_are_accepted_if_their_subject_is_there(
    pre: EventStreamStateView,
    event: Event,
)
    ensures
        event matches Event::WindowClosed { id } ==> (EventStreamState::accepts(pre, event)
            <==> pre.windows.contains_key(id)),
        event matches Event::WindowLayoutsChanged { changes } ==> (EventStreamState::accepts(
            pre,
            event,
        ) <==> forall|i: int|
            0 <= i < changes@.len() ==> pre.windows.contains_key(#[trigger] changes@[i].0)),
        event matches Event::WorkspaceActivated { id, .. } ==> (EventStreamState::accepts(
            pre,
            event,
        ) <==> pre.workspaces.contains_key(id)),
        event matches Event::WorkspaceActiveWindowChanged { workspace_id, .. } ==> (
        EventStreamState::accepts(pre, event) <==> pre.workspaces.contains_key(workspace_id)),
        event matches Event::CastStopped { stream_id } ==> (EventStreamState::accepts(pre, event)
            <==> pre.casts.contains_key(stream_id)),
        event is KeyboardLayoutSwitched ==> (EventStreamState::accepts(pre, event)
            <==> pre.keyboard_layouts is Some),
        !(event is WindowClosed || event is WindowLayoutsChanged || event is WorkspaceActivated
            || event is WorkspaceActiveWindowChanged || event is CastStopped || event
            is KeyboardLayoutSwitched) ==> EventStreamState::accepts(pre, event),
{
}

/// A window that was opened or changed is afterwards exactly the one of the event, be it new or
/// known; every other window stays, except that it loses the focus if that window has it.
pub proof fn changed_window_is_the_one_of_the_event(
    pre: EventStreamStateView,
    window: Window,
    post: EventStreamStateView,
    other: u64,
)
    requires
        keyed(pre.windows),
        EventStreamState::step(pre, (Event::WindowOpenedOrChanged { window }), post),
    ensures
        post.windows.contains_key(window.id),
        post.windows[window.id] == window,
        other != window.id ==> (post.windows.contains_key(other) <==> pre.windows.contains_key(
            other,
        )),
        other != window.id && pre.windows.contains_key(other) ==> post.windows[other] == (Window {
            is_focused: post.windows[other].is_focused,
            ..pre.windows[other]
        }),
        other != window.id && pre.windows.contains_key(other) ==> (
        post.windows[other].is_focused <==> pre.windows[other].is_focused && !window.is_focused),
{
}

/// A window that was closed is gone, and every other window stays.
pub proof fn closed_window_is_gone(
    pre: EventStreamStateView,
    id: u64,
    post: EventStreamStateView,
    other: u64,
)
    requires
        EventStreamState::step(pre, (Event::WindowClosed { id }), post),
    ensures
        !post.windows.contains_key(id),
        other != id ==> (post.windows.contains_key(other) <==> pre.windows.contains_key(other)),
        other != id && pre.windows.contains_key(other) ==> post.windows[other]
            == pre.windows[other],
{
}

/// After the focus moved, exactly the named window has it; nothing else about any window changes.
pub proof fn focus_is_where_it_moved(
    pre: EventStreamStateView,
    id: Option<u64>,
    post: EventStreamStateView,
    other: u64,
)
    requires
        keyed(pre.windows),
        EventStreamState::step(pre, (Event::WindowFocusChanged { id }), post),
    ensures
        post.windows.contains_key(other) <==> pre.windows.contains_key(other),
        pre.windows.contains_key(other) ==> (post.windows[other].is_focused <==> id == Some(other)),
        pre.windows.contains_key(other) ==> post.windows[other] == (Window {
            is_focused: post.windows[other].is_focused,
            ..pre.windows[other]
        }),
{
}

/// A new focus timestamp is that of the named window, if it is there; nothing else changes.
pub proof fn focus_timestamp_is_set(
    pre: EventStreamStateView,
    id: u64,
    focus_timestamp: Option<Timestamp>,
    post: EventStreamStateView,
    other: u64,
)
    requires
        keyed(pre.windows),
        EventStreamState::step(
            pre,
            (Event::WindowFocusTimestampChanged { id, focus_timestamp }),
            post,
        ),
    ensures
        post.windows.contains_key(other) <==> pre.windows.contains_key(other),
        pre.windows.contains_key(id) ==> post.windows[id].focus_timestamp == focus_timestamp,
        pre.windows.contains_key(id) ==> post.windows[id] == (Window {
            focus_timestamp: post.windows[id].focus_timestamp,
            ..pre.windows[id]
        }),
        other != id && pre.windows.contains_key(other) ==> post.windows[other]
            == pre.windows[other],
{
}

/// A new urgency is that of the named window, if it is there; nothing else changes.
pub proof fn urgency_is_set(
    pre: EventStreamStateView,
    id: u64,
    urgent: bool,
    post: EventStreamStateView,
    other: u64,
)
    requires
        keyed(pre.windows),
        EventStreamState::step(pre, (Event::WindowUrgencyChanged { id, urgent }), post),
    ensures
        post.windows.contains_key(other) <==> pre.windows.contains_key(other),
        pre.windows.contains_key(id) ==> post.windows[id].is_urgent == urgent,
        pre.windows.contains_key(id) ==> post.windows[id] == (Window {
            is_urgent: post.windows[id].is_urgent,
            ..pre.windows[id]
        }),
        other != id && pre.windows.contains_key(other) ==> post.windows[other]
            == pre.windows[other],
{
}

/// A listed window gets the layout that the list gives it last; a window that is not listed keeps
/// its own, and nothing but layouts changes.
pub proof fn layouts_are_set(
    pre: EventStreamStateView,
    changes: Vec<(u64, WindowLayout)>,
    post: EventStreamStateView,
    other: u64,
    at: int,
)
    requires
        keyed(pre.windows),
        EventStreamState::step(pre, (Event::WindowLayoutsChanged { changes }), post),
    ensures
        post.windows.contains_key(other) <==> pre.windows.contains_key(other),
        pre.windows.contains_key(other) ==> post.windows[other] == (Window {
            layout: post.windows[other].layout,
            ..pre.windows[other]
        }),
        (forall|i: int| 0 <= i < changes@.len() ==> (#[trigger] changes@[i]).0 != other)
            && pre.windows.contains_key(other) ==> post.windows[other] == pre.windows[other],
        (0 <= at < changes@.len() && changes@[at].0 == other && forall|later: int|
            at < later < changes@.len() ==> (#[trigger] changes@[later]).0 != other)
            ==> post.windows[other].layout == changes@[at].1,
{
    with_layouts_takes_the_last(pre.windows, changes@, other, at);
}

/// After a whole new set of windows every listed window is there as listed, the last one of an id
/// where it is listed more than once, and no other window is.
pub proof fn new_windows_replace_the_old(
    pre: EventStreamStateView,
    windows: Vec<Window>,
    post: EventStreamStateView,
    at: int,
    key: u64,
)
    requires
        EventStreamState::step(pre, (Event::WindowsChanged { windows }), post),
    ensures
        (0 <= at < windows@.len() && forall|later: int|
            at < later < windows@.len() ==> (#[trigger] windows@[later]).id != windows@[at].id)
            ==> post.windows.contains_key(windows@[at].id) && post.windows[windows@[at].id]
            == windows@[at],
        (forall|i: int| 0 <= i < windows@.len() ==> (#[trigger] windows@[i]).id != key)
            ==> !post.windows.contains_key(key),
{
    indexed_files_values(windows@, at);
    indexed_holds_nothing_else(windows@, key);
}

/// After a whole new set of workspaces every listed workspace is there as listed, the last one of an
/// id where it is listed more than once, and no other workspace is.
pub proof fn new_workspaces_replace_the_old(
    pre: EventStreamStateView,
    workspaces: Vec<Workspace>,
    post: EventStreamStateView,
    at: int,
    key: u64,
)
    requires
        EventStreamState::step(pre, (Event::WorkspacesChanged { workspaces }), post),
    ensures
        (0 <= at < workspaces@.len() && forall|later: int|
            at < later < workspaces@.len() ==> (#[trigger] workspaces@[later]).id
                != workspaces@[at].id) ==> post.workspaces.contains_key(workspaces@[at].id)
            && post.workspaces[workspaces@[at].id] == workspaces@[at],
        (forall|i: int| 0 <= i < workspaces@.len() ==> (#[trigger] workspaces@[i]).id != key)
            ==> !post.workspaces.contains_key(key),
{
    indexed_files_values(workspaces@, at);
    indexed_holds_nothing_else(workspaces@, key);
}

/// A new urgency is that of the named workspace, if it is there; nothing else changes.
pub proof fn workspace_urgency_is_set(
    pre: EventStreamStateView,
    id: u64,
    urgent: bool,
    post: EventStreamStateView,
    other: u64,
)
    requires
        keyed(pre.workspaces),
        EventStreamState::step(pre, (Event::WorkspaceUrgencyChanged { id, urgent }), post),
    ensures
        post.workspaces.contains_key(other) <==> pre.workspaces.contains_key(other),
        pre.workspaces.contains_key(id) ==> post.workspaces[id].is_urgent == urgent,
        pre.workspaces.contains_key(id) ==> post.workspaces[id] == (Workspace {
            is_urgent: post.workspaces[id].is_urgent,
            ..pre.workspaces[id]
        }),
        other != id && pre.workspaces.contains_key(other) ==> post.workspaces[other]
            == pre.workspaces[other],
{
}

/// An activated workspace is the active one of its output, and workspaces on other outputs stay as
/// active as they were; the focus moves to it if the event says so, and else stays. Nothing else
/// about any workspace changes.
pub proof fn activated_workspace_is_active_on_its_output(
    pre: EventStreamStateView,
    id: u64,
    focused: bool,
    post: EventStreamStateView,
    other: u64,
)
    requires
        keyed(pre.workspaces),
        EventStreamState::step(pre, (Event::WorkspaceActivated { id, focused }), post),
    ensures
        post.workspaces.contains_key(other) <==> pre.workspaces.contains_key(other),
        post.workspaces[id].is_active,
        focused ==> post.workspaces[id].is_focused,
        pre.workspaces.contains_key(other) ==> {
            let before = pre.workspaces[other];
            let after = post.workspaces[other];
            &&& text_of(&before.output) == text_of(&pre.workspaces[id].output) ==> (after.is_active
                <==> other == id)
            &&& text_of(&before.output) != text_of(&pre.workspaces[id].output) ==> after.is_active
                == before.is_active
            &&& focused ==> (after.is_focused <==> other == id)
            &&& !focused ==> after.is_focused == before.is_focused
            &&& after == (Workspace {
                is_active: after.is_active,
                is_focused: after.is_focused,
                ..before
            })
        },
{
}

/// A new active window is that of the named workspace; nothing else changes.
pub proof fn active_window_is_set(
    pre: EventStreamStateView,
    workspace_id: u64,
    active_window_id: Option<u64>,
    post: EventStreamStateView,
    other: u64,
)
    requires
        EventStreamState::step(
            pre,
            (Event::WorkspaceActiveWindowChanged { workspace_id, active_window_id }),
            post,
        ),
    ensures
        post.workspaces.contains_key(other) <==> pre.workspaces.contains_key(other),
        post.workspaces[workspace_id].active_window_id == active_window_id,
        post.workspaces[workspace_id] == (Workspace {
            active_window_id: post.workspaces[workspace_id].active_window_id,
            ..pre.workspaces[workspace_id]
        }),
        other != workspace_id && pre.workspaces.contains_key(other) ==> post.workspaces[other]
            == pre.workspaces[other],
{
}

/// A cast that started or changed is afterwards exactly the one of the event, and one that stopped
/// is gone; every other cast stays.
pub proof fn casts_come_and_go(
    pre: EventStreamStateView,
    cast: Cast,
    started: EventStreamStateView,
    stream_id: u64,
    stopped: EventStreamStateView,
    other: u64,
)
    requires
        EventStreamState::step(pre, (Event::CastStartedOrChanged { cast }), started),
        EventStreamState::step(pre, (Event::CastStopped { stream_id }), stopped),
    ensures
        started.casts.contains_key(cast.stream_id),
        started.casts[cast.stream_id] == cast,
        other != cast.stream_id ==> (started.casts.contains_key(other) <==> pre.casts.contains_key(
            other,
        )),
        other != cast.stream_id && pre.casts.contains_key(other) ==> started.casts[other]
            == pre.casts[other],
        !stopped.casts.contains_key(stream_id),
        other != stream_id ==> (stopped.casts.contains_key(other) <==> pre.casts.contains_key(
            other,
        )),
        other != stream_id && pre.casts.contains_key(other) ==> stopped.casts[other]
            == pre.casts[other],
{
}

/// After a whole new set of casts every listed cast is there as listed, the last one of a stream
/// where it is listed more than once, and no other cast is.
pub proof fn new_casts_replace_the_old(
    pre: EventStreamStateView,
    casts: Vec<Cast>,
    post: EventStreamStateView,
    at: int,
    key: u64,
)
    requires
        EventStreamState::step(pre, (Event::CastsChanged { casts }), post),
    ensures
        (0 <= at < casts@.len() && forall|later: int|
            at < later < casts@.len() ==> (#[trigger] casts@[later]).stream_id
                != casts@[at].stream_id) ==> post.casts.contains_key(casts@[at].stream_id)
            && post.casts[casts@[at].stream_id] == casts@[at],
        (forall|i: int| 0 <= i < casts@.len() ==> (#[trigger] casts@[i]).stream_id != key)
            ==> !post.casts.contains_key(key),
{
    indexed_files_values(casts@, at);
    indexed_holds_nothing_else(casts@, key);
}

/// The overview, the config and the set of keyboard layouts are what the last event about them says;
/// switching the layout changes the current one and keeps the set.
pub proof fn last_event_decides(
    pre: EventStreamStateView,
    event: Event,
    post: EventStreamStateView,
)
    requires
        EventStreamState::step(pre, event, post),
    ensures
        event matches Event::OverviewOpenedOrClosed { is_open } ==> post.overview == is_open,
        event matches Event::ConfigLoaded { failed } ==> post.config == failed,
        event matches Event::KeyboardLayoutsChanged { keyboard_layouts } ==> post.keyboard_layouts
            == Some(keyboard_layouts@),
        event matches Event::KeyboardLayoutSwitched { idx } ==> pre.keyboard_layouts is Some
            && post.keyboard_layouts is Some && post.keyboard_layouts->0.current_idx == idx
            && post.keyboard_layouts->0.names == pre.keyboard_layouts->0.names,
        event matches Event::BlockOutStateChanged { block_out_state } ==> post.block_out == Some(
            block_out_state@,
        ),
        event matches Event::BlockOutEnabledChanged { is_enabled } ==> post.block_out is Some
            && post.block_out->0.is_enabled == is_enabled && post.block_out->0.windows == base_of(
            pre.block_out,
        ).windows && post.block_out->0.layers == base_of(pre.block_out).layers,
{
}

/// Before any block-out state was received, nothing is blocked out and blocking out is off; with
/// one, that state counts.
pub proof fn nothing_is_blocked_out_at_first(state: EventStreamStateView)
    ensures
        state.block_out is None ==> !base_of(state.block_out).is_enabled && base_of(
            state.block_out,
        ).windows.len() == 0 && base_of(state.block_out).layers.len() == 0,
        state.block_out is Some ==> base_of(state.block_out) == state.block_out->0,
{
}

/// A window that is blocked out from now on, or changed, is listed as in the event; the other
/// windows stay listed, and where their ids were ascending they are afterwards. Whether blocking out
/// is enabled, and the layers, stay.
pub proof fn blocked_window_is_listed(
    pre: EventStreamStateView,
    window: BlockedWindow,
    post: EventStreamStateView,
    other: BlockedWindow,
)
    requires
        EventStreamState::step(pre, (Event::BlockOutWindowAddedOrChanged { window }), post),
    ensures
        post.block_out is Some,
        post.block_out->0.windows.contains(window),
        other.id != window.id ==> (post.block_out->0.windows.contains(other) <==> base_of(
            pre.block_out,
        ).windows.contains(other)),
        post.block_out->0.windows.len() == base_of(pre.block_out).windows.len() + (if has_blocked(
            base_of(pre.block_out).windows,
            window.id,
        ) {
            0int
        } else {
            1int
        }),
        ascending_ids(base_of(pre.block_out).windows) ==> ascending_ids(post.block_out->0.windows),
        post.block_out->0.is_enabled == base_of(pre.block_out).is_enabled,
        post.block_out->0.layers == base_of(pre.block_out).layers,
{
    if ascending_ids(base_of(pre.block_out).windows) {
        upsert_keeps_ascending(
            base_of(pre.block_out).windows,
            window,
            post.block_out->0.windows,
        );
    }
    upsert_replaces_one(
        base_of(pre.block_out).windows,
        window,
        post.block_out->0.windows,
        other,
    );
}

/// A window that is no longer blocked out is not listed, and the other windows stay listed; whether
/// blocking out is enabled, and the layers, stay.
pub proof fn unblocked_window_is_not_listed(
    pre: EventStreamStateView,
    id: u64,
    post: EventStreamStateView,
    other: BlockedWindow,
)
    requires
        EventStreamState::step(pre, (Event::BlockOutWindowRemoved { id }), post),
    ensures
        pre.block_out is None ==> post.block_out is None,
        pre.block_out is Some ==> {
            &&& post.block_out is Some
            &&& !has_blocked(post.block_out->0.windows, id)
            &&& other.id != id ==> (post.block_out->0.windows.contains(other)
                <==> pre.block_out->0.windows.contains(other))
            &&& post.block_out->0.is_enabled == pre.block_out->0.is_enabled
            &&& post.block_out->0.layers == pre.block_out->0.layers
        },
{
    if pre.block_out is Some {
        let windows = pre.block_out->0.windows;
        let keep = |window: BlockedWindow| window.id != id;
        let kept = without_blocked(windows, id);
        assert forall|i: int| 0 <= i < kept.len() implies (#[trigger] kept[i]).id != id by {
            broadcast use Seq::lemma_filter_pred;

            assert(keep(windows.filter(keep)[i]));
        }
        if kept.contains(other) {
            windows.lemma_filter_contains_rev(keep, other);
        }
        if windows.contains(other) && other.id != id {
            broadcast use Seq::lemma_filter_contains;

            let at = choose|at: int| 0 <= at < windows.len() && windows[at] == other;
            assert(keep(windows[at]));
        }
    }
}

/// At first there are no windows, workspaces, casts or layouts, the overview is closed and the
/// config has not failed.
pub proof fn nothing_is_known_at_first()
    ensures
        forall|id: u64| !(#[trigger] EventStreamState::initial().windows.contains_key(id)),
        forall|id: u64| !(#[trigger] EventStreamState::initial().workspaces.contains_key(id)),
        forall|id: u64| !(#[trigger] EventStreamState::initial().casts.contains_key(id)),
        EventStreamState::initial().keyboard_layouts is None,
        !EventStreamState::initial().overview,
        !EventStreamState::initial().config,
        EventStreamState::initial().block_out is None,
{
}

} // verus!
