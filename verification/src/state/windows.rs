//! Windows of the event stream.

use crate::ipc::{Event, Window, WindowLayout};
use crate::state::maps::{
    index_values, indexed, indexed_is_keyed, indexed_of_listed, keyed, list_keys, list_values,
    lists_keys, lists_values, update_values, Keyed,
};
use crate::state::{run, run_one, EventStreamStatePart};
use std::collections::HashMap;
use vstd::prelude::*;

verus! {

/// The windows state communicated over the event stream.
#[derive(Debug)]
pub struct WindowsState {
    /// Map from a window id to the window.
    pub windows: HashMap<u64, Window>,
}

impl View for WindowsState {
    type V = Map<u64, Window>;

    open spec fn view(&self) -> Map<u64, Window> {
        self.windows@
    }
}

impl Keyed for Window {
    open spec fn spec_key(self) -> u64 {
        self.id
    }

    fn key(&self) -> (key: u64) {
        self.id
    }
}

/// The window without the focus, unless it is the one with the given id.
pub open spec fn unfocused_unless(win: Window, id: u64) -> Window {
    if win.id != id {
        Window { is_focused: false, ..win }
    } else {
        win
    }
}

/// The window focused exactly if it is the one with the given id.
pub open spec fn focused_if(win: Window, id: Option<u64>) -> Window {
    Window { is_focused: Some(win.id) == id, ..win }
}

/// The windows after `window` was opened or changed.
pub open spec fn after_open(pre: Map<u64, Window>, window: Window) -> Map<u64, Window> {
    let with_window = pre.insert(window.id, window);
    if window.is_focused {
        with_window.map_values(|win: Window| unfocused_unless(win, window.id))
    } else {
        with_window
    }
}

/// Whether some entry is the window with the given id.
pub open spec fn has_window(windows: Map<u64, Window>, id: u64) -> bool {
    exists|k: u64| #[trigger] windows.contains_key(k) && windows[k].id == id
}

/// Whether `post` is `pre` with one window of the given id changed by `patch`, or `pre` itself if
/// there is none.
pub open spec fn patched(
    pre: Map<u64, Window>,
    id: u64,
    patch: spec_fn(Window) -> Window,
    post: Map<u64, Window>,
) -> bool {
    if has_window(pre, id) {
        exists|k: u64| #[trigger]
            pre.contains_key(k) && pre[k].id == id && post == pre.insert(k, patch(pre[k]))
    } else {
        post == pre
    }
}

/// The windows after a list of layout changes, taken in order.
pub open spec fn with_layouts(
    pre: Map<u64, Window>,
    changes: Seq<(u64, WindowLayout)>,
) -> Map<u64, Window>
    decreases changes.len(),
{
    if changes.len() == 0 {
        pre
    } else {
        let before = with_layouts(pre, changes.drop_last());
        let (id, layout) = changes.last();
        before.insert(id, Window { layout, ..before[id] })
    }
}

impl WindowsState {
    /// Finds the entry of a window by the id of the window.
    fn find(&self, id: u64) -> (key: Option<u64>)
        ensures
            match key {
                Some(k) => self@.contains_key(k) && self@[k].id == id,
                None => !has_window(self@, id),
            },
    {
        let keys = list_keys(&self.windows);
        for i in 0..keys.len()
            invariant
                lists_keys(self@, keys@),
                forall|j: int| 0 <= j < i ==> self@[#[trigger] keys@[j]].id != id,
        {
            let key: u64 = keys[i];
            assert(keys@.contains(key));
            if let Some(win) = self.windows.get(&key) {
                if win.id == id {
                    return Some(key);
                }
            }
        }
        proof {
            assert forall|k: u64| #[trigger] self@.contains_key(k) implies self@[k].id != id by {
                assert(keys@.contains(k));
            }
        }
        None
    }

    /// Sets the layout of every listed window.
    fn change_layouts(&mut self, changes: Vec<(u64, WindowLayout)>)
        requires
            forall|i: int|
                0 <= i < changes@.len() ==> old(self)@.contains_key(#[trigger] changes@[i].0),
        ensures
            final(self)@ == with_layouts(old(self)@, changes@),
    {
        let ghost pre = self@;
        for i in 0..changes.len()
            invariant
                forall|j: int|
                    0 <= j < changes@.len() ==> pre.contains_key(#[trigger] changes@[j].0),
                self@.dom() == pre.dom(),
                self@ == with_layouts(pre, changes@.take(i as int)),
        {
            let (id, layout) = changes[i];
            let ghost before = self@;
            assert(pre.contains_key(changes@[i as int].0));
            assert(before.dom().contains(id));
            if let Some(win) = self.windows.remove(&id) {
                self.windows.insert(id, Window { layout, ..win });
            }
            proof {
                assert(changes@.take(i + 1).drop_last() =~= changes@.take(i as int));
                assert(self@ =~= before.insert(id, Window { layout, ..before[id] }));
                assert(self@.dom() =~= pre.dom());
            }
        }
        assert(changes@.take(changes@.len() as int) =~= changes@);
    }
}

impl Default for WindowsState {
    fn default() -> (state: Self)
        ensures
            state@ == Self::initial(),
    {
        WindowsState { windows: HashMap::new() }
    }
}

impl EventStreamStatePart for WindowsState {
    open spec fn initial() -> Map<u64, Window> {
        Map::empty()
    }

    open spec fn handles(event: Event) -> bool {
        event is WindowsChanged || event is WindowOpenedOrChanged || event is WindowClosed
            || event is WindowFocusChanged || event is WindowFocusTimestampChanged
            || event is WindowUrgencyChanged || event is WindowLayoutsChanged
    }

    open spec fn accepts(pre: Map<u64, Window>, event: Event) -> bool {
        match event {
            Event::WindowClosed { id } => pre.contains_key(id),
            Event::WindowLayoutsChanged { changes } => forall|i: int|
                0 <= i < changes@.len() ==> pre.contains_key(#[trigger] changes@[i].0),
            _ => true,
        }
    }

    open spec fn step(pre: Map<u64, Window>, event: Event, post: Map<u64, Window>) -> bool {
        match event {
            Event::WindowsChanged { windows } => post == indexed(windows@),
            Event::WindowOpenedOrChanged { window } => post == after_open(pre, window),
            Event::WindowClosed { id } => post == pre.remove(id),
            Event::WindowFocusChanged { id } => post == pre.map_values(
                |win: Window| focused_if(win, id),
            ),
            Event::WindowFocusTimestampChanged { id, focus_timestamp } => patched(
                pre,
                id,
                |win: Window| Window { focus_timestamp, ..win },
                post,
            ),
            Event::WindowUrgencyChanged { id, urgent } => patched(
                pre,
                id,
                |win: Window| Window { is_urgent: urgent, ..win },
                post,
            ),
            Event::WindowLayoutsChanged { changes } => post == with_layouts(pre, changes@),
            _ => false,
        }
    }

    open spec fn snapshot(state: Map<u64, Window>, events: Seq<Event>) -> bool {
        &&& events.len() == 1
        &&& events[0] matches Event::WindowsChanged { windows }
        &&& lists_values(state, windows@)
    }

    open spec fn consistent(state: Map<u64, Window>) -> bool {
        keyed(state)
    }

    fn replicate(&self) -> (events: Vec<Event>) {
        let windows = list_values(&self.windows);
        let mut events: Vec<Event> = Vec::new();
        events.push(Event::WindowsChanged { windows });
        events
    }

    fn apply(&mut self, event: Event) -> (rest: Option<Event>) {
        let ghost pre = self@;
        match event {
            Event::WindowsChanged { windows } => {
                self.windows = index_values(windows);
            },
            Event::WindowOpenedOrChanged { window } => {
                let id: u64 = window.id;
                let is_focused: bool = window.is_focused;
                let ghost opened = window;
                self.windows.insert(id, window);
                if is_focused {
                    let update = |win: Window| -> (out: Window)
                        ensures
                            out == unfocused_unless(win, id),
                        {
                            if win.id != id {
                                Window { is_focused: false, ..win }
                            } else {
                                win
                            }
                        };
                    update_values(&mut self.windows, update);
                }
                assert(self@ =~= after_open(pre, opened));
            },
            Event::WindowClosed { id } => {
                self.windows.remove(&id);
                assert(self@ =~= pre.remove(id));
            },
            Event::WindowFocusChanged { id } => {
                let update = |win: Window| -> (out: Window)
                    ensures
                        out == focused_if(win, id),
                    {
                        let is_focused: bool = match id {
                            Some(id) => win.id == id,
                            None => false,
                        };
                        Window { is_focused, ..win }
                    };
                update_values(&mut self.windows, update);
                assert(self@ =~= pre.map_values(|win: Window| focused_if(win, id)));
            },
            Event::WindowFocusTimestampChanged { id, focus_timestamp } => {
                if let Some(key) = self.find(id) {
                    if let Some(win) = self.windows.remove(&key) {
                        self.windows.insert(key, Window { focus_timestamp, ..win });
                    }
                    assert(self@ =~= pre.insert(key, Window { focus_timestamp, ..pre[key] }));
                }
            },
            Event::WindowUrgencyChanged { id, urgent } => {
                if let Some(key) = self.find(id) {
                    if let Some(win) = self.windows.remove(&key) {
                        self.windows.insert(key, Window { is_urgent: urgent, ..win });
                    }
                    assert(self@ =~= pre.insert(key, Window { is_urgent: urgent, ..pre[key] }));
                }
            },
            Event::WindowLayoutsChanged { changes } => {
                self.change_layouts(changes);
            },
            event => {
                return Some(event);
            },
        }
        None
    }

    proof fn initial_is_consistent() {
    }

    proof fn step_keeps_consistent(
        pre: Map<u64, Window>,
        event: Event,
        post: Map<u64, Window>,
    ) {
        match event {
            Event::WindowsChanged { windows } => {
                indexed_is_keyed(windows@);
            },
            Event::WindowLayoutsChanged { changes } => {
                with_layouts_is_keyed(pre, changes@);
            },
            _ => {},
        }
    }
}

proof fn with_layouts_is_keyed(pre: Map<u64, Window>, changes: Seq<(u64, WindowLayout)>)
    requires
        keyed(pre),
        forall|i: int| 0 <= i < changes.len() ==> pre.contains_key(#[trigger] changes[i].0),
    ensures
        keyed(with_layouts(pre, changes)),
        with_layouts(pre, changes).dom() == pre.dom(),
        forall|k: u64|
            #[trigger] pre.contains_key(k) ==> with_layouts(pre, changes)[k] == (Window {
                layout: with_layouts(pre, changes)[k].layout,
                ..pre[k]
            }),
    decreases changes.len(),
{
    if changes.len() > 0 {
        let front = changes.drop_last();
        assert forall|i: int| 0 <= i < front.len() implies pre.contains_key(
            #[trigger] front[i].0,
        ) by {
            assert(front[i] == changes[i]);
        }
        with_layouts_is_keyed(pre, front);
        assert(pre.contains_key(changes[changes.len() - 1].0));
        assert(with_layouts(pre, changes).dom() =~= pre.dom());
    }
}

/// A listed window gets the layout that the list gives it last, and one that is not listed keeps its
/// own; nothing else changes.
pub proof fn with_layouts_takes_the_last(
    pre: Map<u64, Window>,
    changes: Seq<(u64, WindowLayout)>,
    key: u64,
    at: int,
)
    requires
        forall|i: int| 0 <= i < changes.len() ==> pre.contains_key(#[trigger] changes[i].0),
    ensures
        with_layouts(pre, changes).contains_key(key) <==> pre.contains_key(key),
        pre.contains_key(key) ==> with_layouts(pre, changes)[key] == (Window {
            layout: with_layouts(pre, changes)[key].layout,
            ..pre[key]
        }),
        (forall|i: int| 0 <= i < changes.len() ==> (#[trigger] changes[i]).0 != key)
            && pre.contains_key(key) ==> with_layouts(pre, changes)[key] == pre[key],
        (0 <= at < changes.len() && changes[at].0 == key && forall|later: int|
            at < later < changes.len() ==> (#[trigger] changes[later]).0 != key) ==> with_layouts(
            pre,
            changes,
        )[key].layout == changes[at].1,
    decreases changes.len(),
{
    if changes.len() > 0 {
        let front = changes.drop_last();
        assert forall|i: int| 0 <= i < front.len() implies pre.contains_key(
            #[trigger] front[i].0,
        ) by {
            assert(front[i] == changes[i]);
        }
        with_layouts_takes_the_last(pre, front, key, at);
        assert(pre.contains_key(changes[changes.len() - 1].0));
        if forall|i: int| 0 <= i < changes.len() ==> (#[trigger] changes[i]).0 != key {
            assert forall|i: int| 0 <= i < front.len() implies (#[trigger] front[i]).0 != key by {
                assert(changes[i].0 != key);
            }
            assert(changes[changes.len() - 1].0 != key);
        }
        if 0 <= at < changes.len() && changes[at].0 == key && forall|later: int|
            at < later < changes.len() ==> (#[trigger] changes[later]).0 != key {
            if at < changes.len() - 1 {
                assert forall|later: int| at < later < front.len() implies (
                #[trigger] front[later]).0 != key by {
                    assert(changes[later].0 != key);
                }
                assert(changes[changes.len() - 1].0 != key);
            }
        }
    }
}

/// Applying a snapshot of the windows to the initial state gives the windows back.
pub proof fn windows_snapshot_restores(
    state: Map<u64, Window>,
    events: Seq<Event>,
    post: Map<u64, Window>,
)
    requires
        WindowsState::consistent(state),
        WindowsState::snapshot(state, events),
    ensures
        run::<WindowsState>(WindowsState::initial(), events, post) <==> post == state,
{
    if let Event::WindowsChanged { windows } = events[0] {
        indexed_of_listed(state, windows@);
    }
    run_one::<WindowsState>(WindowsState::initial(), events, post);
}

/// Whether at most one window has the focus.
pub open spec fn focus_is_unique(windows: Map<u64, Window>) -> bool {
    forall|j: u64, k: u64|
        #[trigger] windows.contains_key(j) && #[trigger] windows.contains_key(k)
            && windows[j].is_focused && windows[k].is_focused ==> j == k
}

/// No event gives the focus to a second window; only a whole new set of windows could.
pub proof fn focus_stays_unique(pre: Map<u64, Window>, event: Event, post: Map<u64, Window>)
    requires
        keyed(pre),
        focus_is_unique(pre),
        WindowsState::handles(event),
        WindowsState::accepts(pre, event),
        WindowsState::step(pre, event, post),
        !(event is WindowsChanged),
    ensures
        focus_is_unique(post),
{
    if let Event::WindowLayoutsChanged { changes } = event {
        with_layouts_is_keyed(pre, changes@);
        assert forall|k: u64| #[trigger] post.contains_key(k) implies pre.contains_key(k)
            && post[k].is_focused == pre[k].is_focused by {
            assert(post.dom().contains(k));
        }
    }
}

} // verus!
