//! Block-out state of the event stream.

use crate::ipc::{BlockOutState, BlockOutStateView, BlockedWindow, Event};
use crate::state::{run, run_one, EventStreamStatePart};
use vstd::prelude::*;

verus! {

/// The block-out state communicated over the event stream.
#[derive(Debug)]
pub struct BlockOutStateState {
    /// Current block-out state snapshot.
    pub block_out_state: Option<BlockOutState>,
}

impl View for BlockOutStateState {
    type V = Option<BlockOutStateView>;

    open spec fn view(&self) -> Option<BlockOutStateView> {
        match self.block_out_state {
            Some(block_out_state) => Some(block_out_state@),
            None => None,
        }
    }
}

/// Whether the window is listed.
pub open spec fn has_blocked(windows: Seq<BlockedWindow>, id: u64) -> bool {
    exists|i: int| 0 <= i < windows.len() && (#[trigger] windows[i]).id == id
}

/// Whether `i` is the first place where the window is listed.
pub open spec fn first_blocked(windows: Seq<BlockedWindow>, id: u64, i: int) -> bool {
    &&& 0 <= i < windows.len()
    &&& windows[i].id == id
    &&& forall|j: int| 0 <= j < i ==> (#[trigger] windows[j]).id != id
}

/// Whether the windows are listed in the order of their ids.
pub open spec fn sorted_by_id(windows: Seq<BlockedWindow>) -> bool {
    forall|i: int, j: int| 0 <= i < j < windows.len() ==> (#[trigger] windows[i]).id <= (
    #[trigger] windows[j]).id
}

/// Whether the windows are listed in the order of their ids, each id once.
pub open spec fn ascending_ids(windows: Seq<BlockedWindow>) -> bool {
    forall|i: int, j: int| 0 <= i < j < windows.len() ==> (#[trigger] windows[i]).id < (
    #[trigger] windows[j]).id
}

/// Whether `post` is `pre` with the window put in.
///
/// A window with the same id is replaced where it is listed first. Otherwise the window joins the
/// list, and the list is sorted by id.
pub open spec fn upserted(
    pre: Seq<BlockedWindow>,
    window: BlockedWindow,
    post: Seq<BlockedWindow>,
) -> bool {
    if has_blocked(pre, window.id) {
        exists|i: int| #[trigger]
            first_blocked(pre, window.id, i) && post == pre.update(i, window)
    } else {
        sorted_by_id(post) && post.to_multiset() == pre.push(window).to_multiset()
    }
}

/// The state that patches start from when no snapshot was received yet.
pub open spec fn base_of(state: Option<BlockOutStateView>) -> BlockOutStateView {
    match state {
        Some(state) => state,
        None => BlockOutStateView {
            is_enabled: false,
            windows: Seq::empty(),
            layers: Seq::empty(),
        },
    }
}

/// The windows other than the one with the given id.
pub open spec fn without_blocked(windows: Seq<BlockedWindow>, id: u64) -> Seq<BlockedWindow> {
    windows.filter(|window: BlockedWindow| window.id != id)
}

/// Sorts the windows by id.
fn sort_by_id(windows: &mut Vec<BlockedWindow>)
    ensures
        sorted_by_id(final(windows)@),
        final(windows)@.to_multiset() == old(windows)@.to_multiset(),
{
    broadcast use vstd::seq_lib::group_to_multiset_ensures;

    let ghost start = windows@;
    let len = windows.len();
    for sorted in 0..len
        invariant
            windows@.len() == len,
            windows@.to_multiset() == start.to_multiset(),
            sorted_by_id(windows@.take(sorted as int)),
    {
        let ghost before = windows@;
        let window = windows.remove(sorted);
        let mut place: usize = 0;
        while place < sorted && windows[place].id <= window.id
            invariant
                place <= sorted < len,
                windows@ == before.remove(sorted as int),
                before.len() == len,
                forall|i: int| 0 <= i < place ==> (#[trigger] windows@[i]).id <= window.id,
            decreases sorted - place,
        {
            place += 1;
        }
        let ghost rest = windows@;
        windows.insert(place, window);
        proof {
            vstd::seq_lib::to_multiset_remove(before, sorted as int);
            vstd::seq_lib::to_multiset_insert(rest, place as int, window);
            vstd::seq_lib::to_multiset_contains(before, window);
            assert(before[sorted as int] == window);
            assert(windows@.to_multiset() =~= start.to_multiset());
            assert forall|i: int, j: int| 0 <= i < j < sorted + 1 implies (
            #[trigger] windows@.take(sorted + 1)[i]).id <= (#[trigger] windows@.take(
                sorted + 1,
            )[j]).id by {
                let prefix = before.take(sorted as int);
                let at = |k: int| if k < place { k } else { k - 1 };
                assert(i != place ==> windows@[i] == prefix[at(i)]);
                assert(j != place ==> windows@[j] == prefix[at(j)]);
                if place < sorted {
                    assert(rest[place as int] == prefix[place as int]);
                }
            }
        }
    }
    assert(windows@.take(len as int) =~= windows@);
}

/// Puts a window into the list of blocked-out windows.
pub fn upsert_blocked_window(windows: &mut Vec<BlockedWindow>, window: BlockedWindow)
    ensures
        upserted(old(windows)@, window, final(windows)@),
{
    let ghost pre = windows@;
    let len = windows.len();
    for i in 0..len
        invariant
            pre == old(windows)@,
            windows@ == pre,
            len == pre.len(),
            forall|j: int| 0 <= j < i ==> (#[trigger] pre[j]).id != window.id,
    {
        if windows[i].id == window.id {
            assert(first_blocked(pre, window.id, i as int));
            windows.set(i, window);
            return;
        }
    }
    windows.push(window);
    sort_by_id(windows);
}

/// Drops the window with the given id from the list.
fn remove_blocked_window(windows: Vec<BlockedWindow>, id: u64) -> (kept: Vec<BlockedWindow>)
    ensures
        kept@ == without_blocked(windows@, id),
{
    let ghost keep = |window: BlockedWindow| window.id != id;
    let mut kept: Vec<BlockedWindow> = Vec::new();
    for window in iter: windows
        invariant
            iter.seq() == windows@,
            keep == (|window: BlockedWindow| window.id != id),
            kept@ == windows@.take(iter.index() as int).filter(keep),
    {
        proof {
            let i = iter.index() as int;
            reveal(Seq::filter);
            assert(windows@.take(i + 1).drop_last() =~= windows@.take(i));
        }
        if window.id != id {
            kept.push(window);
        }
    }
    assert(windows@.take(windows@.len() as int) =~= windows@);
    kept
}

impl Default for BlockOutStateState {
    fn default() -> (state: Self)
        ensures
            state@ == Self::initial(),
    {
        BlockOutStateState { block_out_state: None }
    }
}

impl EventStreamStatePart for BlockOutStateState {
    open spec fn initial() -> Option<BlockOutStateView> {
        None
    }

    open spec fn handles(event: Event) -> bool {
        event is BlockOutStateChanged || event is BlockOutWindowAddedOrChanged
            || event is BlockOutWindowRemoved || event is BlockOutEnabledChanged
    }

    open spec fn accepts(pre: Option<BlockOutStateView>, event: Event) -> bool {
        true
    }

    open spec fn step(
        pre: Option<BlockOutStateView>,
        event: Event,
        post: Option<BlockOutStateView>,
    ) -> bool {
        match event {
            Event::BlockOutStateChanged { block_out_state } => post == Some(block_out_state@),
            Event::BlockOutWindowAddedOrChanged { window } => {
                &&& post matches Some(state)
                &&& state == BlockOutStateView { windows: state.windows, ..base_of(pre) }
                &&& upserted(base_of(pre).windows, window, state.windows)
            },
            Event::BlockOutWindowRemoved { id } => match pre {
                Some(state) => post == Some(
                    BlockOutStateView { windows: without_blocked(state.windows, id), ..state },
                ),
                None => post is None,
            },
            Event::BlockOutEnabledChanged { is_enabled } => post == Some(
                BlockOutStateView { is_enabled, ..base_of(pre) },
            ),
            _ => false,
        }
    }

    open spec fn snapshot(state: Option<BlockOutStateView>, events: Seq<Event>) -> bool {
        match state {
            Some(state) => {
                &&& events.len() == 1
                &&& events[0] matches Event::BlockOutStateChanged { block_out_state }
                &&& block_out_state@ == state
            },
            None => events.len() == 0,
        }
    }

    open spec fn consistent(state: Option<BlockOutStateView>) -> bool {
        true
    }

    fn replicate(&self) -> (events: Vec<Event>) {
        let mut events: Vec<Event> = Vec::new();
        if let Some(block_out_state) = &self.block_out_state {
            events.push(Event::BlockOutStateChanged { block_out_state: block_out_state.clone() });
        }
        events
    }

    fn apply(&mut self, event: Event) -> (rest: Option<Event>) {
        match event {
            Event::BlockOutStateChanged { block_out_state } => {
                self.block_out_state = Some(block_out_state);
            },
            Event::BlockOutWindowAddedOrChanged { window } => {
                let mut state = take_or_empty(&mut self.block_out_state);
                upsert_blocked_window(&mut state.windows, window);
                self.block_out_state = Some(state);
            },
            Event::BlockOutWindowRemoved { id } => {
                if let Some(state) = self.block_out_state.take() {
                    self.block_out_state = Some(
                        BlockOutState {
                            windows: remove_blocked_window(state.windows, id),
                            is_enabled: state.is_enabled,
                            layers: state.layers,
                        },
                    );
                }
            },
            Event::BlockOutEnabledChanged { is_enabled } => {
                let state = take_or_empty(&mut self.block_out_state);
                self.block_out_state = Some(BlockOutState { is_enabled, ..state });
            },
            event => {
                return Some(event);
            },
        }
        None
    }

    proof fn initial_is_consistent() {
    }

    proof fn step_keeps_consistent(
        pre: Option<BlockOutStateView>,
        event: Event,
        post: Option<BlockOutStateView>,
    ) {
    }
}

/// Takes the state out, or gives the one to start from if there is none.
fn take_or_empty(state: &mut Option<BlockOutState>) -> (taken: BlockOutState)
    ensures
        *final(state) is None,
        taken@ == base_of(
            match *old(state) {
                Some(state) => Some(state@),
                None => None,
            },
        ),
{
    match state.take() {
        Some(state) => state,
        None => BlockOutState { is_enabled: false, windows: Vec::new(), layers: Vec::new() },
    }
}

/// Applying a snapshot of the block-out state to the initial state gives the state back.
pub proof fn block_out_snapshot_restores(
    state: Option<BlockOutStateView>,
    events: Seq<Event>,
    post: Option<BlockOutStateView>,
)
    requires
        BlockOutStateState::snapshot(state, events),
    ensures
        run::<BlockOutStateState>(BlockOutStateState::initial(), events, post) <==> post == state,
{
    if state is Some {
        run_one::<BlockOutStateState>(BlockOutStateState::initial(), events, post);
    }
}

/// Putting a window in lists it, and leaves the windows with other ids listed as they were; the list
/// grows by one exactly if no window with that id was listed, and then comes in the order of the ids.
pub proof fn upsert_replaces_one(
    pre: Seq<BlockedWindow>,
    window: BlockedWindow,
    post: Seq<BlockedWindow>,
    other: BlockedWindow,
)
    requires
        upserted(pre, window, post),
    ensures
        post.contains(window),
        other.id != window.id ==> (post.contains(other) <==> pre.contains(other)),
        post.len() == pre.len() + (if has_blocked(pre, window.id) {
            0int
        } else {
            1int
        }),
        !has_blocked(pre, window.id) ==> sorted_by_id(post),
        has_blocked(pre, window.id) ==> forall|i: int|
            0 <= i < pre.len() && (#[trigger] pre[i]).id != window.id ==> post[i] == pre[i],
{
    if has_blocked(pre, window.id) {
        let i = choose|i: int| #[trigger]
            first_blocked(pre, window.id, i) && post == pre.update(i, window);
        assert(post[i] == window);
        if pre.contains(other) && other.id != window.id {
            let at = choose|at: int| 0 <= at < pre.len() && pre[at] == other;
            assert(post[at] == other);
        }
        if post.contains(other) && other.id != window.id {
            let at = choose|at: int| 0 <= at < post.len() && post[at] == other;
            assert(pre[at] == other);
        }
    } else {
        broadcast use vstd::seq_lib::group_to_multiset_ensures;

        let all = pre.push(window);
        assert(all[pre.len() as int] == window);
        vstd::seq_lib::to_multiset_contains(post, window);
        vstd::seq_lib::to_multiset_contains(all, window);
        vstd::seq_lib::to_multiset_contains(post, other);
        vstd::seq_lib::to_multiset_contains(all, other);
        if pre.contains(other) {
            let at = choose|at: int| 0 <= at < pre.len() && pre[at] == other;
            assert(all[at] == other);
        }
        if all.contains(other) && other != window {
            let at = choose|at: int| 0 <= at < all.len() && all[at] == other;
            assert(pre[at] == other);
        }
        assert(post.len() == post.to_multiset().len());
        assert(all.len() == all.to_multiset().len());
    }
}

/// A list of blocked-out windows in the order of their ids, each id once, stays one when a window
/// is put in.
pub proof fn upsert_keeps_ascending(
    pre: Seq<BlockedWindow>,
    window: BlockedWindow,
    post: Seq<BlockedWindow>,
)
    requires
        ascending_ids(pre),
        upserted(pre, window, post),
    ensures
        ascending_ids(post),
{
    if !has_blocked(pre, window.id) {
        broadcast use vstd::seq_lib::group_to_multiset_ensures;

        let all = pre.push(window);
        assert(forall|i: int, j: int|
            0 <= i < all.len() && 0 <= j < all.len() && all[i].id == all[j].id ==> i == j);
        assert(all.no_duplicates());
        all.lemma_multiset_has_no_duplicates();
        post.lemma_multiset_has_no_duplicates_conv();
        assert forall|i: int, j: int| 0 <= i < j < post.len() implies (#[trigger] post[i]).id < (
        #[trigger] post[j]).id by {
            if post[i].id == post[j].id {
                vstd::seq_lib::to_multiset_contains(post, post[i]);
                vstd::seq_lib::to_multiset_contains(post, post[j]);
                vstd::seq_lib::to_multiset_contains(all, post[i]);
                vstd::seq_lib::to_multiset_contains(all, post[j]);
                assert(all.contains(post[i]) && all.contains(post[j]));
            }
        }
    }
}

/// A list of blocked-out windows in the order of their ids, each id once, stays one when a window
/// is dropped.
pub proof fn removal_keeps_ascending(windows: Seq<BlockedWindow>, id: u64)
    requires
        ascending_ids(windows),
    ensures
        ascending_ids(without_blocked(windows, id)),
        !has_blocked(without_blocked(windows, id), id),
    decreases windows.len(),
{
    reveal(Seq::filter);
    let kept = without_blocked(windows, id);
    if windows.len() > 0 {
        let front = windows.drop_last();
        removal_keeps_ascending(front, id);
        let keep = |window: BlockedWindow| window.id != id;
        assert forall|i: int| 0 <= i < front.filter(keep).len() implies (
        #[trigger] front.filter(keep)[i]).id < windows.last().id by {
            front.lemma_filter_contains_rev(keep, front.filter(keep)[i]);
        }
    }
}

} // verus!
