//! Elements that are drawn in place of a window.

use std::collections::HashMap;
use vstd::prelude::*;

verus! {

/// How an element ended up on the output.
#[derive(Debug, Clone, Copy, PartialEq, Eq, Structural)]
pub enum Presentation {
    /// The element was drawn.
    Rendering,
    /// The element was scanned out directly.
    ZeroCopy,
    /// The element was not visible.
    Skipped,
}

/// What became of one element.
#[derive(Debug, Clone, Copy, PartialEq, Eq, Structural)]
pub struct ElementState {
    /// Visible area in physical pixels.
    pub visible_area: usize,
    /// How it ended up on the output.
    pub presentation: Presentation,
}

/// What became of the elements of one rendered frame.
#[derive(Debug)]
pub struct RenderedElements {
    /// Id of the offscreen element, by a number of the host.
    pub id: u64,
    /// States of the elements inside, by their numbers.
    pub states: Vec<(u64, ElementState)>,
}

/// Data of an offscreen element.
#[derive(Debug)]
pub struct OffscreenData {
    /// Id of the outermost offscreen element.
    pub id: u64,
    /// States of the elements of all layers.
    pub states: HashMap<u64, ElementState>,
}

/// The contents of [`OffscreenData`].
pub struct OffscreenView {
    pub id: u64,
    pub states: Map<u64, ElementState>,
}

impl View for OffscreenData {
    type V = OffscreenView;

    open spec fn view(&self) -> OffscreenView {
        OffscreenView { id: self.id, states: self.states@ }
    }
}

/// The states after further ones were entered; a later state of an element replaces an earlier
/// one.
pub open spec fn entered(
    states: Map<u64, ElementState>,
    further: Seq<(u64, ElementState)>,
) -> Map<u64, ElementState>
    decreases further.len(),
{
    if further.len() == 0 {
        states
    } else {
        entered(states, further.drop_last()).insert(further.last().0, further.last().1)
    }
}

/// The contents of optional offscreen data.
pub open spec fn offscreen_of(data: &Option<OffscreenData>) -> Option<OffscreenView> {
    match data {
        Some(data) => Some(data@),
        None => None,
    }
}

/// The offscreen data after a frame was rendered.
///
/// With several layers of offscreen, such as a resize animation inside an alpha animation, the
/// id is that of the last layer and the element states of all layers are kept.
pub open spec fn amended(
    data: Option<OffscreenView>,
    id: u64,
    states: Seq<(u64, ElementState)>,
) -> OffscreenView {
    OffscreenView {
        id,
        states: entered(
            match data {
                Some(data) => data.states,
                None => Map::empty(),
            },
            states,
        ),
    }
}

/// Elements that a frame does not mention keep their state, and the elements that it mentions are
/// all there afterwards.
pub proof fn entering_keeps_other_elements(
    states: Map<u64, ElementState>,
    further: Seq<(u64, ElementState)>,
    element: u64,
)
    ensures
        (forall|i: int| 0 <= i < further.len() ==> (#[trigger] further[i]).0 != element)
            ==> entered(states, further).dom().contains(element) == states.dom().contains(element)
            && (states.dom().contains(element) ==> entered(states, further)[element]
            == states[element]),
        (exists|i: int| 0 <= i < further.len() && (#[trigger] further[i]).0 == element) ==> entered(
            states,
            further,
        ).dom().contains(element),
    decreases further.len(),
{
    if further.len() > 0 {
        entering_keeps_other_elements(states, further.drop_last(), element);
        if exists|i: int| 0 <= i < further.len() && (#[trigger] further[i]).0 == element {
            let at = choose|i: int| 0 <= i < further.len() && (#[trigger] further[i]).0 == element;
            if at < further.len() - 1 {
                assert(further.drop_last()[at].0 == element);
            }
        } else {
            assert forall|i: int| 0 <= i < further.drop_last().len() implies (
            #[trigger] further.drop_last()[i]).0 != element by {
                assert(further[i].0 != element);
            }
        }
    }
}

/// Of several states of an element, the last one stays.
pub proof fn last_state_stays(
    states: Map<u64, ElementState>,
    further: Seq<(u64, ElementState)>,
    at: int,
)
    requires
        0 <= at < further.len(),
        forall|later: int|
            at < later < further.len() ==> (#[trigger] further[later]).0 != further[at].0,
    ensures
        entered(states, further).dom().contains(further[at].0),
        entered(states, further)[further[at].0] == further[at].1,
    decreases further.len(),
{
    if at < further.len() - 1 {
        let front = further.drop_last();
        assert forall|later: int| at < later < front.len() implies (#[trigger] front[later]).0
            != front[at].0 by {
            assert(further[later].0 != further[at].0);
        }
        assert(further[further.len() - 1].0 != further[at].0);
        last_state_stays(states, front, at);
    }
}

/// Enters what became of the elements of a frame.
pub fn amend(data: &mut Option<OffscreenData>, rendered: RenderedElements)
    ensures
        offscreen_of(final(data)) == Some(
            amended(offscreen_of(old(data)), rendered.id, rendered.states@),
        ),
{
    broadcast use vstd::std_specs::hash::group_hash_axioms;

    let mut states: HashMap<u64, ElementState> = match data.take() {
        Some(existing) => existing.states,
        None => HashMap::new(),
    };
    let ghost before = states@;
    for i in 0..rendered.states.len()
        invariant
            states@ == entered(before, rendered.states@.take(i as int)),
    {
        broadcast use vstd::std_specs::hash::group_hash_axioms;

        let (element, state) = rendered.states[i];
        states.insert(element, state);
        proof {
            assert(rendered.states@.take(i + 1).drop_last() =~= rendered.states@.take(i as int));
        }
    }
    proof {
        assert(rendered.states@.take(rendered.states@.len() as int) =~= rendered.states@);
    }
    *data = Some(OffscreenData { id: rendered.id, states });
}

} // verus!
