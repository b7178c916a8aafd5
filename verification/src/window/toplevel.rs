//! What has been configured on a toplevel surface, and what its client made of it.

use crate::geometry::{Rect, Size};
use crate::serial::Serial;
use vstd::prelude::*;

verus! {

/// A state that a toplevel can be told to be in.
#[derive(Debug, Clone, Copy, PartialEq, Eq, Structural)]
pub enum ToplevelFlag {
    Maximized,
    Fullscreen,
    Resizing,
    Activated,
    TiledLeft,
    TiledRight,
    TiledTop,
    TiledBottom,
    Suspended,
    /// A state of a later protocol version, by its number.
    Other(u32),
}

/// The states of a toplevel, in the order in which they were set.
///
/// Two sets with the same states in a different order are different: the client is told them in
/// that order.
#[derive(Debug)]
pub struct ToplevelStateSet {
    pub states: Vec<ToplevelFlag>,
}

impl View for ToplevelStateSet {
    type V = Seq<ToplevelFlag>;

    open spec fn view(&self) -> Seq<ToplevelFlag> {
        self.states@
    }
}

/// The states after setting one of them.
pub open spec fn with_flag(states: Seq<ToplevelFlag>, flag: ToplevelFlag) -> Seq<ToplevelFlag> {
    if states.contains(flag) {
        states
    } else {
        states.push(flag)
    }
}

/// Tells the other states from `flag`.
pub open spec fn other_than(flag: ToplevelFlag) -> spec_fn(ToplevelFlag) -> bool {
    |state: ToplevelFlag| state != flag
}

/// The states after unsetting one of them.
pub open spec fn without_flag(states: Seq<ToplevelFlag>, flag: ToplevelFlag) -> Seq<ToplevelFlag> {
    states.filter(other_than(flag))
}

/// The states after setting or unsetting one of them.
pub open spec fn with_flag_if(
    states: Seq<ToplevelFlag>,
    flag: ToplevelFlag,
    is_set: bool,
) -> Seq<ToplevelFlag> {
    if is_set {
        with_flag(states, flag)
    } else {
        without_flag(states, flag)
    }
}

/// A state that was set is there, one that was unset is not, every other one is as it was, and
/// none occurs twice.
pub proof fn flag_follows_setting(
    states: Seq<ToplevelFlag>,
    flag: ToplevelFlag,
    is_set: bool,
    other: ToplevelFlag,
)
    ensures
        with_flag_if(states, flag, is_set).contains(flag) == is_set,
        other != flag ==> with_flag_if(states, flag, is_set).contains(other) == states.contains(
            other,
        ),
        states.no_duplicates() ==> with_flag_if(states, flag, is_set).no_duplicates(),
{
    broadcast use {Seq::lemma_filter_pred, Seq::lemma_filter_contains};

    let keep = other_than(flag);
    let after = with_flag_if(states, flag, is_set);
    if states.contains(other) {
        let at = choose|at: int| 0 <= at < states.len() && states[at] == other;
        if is_set {
            assert(after[at] == other);
        } else if other != flag {
            assert(keep(states[at]));
        }
    }
    if is_set {
        if !states.contains(flag) {
            assert(after[states.len() as int] == flag);
        }
    } else {
        if after.contains(other) {
            states.lemma_filter_contains_rev(keep, other);
        }
        if states.no_duplicates() {
            filter_keeps_distinct(states, keep);
        }
    }
}

proof fn filter_keeps_distinct(states: Seq<ToplevelFlag>, keep: spec_fn(ToplevelFlag) -> bool)
    requires
        states.no_duplicates(),
    ensures
        states.filter(keep).no_duplicates(),
    decreases states.len(),
{
    reveal(Seq::filter);
    if states.len() > 0 {
        let front = states.drop_last();
        filter_keeps_distinct(front, keep);
        if front.filter(keep).contains(states.last()) {
            front.lemma_filter_contains_rev(keep, states.last());
        }
    }
}

impl ToplevelStateSet {
    /// Tells whether a state is set.
    pub fn contains(&self, flag: ToplevelFlag) -> (found: bool)
        ensures
            found == self@.contains(flag),
    {
        for state in states: self.states.iter()
            invariant
                states.seq().len() == self@.len(),
                forall|i: int| 0 <= i < self@.len() ==> *states.seq()[i] == self@[i],
                forall|i: int| 0 <= i < states.index() ==> self@[i] != flag,
        {
            if *state == flag {
                assert(self@[states.index() as int] == flag);
                return true;
            }
        }
        false
    }

    /// Sets a state, and tells whether that changed anything.
    pub fn set(&mut self, flag: ToplevelFlag) -> (changed: bool)
        ensures
            final(self)@ == with_flag(old(self)@, flag),
            changed == !old(self)@.contains(flag),
    {
        if self.contains(flag) {
            false
        } else {
            self.states.push(flag);
            true
        }
    }

    /// Unsets a state, and tells whether that changed anything.
    pub fn unset(&mut self, flag: ToplevelFlag) -> (changed: bool)
        ensures
            final(self)@ == without_flag(old(self)@, flag),
            changed == old(self)@.contains(flag),
    {
        let changed = self.contains(flag);
        let mut kept: Vec<ToplevelFlag> = Vec::new();
        for state in states: self.states.iter()
            invariant
                states.seq().len() == self@.len(),
                forall|i: int| 0 <= i < self@.len() ==> *states.seq()[i] == self@[i],
                kept@ == self@.take(states.index() as int).filter(other_than(flag)),
        {
            proof {
                reveal(Seq::filter);
                let at = states.index() as int;
                assert(self@.take(at + 1).drop_last() =~= self@.take(at));
            }
            if *state != flag {
                kept.push(*state);
            }
        }
        proof {
            assert(self@.take(self@.len() as int) =~= self@);
        }
        self.states = kept;
        changed
    }

    /// Sets or unsets a state, and tells whether that changed anything.
    pub fn assign(&mut self, flag: ToplevelFlag, is_set: bool) -> (changed: bool)
        ensures
            final(self)@ == with_flag_if(old(self)@, flag, is_set),
            changed == (old(self)@.contains(flag) != is_set),
    {
        if is_set {
            self.set(flag)
        } else {
            self.unset(flag)
        }
    }

    /// Compares two sets, order included.
    pub fn same(&self, other: &ToplevelStateSet) -> (same: bool)
        ensures
            same == (self@ == other@),
    {
        if self.states.len() != other.states.len() {
            return false;
        }
        for i in 0..self.states.len()
            invariant
                self@.len() == other@.len(),
                forall|j: int| 0 <= j < i ==> self@[j] == other@[j],
        {
            if self.states[i] != other.states[i] {
                return false;
            }
        }
        assert(self@ =~= other@);
        true
    }

    /// Copies the set.
    pub fn copied(&self) -> (copy: ToplevelStateSet)
        ensures
            copy@ == self@,
    {
        let mut states: Vec<ToplevelFlag> = Vec::new();
        for i in 0..self.states.len()
            invariant
                states@ == self@.take(i as int),
        {
            states.push(self.states[i]);
        }
        ToplevelStateSet { states }
    }
}

/// Who draws the window decorations.
#[derive(Debug, Clone, Copy, PartialEq, Eq, Structural)]
pub enum DecorationMode {
    ClientSide,
    ServerSide,
    /// A mode that is none of these, by its number in the protocol.
    Other(u32),
}

/// Actions that the compositor offers for a toplevel.
#[derive(Debug, Clone, Copy, PartialEq, Eq, Structural)]
pub struct Capabilities {
    pub window_menu: bool,
    pub maximize: bool,
    pub fullscreen: bool,
    pub minimize: bool,
}

/// The state that a configure tells a toplevel to assume.
#[derive(Debug)]
pub struct ToplevelState {
    /// Suggested size.
    pub size: Option<Size>,
    /// Bounds that the window should fit in.
    pub bounds: Option<Size>,
    /// States that are set.
    pub states: ToplevelStateSet,
    /// Output for a fullscreen display, by an id of the host.
    pub fullscreen_output: Option<u64>,
    /// Decoration mode, where it was negotiated.
    pub decoration_mode: Option<DecorationMode>,
    /// Offered actions.
    pub capabilities: Capabilities,
}

/// The contents of a [`ToplevelState`].
pub struct ToplevelStateView {
    pub size: Option<Size>,
    pub bounds: Option<Size>,
    pub states: Seq<ToplevelFlag>,
    pub fullscreen_output: Option<u64>,
    pub decoration_mode: Option<DecorationMode>,
    pub capabilities: Capabilities,
}

impl View for ToplevelState {
    type V = ToplevelStateView;

    open spec fn view(&self) -> ToplevelStateView {
        ToplevelStateView {
            size: self.size,
            bounds: self.bounds,
            states: self.states@,
            fullscreen_output: self.fullscreen_output,
            decoration_mode: self.decoration_mode,
            capabilities: self.capabilities,
        }
    }
}

impl ToplevelState {
    /// Compares two states.
    pub fn same(&self, other: &ToplevelState) -> (same: bool)
        ensures
            same == (self@ == other@),
    {
        self.size == other.size && self.bounds == other.bounds && self.states.same(&other.states)
            && self.fullscreen_output == other.fullscreen_output && self.decoration_mode
            == other.decoration_mode && self.capabilities == other.capabilities
    }

    /// Copies the state.
    pub fn copied(&self) -> (copy: ToplevelState)
        ensures
            copy@ == self@,
    {
        ToplevelState {
            size: self.size,
            bounds: self.bounds,
            states: self.states.copied(),
            fullscreen_output: self.fullscreen_output,
            decoration_mode: self.decoration_mode,
            capabilities: self.capabilities,
        }
    }
}

/// A configure that was sent.
#[derive(Debug)]
pub struct ToplevelConfigure {
    pub state: ToplevelState,
    pub serial: Serial,
}

/// The contents of a [`ToplevelConfigure`].
pub struct ToplevelConfigureView {
    pub state: ToplevelStateView,
    pub serial: Serial,
}

impl View for ToplevelConfigure {
    type V = ToplevelConfigureView;

    open spec fn view(&self) -> ToplevelConfigureView {
        ToplevelConfigureView { state: self.state@, serial: self.serial }
    }
}

/// Where a toplevel surface stands between the compositor and its client.
#[derive(Debug)]
pub struct Toplevel {
    /// Geometry that the client declared for its window.
    pub geometry: Rect,
    /// State that the client committed to; absent once the surface is unmapped.
    pub committed: Option<ToplevelState>,
    /// State that the next configure will tell, once something asked for a change.
    pub server_pending: Option<ToplevelState>,
    /// State that the last configure told.
    pub current_server: ToplevelState,
    /// The last configure, until the client has committed to it.
    pub last_uncommitted: Option<ToplevelConfigure>,
    /// Serial of the configure that the current commit answers.
    pub committed_serial: Option<Serial>,
}

/// The contents of a [`Toplevel`].
pub struct ToplevelView {
    pub geometry: Rect,
    pub committed: Option<ToplevelStateView>,
    pub server_pending: Option<ToplevelStateView>,
    pub current_server: ToplevelStateView,
    pub last_uncommitted: Option<ToplevelConfigureView>,
    pub committed_serial: Option<Serial>,
}

/// The contents of an optional state.
pub open spec fn state_of(state: &Option<ToplevelState>) -> Option<ToplevelStateView> {
    match state {
        Some(state) => Some(state@),
        None => None,
    }
}

/// The contents of an optional configure.
pub open spec fn configure_of(configure: &Option<ToplevelConfigure>) -> Option<
    ToplevelConfigureView,
> {
    match configure {
        Some(configure) => Some(configure@),
        None => None,
    }
}

impl View for Toplevel {
    type V = ToplevelView;

    open spec fn view(&self) -> ToplevelView {
        ToplevelView {
            geometry: self.geometry,
            committed: state_of(&self.committed),
            server_pending: state_of(&self.server_pending),
            current_server: self.current_server@,
            last_uncommitted: configure_of(&self.last_uncommitted),
            committed_serial: self.committed_serial,
        }
    }
}

impl ToplevelView {
    /// The state that the next configure will tell: what is pending, or what was told last.
    pub open spec fn pending(self) -> ToplevelStateView {
        match self.server_pending {
            Some(state) => state,
            None => self.current_server,
        }
    }

    /// The toplevel with another pending state.
    pub open spec fn with_pending(self, state: ToplevelStateView) -> ToplevelView {
        ToplevelView { server_pending: Some(state), ..self }
    }

    /// Whether the next configure would tell anything new.
    pub open spec fn has_changes(self) -> bool {
        self.server_pending is Some && self.server_pending->0 != self.current_server
    }

    /// The toplevel once the pending state has been sent.
    pub open spec fn sent(self, serial: Serial) -> ToplevelView {
        ToplevelView {
            server_pending: None,
            current_server: self.pending(),
            last_uncommitted: Some(
                ToplevelConfigureView { state: self.pending(), serial },
            ),
            ..self
        }
    }
}

impl Toplevel {
    /// Reads the state that the next configure will tell.
    pub fn pending(&self) -> (state: &ToplevelState)
        ensures
            state@ == self@.pending(),
    {
        match &self.server_pending {
            Some(state) => state,
            None => &self.current_server,
        }
    }

    /// Opens the pending state for changes; it starts as the state that was told last.
    pub fn pending_mut(&mut self) -> (state: &mut ToplevelState)
        ensures
            state@ == old(self)@.pending(),
            final(self)@ == old(self)@.with_pending(final(state)@),
    {
        if self.server_pending.is_none() {
            self.server_pending = Some(self.current_server.copied());
        }
        match &mut self.server_pending {
            Some(state) => state,
            None => &mut self.current_server,
        }
    }

    /// Tells whether the next configure would tell anything new.
    pub fn has_changes(&self) -> (changed: bool)
        ensures
            changed == self@.has_changes(),
    {
        match &self.server_pending {
            Some(state) => !state.same(&self.current_server),
            None => false,
        }
    }
}

/// How a window fills its space.
#[derive(Debug, Clone, Copy, PartialEq, Eq, Structural)]
pub enum SizingMode {
    Normal,
    Maximized,
    Fullscreen,
}

impl SizingMode {
    /// Tells whether the window has its own size.
    pub fn is_normal(self) -> (is: bool)
        ensures
            is == (self is Normal),
    {
        matches!(self, SizingMode::Normal)
    }

    /// Tells whether the window fills the work area.
    pub fn is_maximized(self) -> (is: bool)
        ensures
            is == (self is Maximized),
    {
        matches!(self, SizingMode::Maximized)
    }

    /// Tells whether the window fills the output.
    pub fn is_fullscreen(self) -> (is: bool)
        ensures
            is == (self is Fullscreen),
    {
        matches!(self, SizingMode::Fullscreen)
    }
}

/// The sizing mode that the states of a toplevel amount to.
pub open spec fn mode_of(states: Seq<ToplevelFlag>) -> SizingMode {
    if states.contains(ToplevelFlag::Fullscreen) {
        SizingMode::Fullscreen
    } else if states.contains(ToplevelFlag::Maximized) {
        SizingMode::Maximized
    } else {
        SizingMode::Normal
    }
}

/// The states amount to fullscreen whenever that is among them, else to maximized if that is, and
/// to normal if neither is.
pub proof fn mode_reads_the_states(states: Seq<ToplevelFlag>)
    ensures
        mode_of(states) is Fullscreen <==> states.contains(ToplevelFlag::Fullscreen),
        mode_of(states) is Maximized <==> states.contains(ToplevelFlag::Maximized)
            && !states.contains(ToplevelFlag::Fullscreen),
        mode_of(states) is Normal <==> !states.contains(ToplevelFlag::Maximized)
            && !states.contains(ToplevelFlag::Fullscreen),
{
}

/// Unsetting a state leaves the others in their order, and setting one that is not there adds it
/// after them; setting what is set, or unsetting what is not, changes nothing.
pub proof fn setting_keeps_the_order(states: Seq<ToplevelFlag>, flag: ToplevelFlag)
    ensures
        states.contains(flag) ==> with_flag(states, flag) == states,
        !states.contains(flag) ==> with_flag(states, flag) == states.push(flag),
        !states.contains(flag) ==> without_flag(states, flag) == states,
        forall|before: Seq<ToplevelFlag>, after: Seq<ToplevelFlag>|
            !before.contains(flag) && !after.contains(flag) && states == #[trigger] (before.push(
                flag,
            ) + after) ==> without_flag(states, flag) == before + after,
{
    if !states.contains(flag) {
        without_absent(states, flag);
    }
    assert forall|before: Seq<ToplevelFlag>, after: Seq<ToplevelFlag>|
        !before.contains(flag) && !after.contains(flag) && states == #[trigger] (before.push(flag)
            + after) implies without_flag(states, flag) == before + after by {
        without_one(before, flag, after);
    }
}

proof fn without_absent(states: Seq<ToplevelFlag>, flag: ToplevelFlag)
    requires
        !states.contains(flag),
    ensures
        without_flag(states, flag) == states,
    decreases states.len(),
{
    reveal(Seq::filter);
    if states.len() > 0 {
        let front = states.drop_last();
        assert(forall|i: int| 0 <= i < front.len() ==> front[i] == states[i]);
        assert(states[states.len() - 1] == states.last());
        without_absent(front, flag);
        assert(front.push(states.last()) =~= states);
    } else {
        assert(without_flag(states, flag) =~= states);
    }
}

proof fn without_one(before: Seq<ToplevelFlag>, flag: ToplevelFlag, after: Seq<ToplevelFlag>)
    requires
        !before.contains(flag),
        !after.contains(flag),
    ensures
        without_flag(before.push(flag) + after, flag) == before + after,
    decreases after.len(),
{
    reveal(Seq::filter);
    let states = before.push(flag) + after;
    if after.len() == 0 {
        assert(states.drop_last() =~= before);
        assert(states.last() == flag);
        without_absent(before, flag);
        assert(before + after =~= before);
    } else {
        let front = after.drop_last();
        assert(forall|i: int| 0 <= i < front.len() ==> front[i] == after[i]);
        assert(after[after.len() - 1] == after.last());
        without_one(before, flag, front);
        assert(states.drop_last() =~= before.push(flag) + front);
        assert((before + front).push(after.last()) =~= before + after);
    }
}

/// What a configure will tell is what is pending, or else what was told last; sending tells exactly
/// that, leaves nothing pending, and is awaited under its serial. What the client committed to
/// stays.
pub proof fn sending_tells_what_is_pending(
    toplevel: ToplevelView,
    state: ToplevelStateView,
    serial: Serial,
)
    ensures
        toplevel.with_pending(state).pending() == state,
        toplevel.server_pending is None ==> toplevel.pending() == toplevel.current_server,
        toplevel.sent(serial).pending() == toplevel.pending(),
        toplevel.sent(serial).current_server == toplevel.pending(),
        toplevel.sent(serial).server_pending is None,
        toplevel.sent(serial).last_uncommitted is Some,
        toplevel.sent(serial).last_uncommitted->0.serial == serial,
        toplevel.sent(serial).last_uncommitted->0.state == toplevel.pending(),
        toplevel.sent(serial).committed == toplevel.committed,
        toplevel.sent(serial).committed_serial == toplevel.committed_serial,
        toplevel.sent(serial).geometry == toplevel.geometry,
        toplevel.with_pending(state).has_changes() <==> state != toplevel.current_server,
        toplevel.has_changes() <==> toplevel.pending() != toplevel.current_server,
        !toplevel.sent(serial).has_changes(),
{
}

impl ToplevelStateSet {
    /// Reads the sizing mode off the states.
    pub fn sizing_mode(&self) -> (mode: SizingMode)
        ensures
            mode == mode_of(self@),
    {
        if self.contains(ToplevelFlag::Fullscreen) {
            SizingMode::Fullscreen
        } else if self.contains(ToplevelFlag::Maximized) {
            SizingMode::Maximized
        } else {
            SizingMode::Normal
        }
    }
}

} // verus!
