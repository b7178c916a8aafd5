//! Windows on the screen and their mirrors.

pub mod commit;
pub mod configure;
pub mod configure_laws;
pub mod drawing_laws;
pub mod entry_laws;
pub mod laws;
pub mod render;
pub mod request_laws;

use crate::appearance::Blur;
use crate::bits::{DoubleBits, DOUBLE_ONE};
use crate::geometry::Size;
use crate::ipc::{BlockOutFrom, Timestamp};
use crate::transform::Transform;
use crate::window::activation::{
    update_surface_activated_entries, with_entry, SurfaceActivatedEntries,
};
use crate::window::configuring::{Configuring, ConfiguringView};
use crate::window::id::{IdCounter, MappedId};
use crate::window::negotiated::{NegotiatedFlag, NegotiatedView};
use crate::window::offscreen::{
    amend, amended, offscreen_of, ElementState, OffscreenData, OffscreenView, RenderedElements,
};
use crate::window::resize::ResizeEdge;
use crate::window::rules::{ResolvedWindowRules, ResolvedWindowRulesView};
use crate::window::toplevel::{
    mode_of, with_flag_if, DecorationMode, SizingMode, Toplevel, ToplevelFlag, ToplevelStateView,
    ToplevelView,
};
use vstd::prelude::*;

verus! {

/// Credentials of a client process.
#[derive(Debug, Clone, Copy, PartialEq, Eq, Structural)]
pub struct Credentials {
    pub pid: i32,
    pub uid: u32,
    pub gid: u32,
}

/// A point of a window, as fractions of its width and height.
#[derive(Debug, Clone, Copy, PartialEq)]
pub struct MirrorCenter {
    pub x: DoubleBits,
    pub y: DoubleBits,
}

/// What part of its window a mirror shows, and which way round.
#[derive(Debug, Clone, Copy, PartialEq)]
pub struct MirrorViewState {
    /// How much larger the contents are than what fits into the viewport.
    pub zoom: DoubleBits,
    /// The point in the middle of the viewport; without one, the middle of the window.
    pub center: Option<MirrorCenter>,
    /// How the contents are turned.
    pub transform: Transform,
}

impl MirrorViewState {
    /// The whole window, as it is.
    pub open spec fn entire() -> MirrorViewState {
        MirrorViewState {
            zoom: DoubleBits { bits: DOUBLE_ONE },
            center: None,
            transform: Transform::Normal,
        }
    }

    /// Shows the whole window, as it is.
    pub fn whole() -> (view: MirrorViewState)
        ensures
            view == MirrorViewState::entire(),
    {
        MirrorViewState {
            zoom: DoubleBits { bits: DOUBLE_ONE },
            center: None,
            transform: Transform::Normal,
        }
    }
}

/// The viewport of a mirror.
#[derive(Debug, Clone, Copy, PartialEq)]
pub struct MirrorState {
    /// Current visual size.
    pub size: Size,
    /// Current sizing mode.
    pub sizing_mode: SizingMode,
    /// Pending sizing mode.
    pub pending_sizing_mode: SizingMode,
    /// What is shown in the viewport.
    pub view: MirrorViewState,
    /// Whether this mirror is linked with the other linked entries of its window.
    pub is_linked: bool,
}

/// How a window takes part in the layout.
#[derive(Debug, Clone, Copy, PartialEq, Eq, Structural)]
pub struct Status {
    /// Whether this has an urgent indicator.
    pub is_urgent: bool,
    /// Whether this window has the keyboard focus.
    pub is_focused: bool,
    /// Whether this layout entry currently requests the activated state.
    pub is_activated: bool,
    /// Whether this window is the active window in its column.
    pub is_active_in_column: bool,
    /// Whether this window is floating.
    pub is_floating: bool,
    /// Whether this window is sticky across all workspaces on its output.
    pub is_sticky: bool,
    /// Whether this window is a target of a window cast.
    pub is_window_cast_target: bool,
}

/// What was toggled against the window rules.
#[derive(Debug, Clone, Copy, PartialEq, Eq, Structural)]
pub struct Toggles {
    /// Whether this window should ignore opacity set through window rules.
    pub ignore_opacity: bool,
    /// Whether this window should invert its configured block-out state.
    pub invert_block_out: bool,
    /// Whether this window should invert its configured cursor capture.
    pub invert_cursor_capture: bool,
}

/// An entry of the layout: a real window, or a mirror of one.
///
/// `T` stands for the transactions that keep several windows in step, `S` for the rendered
/// snapshots.
#[derive(Debug)]
pub struct Mapped<T, S> {
    /// Unique id of this entry.
    id: MappedId,
    /// Id of the real source window for mirrors, or `id` for real windows.
    source_id: MappedId,
    /// Whether this entry is only a mirror of another entry.
    is_mirror: bool,
    /// The viewport, for mirror entries.
    mirror: MirrorState,
    /// Credentials of the process that created the Wayland connection.
    credentials: Option<Credentials>,
    /// Whether the surface has a pre-commit hook for this entry.
    has_pre_commit_hook: bool,
    /// Up-to-date rules.
    rules: ResolvedWindowRules,
    /// Whether the window rules need to be recomputed.
    ///
    /// This is not used in all cases; for example, app id and title changes recompute the rules
    /// immediately, rather than setting this flag.
    need_to_recompute_rules: bool,
    /// Data of the offscreen element rendered in place of this window, if it is offscreened.
    offscreen_data: Option<OffscreenData>,
    /// How the window takes part in the layout.
    status: Status,
    /// What was toggled against the window rules.
    toggles: Toggles,
    /// The blur config, passed for background effect rendering.
    blur_config: Blur,
    /// What is still to be told to the client and expected from it.
    configuring: Configuring<T>,
    /// Whether this window is in windowed (fake) fullscreen.
    ///
    /// In this mode, the client is told that its window is fullscreen, while the window stays a
    /// regular, non-fullscreen tile. The layout relies on the sizing mode changing only on a
    /// commit. Windowed fullscreen is no Wayland state, so a change may leave nothing to
    /// configure; it asks for a configure of its own, and takes effect with the commit that
    /// answers it.
    windowed_fullscreen: NegotiatedFlag,
    /// Whether this window is maximized.
    ///
    /// This is kept in addition to the maximized toplevel state, since in windowed fullscreen the
    /// toplevel state is always fullscreen.
    maximized: NegotiatedFlag,
    /// Snapshot right before an animated commit, without popups.
    animation_snapshot: Option<S>,
    /// Last time interactive resize was started.
    ///
    /// Used for double-resize-click tracking.
    last_interactive_resize_start: Option<(Timestamp, ResizeEdge)>,
    /// Most recent monotonic time when the window had the focus.
    focus_timestamp: Option<Timestamp>,
}

/// The contents of a [`Mapped`].
#[verifier::ext_equal]
pub struct MappedView<T, S> {
    pub id: MappedId,
    pub source_id: MappedId,
    pub is_mirror: bool,
    pub mirror: MirrorState,
    pub credentials: Option<Credentials>,
    pub has_pre_commit_hook: bool,
    pub rules: ResolvedWindowRulesView,
    pub need_to_recompute_rules: bool,
    pub offscreen_data: Option<OffscreenView>,
    pub status: Status,
    pub toggles: Toggles,
    pub blur_config: Blur,
    pub configuring: ConfiguringView<T>,
    pub windowed_fullscreen: NegotiatedView,
    pub maximized: NegotiatedView,
    pub animation_snapshot: Option<S>,
    pub last_interactive_resize_start: Option<(Timestamp, ResizeEdge)>,
    pub focus_timestamp: Option<Timestamp>,
}

impl<T, S> View for Mapped<T, S> {
    type V = MappedView<T, S>;

    closed spec fn view(&self) -> MappedView<T, S> {
        MappedView {
            id: self.id,
            source_id: self.source_id,
            is_mirror: self.is_mirror,
            mirror: self.mirror,
            credentials: self.credentials,
            has_pre_commit_hook: self.has_pre_commit_hook,
            rules: self.rules@,
            need_to_recompute_rules: self.need_to_recompute_rules,
            offscreen_data: offscreen_of(&self.offscreen_data),
            status: self.status,
            toggles: self.toggles,
            blur_config: self.blur_config,
            configuring: self.configuring@,
            windowed_fullscreen: self.windowed_fullscreen@,
            maximized: self.maximized@,
            animation_snapshot: self.animation_snapshot,
            last_interactive_resize_start: self.last_interactive_resize_start,
            focus_timestamp: self.focus_timestamp,
        }
    }
}

impl<T, S> MappedView<T, S> {
    /// An entry for a real window that was just mapped.
    pub open spec fn opened(
        id: MappedId,
        rules: ResolvedWindowRulesView,
        credentials: Option<Credentials>,
        blur_config: Blur,
        toplevel: ToplevelView,
    ) -> MappedView<T, S> {
        MappedView {
            id,
            source_id: id,
            is_mirror: false,
            mirror: MirrorState {
                size: Size { w: 1, h: 1 },
                sizing_mode: SizingMode::Normal,
                pending_sizing_mode: SizingMode::Normal,
                view: MirrorViewState::entire(),
                is_linked: false,
            },
            credentials,
            has_pre_commit_hook: true,
            rules,
            need_to_recompute_rules: false,
            offscreen_data: None,
            status: Status {
                is_urgent: false,
                is_focused: false,
                is_activated: false,
                is_active_in_column: true,
                is_floating: false,
                is_sticky: false,
                is_window_cast_target: false,
            },
            toggles: Toggles {
                ignore_opacity: false,
                invert_block_out: false,
                invert_cursor_capture: false,
            },
            blur_config,
            configuring: ConfiguringView::idle(),
            windowed_fullscreen: NegotiatedView::settled(false),
            maximized: NegotiatedView {
                committed: committed_mode(toplevel) is Maximized,
                pending: mode_of(toplevel.pending().states) is Maximized,
                uncommitted: Seq::empty(),
            },
            animation_snapshot: None,
            last_interactive_resize_start: None,
            focus_timestamp: None,
        }
    }

    /// A mirror of this entry.
    pub open spec fn mirrored(self, id: MappedId, toplevel: ToplevelView) -> MappedView<T, S> {
        MappedView {
            id,
            source_id: self.source_id,
            is_mirror: true,
            mirror: MirrorState {
                size: self.size(toplevel),
                sizing_mode: SizingMode::Normal,
                pending_sizing_mode: SizingMode::Normal,
                view: if self.is_mirror {
                    self.mirror.view
                } else {
                    MirrorViewState::entire()
                },
                is_linked: false,
            },
            credentials: self.credentials,
            has_pre_commit_hook: false,
            rules: self.rules.for_mirror(),
            need_to_recompute_rules: false,
            offscreen_data: None,
            status: Status {
                is_urgent: false,
                is_focused: false,
                is_activated: false,
                is_active_in_column: true,
                is_floating: self.status.is_floating,
                is_sticky: false,
                is_window_cast_target: false,
            },
            toggles: self.toggles,
            blur_config: self.blur_config,
            configuring: ConfiguringView::idle(),
            windowed_fullscreen: NegotiatedView::settled(false),
            maximized: NegotiatedView::settled(false),
            animation_snapshot: None,
            last_interactive_resize_start: None,
            focus_timestamp: None,
        }
    }

    /// Whether the entry takes no part in configuring its toplevel.
    pub open spec fn is_passive(self) -> bool {
        &&& !self.has_pre_commit_hook
        &&& self.configuring.is_passive()
        &&& self.windowed_fullscreen == NegotiatedView::settled(false)
        &&& self.maximized == NegotiatedView::settled(false)
    }

    /// What holds of every entry: a real window is its own source, shows all of itself and is
    /// linked with nothing, a mirror takes no part in configuring the toplevel and has the rules of
    /// a mirror, and a focused window is not urgent.
    pub open spec fn wf(self) -> bool {
        &&& !(self.status.is_focused && self.status.is_urgent)
        &&& !self.is_mirror ==> self.source_id == self.id
        &&& !self.is_mirror ==> self.mirror.view == MirrorViewState::entire()
        &&& !self.is_mirror ==> !self.mirror.is_linked
        &&& self.is_mirror ==> self.is_passive()
        &&& self.is_mirror ==> self.rules == self.rules.for_mirror()
    }

    /// The visual size.
    pub open spec fn size(self, toplevel: ToplevelView) -> Size {
        if self.is_mirror {
            self.mirror.size
        } else {
            toplevel.geometry.size
        }
    }

    /// How the window fills its space, as last committed.
    pub open spec fn sizing_mode(self, toplevel: ToplevelView) -> SizingMode {
        if self.is_mirror {
            self.mirror.sizing_mode
        } else if self.windowed_fullscreen.committed {
            if self.maximized.committed {
                SizingMode::Maximized
            } else {
                SizingMode::Normal
            }
        } else {
            committed_mode(toplevel)
        }
    }

    /// How the window will fill its space once it has answered all configures.
    pub open spec fn pending_sizing_mode(self, toplevel: ToplevelView) -> SizingMode {
        if self.is_mirror {
            self.mirror.pending_sizing_mode
        } else if self.windowed_fullscreen.pending {
            if self.maximized.pending {
                SizingMode::Maximized
            } else {
                SizingMode::Normal
            }
        } else {
            mode_of(toplevel.pending().states)
        }
    }

    /// The entry showing another view, if it is a mirror.
    pub open spec fn with_mirror_view(self, view: MirrorViewState) -> MappedView<T, S> {
        if self.is_mirror {
            MappedView { mirror: MirrorState { view, ..self.mirror }, ..self }
        } else {
            self
        }
    }

    /// The entry linked, or not linked any longer, if it is a mirror.
    pub open spec fn with_mirror_link_toggled(self) -> MappedView<T, S> {
        if self.is_mirror {
            MappedView {
                mirror: MirrorState { is_linked: !self.mirror.is_linked, ..self.mirror },
                ..self
            }
        } else {
            self
        }
    }

    /// Where the window is blocked out from: what the rules say, or the opposite.
    pub open spec fn effective_block_out_from(self) -> Option<BlockOutFrom> {
        if !self.toggles.invert_block_out {
            self.rules.block_out_from
        } else if self.rules.block_out_from is Some {
            None
        } else {
            Some(BlockOutFrom::Screencast)
        }
    }

    /// Whether captures of the window include the cursor: what the rules say, or the opposite.
    pub open spec fn effective_cursor_capture(self) -> bool {
        (self.rules.cursor_capture == Some(true)) != self.toggles.invert_cursor_capture
    }

    /// The entry with another status; a change asks for recomputing the rules.
    pub open spec fn with_status(self, status: Status) -> MappedView<T, S> {
        MappedView {
            status,
            need_to_recompute_rules: self.need_to_recompute_rules || status != self.status,
            ..self
        }
    }

    /// The entry with the keyboard focus given or taken; a change resets the urgency.
    pub open spec fn focus_set(self, is_focused: bool) -> MappedView<T, S> {
        if self.status.is_focused == is_focused {
            self
        } else {
            self.with_status(Status { is_focused, is_urgent: false, ..self.status })
        }
    }

    /// The entry with its urgency set or reset; a focused one does not become urgent.
    pub open spec fn urgency_set(self, urgent: bool) -> MappedView<T, S> {
        if self.status.is_focused && urgent {
            self
        } else {
            self.with_status(Status { is_urgent: urgent, ..self.status })
        }
    }

    /// The entry as the active one in its column, or not.
    pub open spec fn active_in_column_set(self, active: bool) -> MappedView<T, S> {
        self.with_status(Status { is_active_in_column: active, ..self.status })
    }

    /// The entry floating, or not.
    pub open spec fn floating_set(self, floating: bool) -> MappedView<T, S> {
        self.with_status(Status { is_floating: floating, ..self.status })
    }

    /// The entry sticky, or not.
    pub open spec fn sticky_set(self, sticky: bool) -> MappedView<T, S> {
        self.with_status(Status { is_sticky: sticky, ..self.status })
    }

    /// The entry as a target of a window cast, or not.
    pub open spec fn cast_target_set(self, value: bool) -> MappedView<T, S> {
        self.with_status(Status { is_window_cast_target: value, ..self.status })
    }

    /// The entry requesting the activated state, or not.
    pub open spec fn activation_set(self, active: bool) -> MappedView<T, S> {
        self.with_status(Status { is_activated: active, ..self.status })
    }

    /// The entries that want the surface activated, after this one was set to want it or not.
    pub open spec fn entries_after(self, entries: Set<u64>, active: bool) -> Set<u64> {
        if self.status.is_activated == active {
            entries
        } else {
            with_entry(entries, self.id.number(), active)
        }
    }

    /// The toplevel after this entry was set to want the surface activated or not.
    pub open spec fn toplevel_after_activation(
        self,
        toplevel: ToplevelView,
        entries: Set<u64>,
        active: bool,
    ) -> ToplevelView {
        if self.status.is_activated == active {
            toplevel
        } else {
            toplevel.with_pending(
                pending_with(
                    toplevel.pending(),
                    ToplevelFlag::Activated,
                    !self.entries_after(entries, active).is_empty(),
                ),
            )
        }
    }

    /// The smallest size, given the one that the client and the rules agree on.
    pub open spec fn smallest(self, ruled: Size) -> Size {
        if self.is_mirror {
            Size { w: 1, h: 1 }
        } else {
            ruled
        }
    }

    /// The largest size, given the one that the client and the rules agree on.
    pub open spec fn largest(self, ruled: Size) -> Size {
        if self.is_mirror {
            Size { w: 0, h: 0 }
        } else {
            ruled
        }
    }

    /// The entry with a snapshot kept.
    pub open spec fn snapshot_stored(self, snapshot: S) -> MappedView<T, S> {
        MappedView { animation_snapshot: Some(snapshot), ..self }
    }

    /// The entry with its snapshot taken.
    pub open spec fn snapshot_taken(self) -> MappedView<T, S> {
        MappedView { animation_snapshot: None, ..self }
    }

    /// The entry with the time noted when it had the focus.
    pub open spec fn focus_noted(self, timestamp: Timestamp) -> MappedView<T, S> {
        MappedView { focus_timestamp: Some(timestamp), ..self }
    }

    /// The entry with the start of a resize noted, or forgotten.
    pub open spec fn resize_start_noted(
        self,
        start: Option<(Timestamp, ResizeEdge)>,
    ) -> MappedView<T, S> {
        MappedView { last_interactive_resize_start: start, ..self }
    }

    /// The entry with another blur config.
    pub open spec fn blur_set(self, blur_config: Blur) -> MappedView<T, S> {
        MappedView { blur_config, ..self }
    }

    /// Whether a surface is the one of this entry.
    pub open spec fn has_surface(self, own: u64, other: u64) -> bool {
        !self.is_mirror && own == other
    }

    /// Whether computed rules differ from those of the entry.
    pub open spec fn rules_change(self, computed: ResolvedWindowRulesView) -> bool {
        !self.adapted(computed).same_rules(self.rules)
    }

    /// The entry after its rules were computed anew where something asked for that.
    pub open spec fn rules_refreshed(self, computed: ResolvedWindowRulesView) -> MappedView<T, S> {
        if self.need_to_recompute_rules {
            self.with_rules(self.adapted(computed))
        } else {
            self
        }
    }

    /// The entry with what the rules say about blocking out inverted, or followed again.
    pub open spec fn block_out_toggled(self) -> MappedView<T, S> {
        MappedView {
            toggles: Toggles {
                invert_block_out: !self.toggles.invert_block_out,
                ..self.toggles
            },
            ..self
        }
    }

    /// The entry with what the rules say about capturing the cursor inverted, or followed again.
    pub open spec fn cursor_capture_toggled(self) -> MappedView<T, S> {
        MappedView {
            toggles: Toggles {
                invert_cursor_capture: !self.toggles.invert_cursor_capture,
                ..self.toggles
            },
            ..self
        }
    }

    /// The entry with the opacity rule ignored, or followed again.
    pub open spec fn opacity_toggled(self) -> MappedView<T, S> {
        MappedView {
            toggles: Toggles { ignore_opacity: !self.toggles.ignore_opacity, ..self.toggles },
            ..self
        }
    }

    /// The entry after something asked for a configure.
    pub open spec fn configure_asked(self) -> MappedView<T, S> {
        if self.is_mirror {
            self
        } else {
            MappedView {
                configuring: ConfiguringView { needs_configure: true, ..self.configuring },
                ..self
            }
        }
    }

    /// The entry after the note about frame callbacks was taken.
    pub open spec fn frame_callback_taken(self) -> MappedView<T, S> {
        MappedView {
            configuring: ConfiguringView { needs_frame_callback: false, ..self.configuring },
            ..self
        }
    }

    /// The entry after a frame was rendered in place of the window, or in the usual way again.
    pub open spec fn offscreened(
        self,
        data: Option<(u64, Seq<(u64, ElementState)>)>,
    ) -> MappedView<T, S> {
        MappedView {
            offscreen_data: match data {
                None => None,
                Some((id, states)) => Some(amended(self.offscreen_data, id, states)),
            },
            ..self
        }
    }

    /// Whether the layout treats the entry as in windowed fullscreen.
    pub open spec fn shown_windowed_fullscreen(self) -> bool {
        if self.is_mirror {
            self.mirror.sizing_mode is Fullscreen
        } else {
            self.windowed_fullscreen.committed
        }
    }

    /// Whether the layout treats the entry as pending to go to windowed fullscreen.
    pub open spec fn pending_windowed_fullscreen(self) -> bool {
        if self.is_mirror {
            self.mirror.pending_sizing_mode is Fullscreen
        } else {
            self.windowed_fullscreen.pending
        }
    }

    /// What the client is to be told about being tiled.
    pub open spec fn told_tiled(self) -> Option<Option<bool>> {
        if self.is_mirror {
            None
        } else {
            Some(self.rules.tiled_state)
        }
    }

    /// Whether the window is a child of another.
    pub open spec fn child_of(
        self,
        parent_surface: Option<u64>,
        other: MappedView<T, S>,
        other_surface: u64,
    ) -> bool {
        !self.is_mirror && !other.is_mirror && parent_surface == Some(other_surface)
    }

    /// The rules that the entry takes over out of computed ones: a mirror takes the form for
    /// mirrors.
    pub open spec fn adapted(self, computed: ResolvedWindowRulesView) -> ResolvedWindowRulesView {
        if self.is_mirror {
            computed.for_mirror()
        } else {
            computed
        }
    }

    /// The entry after its rules were computed anew.
    ///
    /// If they changed and the opacity rule no longer makes the window semitransparent, it is no
    /// longer ignored.
    pub open spec fn with_rules(self, rules: ResolvedWindowRulesView) -> MappedView<T, S> {
        if rules.same_rules(self.rules) {
            MappedView { need_to_recompute_rules: false, ..self }
        } else {
            MappedView {
                rules,
                need_to_recompute_rules: false,
                toggles: Toggles {
                    ignore_opacity: self.toggles.ignore_opacity && rules.is_semitransparent(),
                    ..self.toggles
                },
                ..self
            }
        }
    }
}

/// The sizing mode that the client committed to; a surface that was just unmapped is back to
/// normal.
pub open spec fn committed_mode(toplevel: ToplevelView) -> SizingMode {
    match toplevel.committed {
        Some(state) => mode_of(state.states),
        None => SizingMode::Normal,
    }
}

/// Whether the compositor draws the decorations of a window.
pub open spec fn draws_decorations(toplevel: ToplevelView, kde_server_side: Option<bool>) -> bool {
    match toplevel.committed {
        Some(state) if state.decoration_mode is Some => state.decoration_mode == Some(
            DecorationMode::ServerSide,
        ),
        _ => kde_server_side == Some(true),
    }
}

/// The pending state after setting or unsetting one of its states.
pub open spec fn pending_with(
    state: ToplevelStateView,
    flag: ToplevelFlag,
    is_set: bool,
) -> ToplevelStateView {
    ToplevelStateView { states: with_flag_if(state.states, flag, is_set), ..state }
}

impl<T, S> Mapped<T, S> {
    /// Makes the entry for a window that was just mapped and got its pre-commit hook.
    pub fn new(
        ids: &mut IdCounter,
        toplevel: &Toplevel,
        rules: ResolvedWindowRules,
        credentials: Option<Credentials>,
        blur_config: Blur,
    ) -> (mapped: Self)
        ensures
            mapped@ == MappedView::<T, S>::opened(
                mapped@.id,
                rules@,
                credentials,
                blur_config,
                toplevel@,
            ),
            mapped@.id.number() == old(ids).upcoming(),
            final(ids).upcoming() == if old(ids).upcoming() == u64::MAX {
                0
            } else {
                (old(ids).upcoming() + 1) as u64
            },
            mapped@.wf(),
    {
        let id = MappedId::next(ids);
        let mut mapped = Mapped {
            id,
            source_id: id,
            is_mirror: false,
            mirror: MirrorState {
                size: Size { w: 1, h: 1 },
                sizing_mode: SizingMode::Normal,
                pending_sizing_mode: SizingMode::Normal,
                view: MirrorViewState::whole(),
                is_linked: false,
            },
            credentials,
            has_pre_commit_hook: true,
            rules,
            need_to_recompute_rules: false,
            offscreen_data: None,
            status: Status {
                is_urgent: false,
                is_focused: false,
                is_activated: false,
                is_active_in_column: true,
                is_floating: false,
                is_sticky: false,
                is_window_cast_target: false,
            },
            toggles: Toggles {
                ignore_opacity: false,
                invert_block_out: false,
                invert_cursor_capture: false,
            },
            blur_config,
            configuring: Configuring::new(),
            windowed_fullscreen: NegotiatedFlag::new(false),
            maximized: NegotiatedFlag::new(false),
            animation_snapshot: None,
            last_interactive_resize_start: None,
            focus_timestamp: None,
        };
        mapped.maximized.committed = mapped.sizing_mode(toplevel).is_maximized();
        mapped.maximized.pending = mapped.pending_sizing_mode(toplevel).is_maximized();
        mapped
    }

    /// Makes a mirror of an entry, which may be a mirror itself.
    ///
    /// The mirror starts in a normal sizing mode with the size of the source, floats if the source
    /// floats, and keeps what was toggled on the source. A mirror of a mirror shows the same view,
    /// turned the same way; a mirror of a real window shows all of it, as it is. It is neither
    /// linked nor focused, activated, urgent, sticky or a cast target.
    pub fn new_mirror(ids: &mut IdCounter, source: &Mapped<T, S>, toplevel: &Toplevel) -> (mirror:
        Self)
        ensures
            mirror@ == source@.mirrored(mirror@.id, toplevel@),
            mirror@.id.number() == old(ids).upcoming(),
            final(ids).upcoming() == if old(ids).upcoming() == u64::MAX {
                0
            } else {
                (old(ids).upcoming() + 1) as u64
            },
            mirror@.wf(),
    {
        let id = MappedId::next(ids);
        Mapped {
            id,
            source_id: source.source_id,
            is_mirror: true,
            mirror: MirrorState {
                size: source.size(toplevel),
                sizing_mode: SizingMode::Normal,
                pending_sizing_mode: SizingMode::Normal,
                view: if source.is_mirror {
                    source.mirror.view
                } else {
                    MirrorViewState::whole()
                },
                is_linked: false,
            },
            credentials: source.credentials,
            has_pre_commit_hook: false,
            rules: source.rules.copied().into_mirror(),
            need_to_recompute_rules: false,
            offscreen_data: None,
            status: Status {
                is_urgent: false,
                is_focused: false,
                is_activated: false,
                is_active_in_column: true,
                is_floating: source.status.is_floating,
                is_sticky: false,
                is_window_cast_target: false,
            },
            toggles: source.toggles,
            blur_config: source.blur_config,
            configuring: Configuring::new(),
            windowed_fullscreen: NegotiatedFlag::new(false),
            maximized: NegotiatedFlag::new(false),
            animation_snapshot: None,
            last_interactive_resize_start: None,
            focus_timestamp: None,
        }
    }

    /// Takes over newly computed window rules, and tells whether they changed.
    pub fn recompute_window_rules(&mut self, computed: ResolvedWindowRules) -> (changed: bool)
        ensures
            final(self)@ == old(self)@.with_rules(old(self)@.adapted(computed@)),
            changed == !old(self)@.adapted(computed@).same_rules(old(self)@.rules),
            old(self)@.wf() ==> final(self)@.wf(),
            changed == old(self)@.rules_change(computed@),
    {
        if self.is_mirror {
            self.take_rules(computed.into_mirror())
        } else {
            self.take_rules(computed)
        }
    }

    fn take_rules(&mut self, rules: ResolvedWindowRules) -> (changed: bool)
        ensures
            final(self)@ == old(self)@.with_rules(rules@),
            changed == !rules@.same_rules(old(self)@.rules),
    {
        self.need_to_recompute_rules = false;
        if rules.is_same_rules(&self.rules) {
            return false;
        }
        let semitransparent = rules.makes_semitransparent();
        self.rules = rules;
        if !semitransparent {
            self.toggles.ignore_opacity = false;
        }
        true
    }

    /// Takes over newly computed window rules if something asked for that, and tells whether they
    /// changed.
    pub fn recompute_window_rules_if_needed(&mut self, computed: ResolvedWindowRules) -> (changed:
        bool)
        ensures
            final(self)@ == if old(self)@.need_to_recompute_rules {
                old(self)@.with_rules(old(self)@.adapted(computed@))
            } else {
                old(self)@
            },
            changed == (old(self)@.need_to_recompute_rules && !old(self)@.adapted(
                computed@,
            ).same_rules(old(self)@.rules)),
            old(self)@.wf() ==> final(self)@.wf(),
            final(self)@ == old(self)@.rules_refreshed(computed@),
            changed == (old(self)@.need_to_recompute_rules && old(self)@.rules_change(computed@)),
    {
        if !self.need_to_recompute_rules {
            return false;
        }
        self.recompute_window_rules(computed)
    }

    /// Asks for a configure in this loop cycle.
    pub fn set_needs_configure(&mut self)
        ensures
            final(self)@ == (MappedView {
                configuring: ConfiguringView {
                    needs_configure: old(self)@.configuring.needs_configure
                        || !old(self)@.is_mirror,
                    ..old(self)@.configuring
                },
                ..old(self)@
            }),
            old(self)@.wf() ==> final(self)@.wf(),
            final(self)@ == old(self)@.configure_asked(),
    {
        if self.is_mirror {
            return;
        }
        self.configuring.needs_configure = true;
    }

    /// The id of this entry.
    pub fn id(&self) -> (id: MappedId)
        ensures
            id == self@.id,
    {
        self.id
    }

    /// The id of the real window.
    pub fn source_id(&self) -> (id: MappedId)
        ensures
            id == self@.source_id,
    {
        self.source_id
    }

    /// Tells whether this is a mirror.
    pub fn is_mirror(&self) -> (is: bool)
        ensures
            is == self@.is_mirror,
    {
        self.is_mirror
    }

    /// The namespace that tells the render elements of a mirror from those of its source; ids that
    /// do not fit share the largest one.
    pub fn element_namespace(&self) -> (namespace: Option<usize>)
        ensures
            namespace == if self@.is_mirror {
                Some(
                    if self@.id.number() <= usize::MAX {
                        self@.id.number() as usize
                    } else {
                        usize::MAX
                    },
                )
            } else {
                None
            },
            namespace == self@.namespace(),
    {
        if !self.is_mirror {
            return None;
        }
        let number: u64 = self.id.get();
        if number <= usize::MAX as u64 {
            Some(number as usize)
        } else {
            Some(usize::MAX)
        }
    }

    /// What the viewport of a mirror shows.
    pub fn mirror_view(&self) -> (view: MirrorViewState)
        ensures
            view == self@.mirror.view,
    {
        self.mirror.view
    }

    /// How much larger the contents of a mirror are than what fits into its viewport.
    pub fn mirror_zoom(&self) -> (zoom: DoubleBits)
        ensures
            zoom == self@.mirror.view.zoom,
    {
        self.mirror.view.zoom
    }

    /// How the contents of a mirror are turned.
    pub fn mirror_view_transform(&self) -> (transform: Transform)
        ensures
            transform == self@.mirror.view.transform,
    {
        self.mirror.view.transform
    }

    /// Zooms a mirror and moves a point of the window to the middle of its viewport.
    pub fn set_mirror_view(&mut self, zoom: DoubleBits, center: MirrorCenter)
        ensures
            final(self)@ == old(self)@.with_mirror_view(
                (MirrorViewState { zoom, center: Some(center), ..old(self)@.mirror.view }),
            ),
            old(self)@.wf() ==> final(self)@.wf(),
    {
        if self.is_mirror {
            self.mirror.view = MirrorViewState { zoom, center: Some(center), ..self.mirror.view };
        }
    }

    /// Turns the contents of a mirror.
    pub fn set_mirror_transform(&mut self, transform: Transform)
        ensures
            final(self)@ == old(self)@.with_mirror_view(
                (MirrorViewState { transform, ..old(self)@.mirror.view }),
            ),
            old(self)@.wf() ==> final(self)@.wf(),
    {
        if self.is_mirror {
            self.mirror.view.transform = transform;
        }
    }

    /// Tells whether this mirror is linked with the other linked entries of its window.
    pub fn is_mirror_linked(&self) -> (is: bool)
        ensures
            is == self@.mirror.is_linked,
    {
        self.mirror.is_linked
    }

    /// Links a mirror, or ends its link, and tells whether this is a mirror.
    pub fn toggle_mirror_link(&mut self) -> (toggled: bool)
        ensures
            toggled == old(self)@.is_mirror,
            final(self)@ == old(self)@.with_mirror_link_toggled(),
            old(self)@.wf() ==> final(self)@.wf(),
    {
        if !self.is_mirror {
            return false;
        }
        self.mirror.is_linked = !self.mirror.is_linked;
        true
    }

    /// Credentials of the client process.
    pub fn credentials(&self) -> (credentials: Option<Credentials>)
        ensures
            credentials == self@.credentials,
    {
        self.credentials
    }

    /// Data of the offscreen element rendered in place of this window.
    pub fn offscreen_data(&self) -> (data: &Option<OffscreenData>)
        ensures
            offscreen_of(data) == self@.offscreen_data,
    {
        &self.offscreen_data
    }

    /// Tells whether this window has the keyboard focus.
    pub fn is_focused(&self) -> (is: bool)
        ensures
            is == self@.status.is_focused,
    {
        self.status.is_focused
    }

    /// Tells whether this window is the active window in its column.
    pub fn is_active_in_column(&self) -> (is: bool)
        ensures
            is == self@.status.is_active_in_column,
    {
        self.status.is_active_in_column
    }

    /// Tells whether this window is floating.
    pub fn is_floating(&self) -> (is: bool)
        ensures
            is == self@.status.is_floating,
    {
        self.status.is_floating
    }

    /// Tells whether this window is sticky across all workspaces on its output.
    pub fn is_sticky(&self) -> (is: bool)
        ensures
            is == self@.status.is_sticky,
    {
        self.status.is_sticky
    }

    /// Tells whether this window is a target of a window cast.
    pub fn is_window_cast_target(&self) -> (is: bool)
        ensures
            is == self@.status.is_window_cast_target,
    {
        self.status.is_window_cast_target
    }

    /// Tells whether this window ignores opacity set through window rules.
    pub fn is_ignoring_opacity_window_rule(&self) -> (is: bool)
        ensures
            is == self@.toggles.ignore_opacity,
    {
        self.toggles.ignore_opacity
    }

    /// Ignores the opacity rule, or follows it again.
    pub fn toggle_ignore_opacity_window_rule(&mut self)
        ensures
            final(self)@ == (MappedView {
                toggles: Toggles {
                    ignore_opacity: !old(self)@.toggles.ignore_opacity,
                    ..old(self)@.toggles
                },
                ..old(self)@
            }),
            old(self)@.wf() ==> final(self)@.wf(),
            final(self)@ == old(self)@.opacity_toggled(),
    {
        self.toggles.ignore_opacity = !self.toggles.ignore_opacity;
    }

    /// Where this window is blocked out from.
    pub fn effective_block_out_from(&self) -> (from: Option<BlockOutFrom>)
        ensures
            from == self@.effective_block_out_from(),
    {
        let block_out_from = self.rules.block_out_from;
        if !self.toggles.invert_block_out {
            return block_out_from;
        }
        match block_out_from {
            Some(_) => None,
            None => Some(BlockOutFrom::Screencast),
        }
    }

    /// Tells whether this window is blocked out from anything.
    pub fn is_block_out(&self) -> (is: bool)
        ensures
            is == (self@.effective_block_out_from() is Some),
    {
        self.effective_block_out_from().is_some()
    }

    /// Inverts what the rules say about blocking out, or follows them again.
    pub fn toggle_block_out_window_rule(&mut self)
        ensures
            final(self)@ == (MappedView {
                toggles: Toggles {
                    invert_block_out: !old(self)@.toggles.invert_block_out,
                    ..old(self)@.toggles
                },
                ..old(self)@
            }),
            old(self)@.wf() ==> final(self)@.wf(),
            final(self)@ == old(self)@.block_out_toggled(),
    {
        self.toggles.invert_block_out = !self.toggles.invert_block_out;
    }

    /// Tells whether captures of this window include the cursor.
    pub fn effective_cursor_capture(&self) -> (captured: bool)
        ensures
            captured == self@.effective_cursor_capture(),
    {
        self.rules.cursor_capture.unwrap_or(false) != self.toggles.invert_cursor_capture
    }

    /// Inverts what the rules say about capturing the cursor, or follows them again.
    pub fn toggle_cursor_capture_window_rule(&mut self)
        ensures
            final(self)@ == (MappedView {
                toggles: Toggles {
                    invert_cursor_capture: !old(self)@.toggles.invert_cursor_capture,
                    ..old(self)@.toggles
                },
                ..old(self)@
            }),
            old(self)@.wf() ==> final(self)@.wf(),
            final(self)@ == old(self)@.cursor_capture_toggled(),
    {
        self.toggles.invert_cursor_capture = !self.toggles.invert_cursor_capture;
    }

    /// Gives or takes the keyboard focus; a change resets the urgency.
    pub fn set_is_focused(&mut self, is_focused: bool)
        ensures
            final(self)@ == if old(self)@.status.is_focused == is_focused {
                old(self)@
            } else {
                old(self)@.with_status(
                    Status { is_focused, is_urgent: false, ..old(self)@.status },
                )
            },
            old(self)@.wf() ==> final(self)@.wf(),
            final(self)@ == old(self)@.focus_set(is_focused),
    {
        if self.status.is_focused == is_focused {
            return;
        }
        self.status.is_focused = is_focused;
        self.status.is_urgent = false;
        self.need_to_recompute_rules = true;
    }

    /// Notes whether a window cast shows this window.
    pub fn set_is_window_cast_target(&mut self, value: bool)
        ensures
            final(self)@ == old(self)@.with_status(
                Status { is_window_cast_target: value, ..old(self)@.status },
            ),
            old(self)@.wf() ==> final(self)@.wf(),
            final(self)@ == old(self)@.cast_target_set(value),
    {
        if self.status.is_window_cast_target == value {
            return;
        }
        self.status.is_window_cast_target = value;
        self.need_to_recompute_rules = true;
    }

    /// Sets or resets the urgency; a focused window does not become urgent.
    pub fn set_urgent(&mut self, urgent: bool)
        ensures
            final(self)@ == if old(self)@.status.is_focused && urgent {
                old(self)@
            } else {
                old(self)@.with_status(Status { is_urgent: urgent, ..old(self)@.status })
            },
            old(self)@.wf() ==> final(self)@.wf(),
            final(self)@ == old(self)@.urgency_set(urgent),
    {
        if self.status.is_focused && urgent {
            return;
        }
        let changed = self.status.is_urgent != urgent;
        self.status.is_urgent = urgent;
        if changed {
            self.need_to_recompute_rules = true;
        }
    }

    /// Tells whether this has an urgent indicator.
    pub fn is_urgent(&self) -> (is: bool)
        ensures
            is == self@.status.is_urgent,
    {
        self.status.is_urgent
    }

    /// Last time interactive resize was started.
    pub fn last_interactive_resize_start(&self) -> (start: Option<(Timestamp, ResizeEdge)>)
        ensures
            start == self@.last_interactive_resize_start,
    {
        self.last_interactive_resize_start
    }

    /// Notes when an interactive resize was started, or forgets it.
    pub fn set_last_interactive_resize_start(&mut self, start: Option<(Timestamp, ResizeEdge)>)
        ensures
            final(self)@ == (MappedView { last_interactive_resize_start: start, ..old(self)@ }),
            old(self)@.wf() ==> final(self)@.wf(),
            final(self)@ == old(self)@.resize_start_noted(start),
    {
        self.last_interactive_resize_start = start;
    }

    /// Most recent time when the window had the focus.
    pub fn get_focus_timestamp(&self) -> (timestamp: Option<Timestamp>)
        ensures
            timestamp == self@.focus_timestamp,
    {
        self.focus_timestamp
    }

    /// Notes when the window had the focus.
    pub fn set_focus_timestamp(&mut self, timestamp: Timestamp)
        ensures
            final(self)@ == (MappedView { focus_timestamp: Some(timestamp), ..old(self)@ }),
            old(self)@.wf() ==> final(self)@.wf(),
            final(self)@ == old(self)@.focus_noted(timestamp),
    {
        self.focus_timestamp = Some(timestamp);
    }

    /// Takes the note that every surface of the window is owed a frame callback.
    pub fn take_needs_frame_callback(&mut self) -> (needed: bool)
        ensures
            needed == old(self)@.configuring.needs_frame_callback,
            final(self)@ == (MappedView {
                configuring: ConfiguringView {
                    needs_frame_callback: false,
                    ..old(self)@.configuring
                },
                ..old(self)@
            }),
            old(self)@.wf() ==> final(self)@.wf(),
            final(self)@ == old(self)@.frame_callback_taken(),
    {
        let needed = self.configuring.needs_frame_callback;
        self.configuring.needs_frame_callback = false;
        needed
    }

    /// The tiled state to tell the client by the rules; a mirror tells it nothing.
    pub fn update_tiled_state(&self) -> (rule: Option<Option<bool>>)
        ensures
            rule == if self@.is_mirror {
                None
            } else {
                Some(self@.rules.tiled_state)
            },
            rule == self@.told_tiled(),
    {
        if self.is_mirror {
            return None;
        }
        Some(self.rules.tiled_state)
    }

    /// Tells whether this window is in windowed fullscreen.
    pub fn is_windowed_fullscreen(&self) -> (is: bool)
        ensures
            is == self@.windowed_fullscreen.committed,
    {
        self.windowed_fullscreen.committed
    }

    /// Tells whether the layout should treat this entry as in windowed fullscreen; a mirror is
    /// when its sizing mode is fullscreen.
    pub fn element_is_windowed_fullscreen(&self) -> (is: bool)
        ensures
            is == if self@.is_mirror {
                self@.mirror.sizing_mode is Fullscreen
            } else {
                self@.windowed_fullscreen.committed
            },
            is == self@.shown_windowed_fullscreen(),
    {
        if self.is_mirror {
            return self.mirror.sizing_mode.is_fullscreen();
        }
        self.windowed_fullscreen.committed
    }

    /// Tells whether the layout should treat this entry as pending to go to windowed fullscreen.
    pub fn is_pending_windowed_fullscreen(&self) -> (is: bool)
        ensures
            is == if self@.is_mirror {
                self@.mirror.pending_sizing_mode is Fullscreen
            } else {
                self@.windowed_fullscreen.pending
            },
            is == self@.pending_windowed_fullscreen(),
    {
        if self.is_mirror {
            return self.mirror.pending_sizing_mode.is_fullscreen();
        }
        self.windowed_fullscreen.pending
    }

    /// The resolved window rules.
    pub fn rules(&self) -> (rules: &ResolvedWindowRules)
        ensures
            rules@ == self@.rules,
    {
        &self.rules
    }

    /// Takes over a new blur config.
    pub fn update_config(&mut self, blur_config: Blur)
        ensures
            final(self)@ == (MappedView { blur_config, ..old(self)@ }),
            old(self)@.wf() ==> final(self)@.wf(),
            final(self)@ == old(self)@.blur_set(blur_config),
    {
        self.blur_config = blur_config;
    }

    /// The visual size.
    pub fn size(&self, toplevel: &Toplevel) -> (size: Size)
        ensures
            size == self@.size(toplevel@),
    {
        if self.is_mirror {
            return self.mirror.size;
        }
        toplevel.geometry.size
    }

    /// How the window fills its space.
    pub fn sizing_mode(&self, toplevel: &Toplevel) -> (mode: SizingMode)
        ensures
            mode == self@.sizing_mode(toplevel@),
    {
        if self.is_mirror {
            return self.mirror.sizing_mode;
        }
        if self.windowed_fullscreen.committed {
            return if self.maximized.committed {
                SizingMode::Maximized
            } else {
                SizingMode::Normal
            };
        }
        match &toplevel.committed {
            Some(state) => state.states.sizing_mode(),
            None => SizingMode::Normal,
        }
    }

    /// How the window will fill its space once it has answered all configures.
    pub fn pending_sizing_mode(&self, toplevel: &Toplevel) -> (mode: SizingMode)
        ensures
            mode == self@.pending_sizing_mode(toplevel@),
    {
        if self.is_mirror {
            return self.mirror.pending_sizing_mode;
        }
        if self.windowed_fullscreen.pending {
            return if self.maximized.pending {
                SizingMode::Maximized
            } else {
                SizingMode::Normal
            };
        }
        toplevel.pending().states.sizing_mode()
    }

    /// The smallest size, given the one that the client and the rules agree on.
    pub fn min_size(&self, ruled: Size) -> (size: Size)
        ensures
            size == if self@.is_mirror {
                Size { w: 1, h: 1 }
            } else {
                ruled
            },
            size == self@.smallest(ruled),
    {
        if self.is_mirror {
            return Size { w: 1, h: 1 };
        }
        ruled
    }

    /// The largest size, given the one that the client and the rules agree on.
    pub fn max_size(&self, ruled: Size) -> (size: Size)
        ensures
            size == if self@.is_mirror {
                Size { w: 0, h: 0 }
            } else {
                ruled
            },
            size == self@.largest(ruled),
    {
        if self.is_mirror {
            return Size { w: 0, h: 0 };
        }
        ruled
    }

    /// Tells whether a surface is the one of this entry, given the numbers that the host has for
    /// both; a mirror has no surface of its own.
    pub fn is_wl_surface(&self, own: u64, other: u64) -> (is: bool)
        ensures
            is == (!self@.is_mirror && own == other),
            is == self@.has_surface(own, other),
    {
        if self.is_mirror {
            return false;
        }
        own == other
    }

    /// Tells whether this entry takes part in what goes to the client's surfaces by itself: output
    /// enter and leave, preferred scale and transform, refreshing.
    pub fn owns_surfaces(&self) -> (owns: bool)
        ensures
            owns == !self@.is_mirror,
    {
        !self.is_mirror
    }

    /// Tells whether this window is a child of another, given the surface of its parent, if it has
    /// one, and the surface of the other, by the numbers that the host has for them.
    pub fn is_child_of(
        &self,
        parent_surface: Option<u64>,
        other: &Mapped<T, S>,
        other_surface: u64,
    ) -> (is: bool)
        ensures
            is == (!self@.is_mirror && !other@.is_mirror && parent_surface == Some(other_surface)),
            is == self@.child_of(parent_surface, other@, other_surface),
    {
        if self.is_mirror || other.is_mirror {
            return false;
        }
        match parent_surface {
            Some(parent) => parent == other_surface,
            None => false,
        }
    }

    /// Tells whether the compositor draws the decorations, given what the KDE decoration protocol
    /// says where the surface uses it.
    pub fn has_ssd(&self, toplevel: &Toplevel, kde_server_side: Option<bool>) -> (has: bool)
        ensures
            has == match toplevel@.committed {
                Some(state) if state.decoration_mode is Some => state.decoration_mode
                    == Some(DecorationMode::ServerSide),
                _ => kde_server_side == Some(true),
            },
            has == draws_decorations(toplevel@, kde_server_side),
    {
        let mode = match &toplevel.committed {
            Some(state) => state.decoration_mode,
            None => None,
        };
        match mode {
            Some(DecorationMode::ServerSide) => true,
            Some(DecorationMode::ClientSide) | Some(DecorationMode::Other(_)) => false,
            // The KDE protocol decides when the XDG one is not in use.
            None => kde_server_side.unwrap_or(false),
        }
    }

    /// Notes what became of the elements drawn in place of this window, or that it is no longer
    /// offscreened.
    pub fn set_offscreen_data(&mut self, data: Option<RenderedElements>)
        ensures
            final(self)@ == (MappedView {
                offscreen_data: match data {
                    None => None,
                    Some(data) => Some(
                        amended(old(self)@.offscreen_data, data.id, data.states@),
                    ),
                },
                ..old(self)@
            }),
            old(self)@.wf() ==> final(self)@.wf(),
            final(self)@ == old(self)@.offscreened(
                match data {
                    None => None,
                    Some(data) => Some((data.id, data.states@)),
                },
            ),
    {
        match data {
            None => {
                self.offscreen_data = None;
            },
            Some(data) => {
                amend(&mut self.offscreen_data, data);
            },
        }
    }

    /// Requests the activated state, or gives it up.
    ///
    /// The surface stays activated as long as any entry that shows it requests that.
    pub fn set_activated(
        &mut self,
        entries: &mut SurfaceActivatedEntries,
        toplevel: &mut Toplevel,
        active: bool,
    )
        ensures
            old(self)@.status.is_activated == active ==> final(self)@ == old(self)@ && final(entries)@
                == old(entries)@ && final(toplevel)@ == old(toplevel)@,
            old(self)@.status.is_activated != active ==> {
                &&& final(self)@ == old(self)@.with_status(
                    Status { is_activated: active, ..old(self)@.status },
                )
                &&& final(entries)@ == with_entry(
                    old(entries)@,
                    old(self)@.id.number(),
                    active,
                )
                &&& final(toplevel)@ == old(toplevel)@.with_pending(
                    pending_with(
                        old(toplevel)@.pending(),
                        ToplevelFlag::Activated,
                        !final(entries)@.is_empty(),
                    ),
                )
            },
            old(self)@.wf() ==> final(self)@.wf(),
            final(self)@ == old(self)@.activation_set(active),
            final(entries)@ == old(self)@.entries_after(old(entries)@, active),
            final(toplevel)@ == old(self)@.toplevel_after_activation(
                old(toplevel)@,
                old(entries)@,
                active,
            ),
    {
        if self.status.is_activated == active {
            return;
        }
        self.status.is_activated = active;

        let any_active = update_surface_activated_entries(entries, self.id, active);
        let pending = toplevel.pending_mut();
        pending.states.assign(ToplevelFlag::Activated, any_active);
        self.need_to_recompute_rules = true;
    }

    /// Lets go of the surface when the entry goes away, and tells whether the host has to remove
    /// the pre-commit hook.
    ///
    /// An entry that requested the activated state gives it up, as long as the surface is alive.
    pub fn release(
        &self,
        entries: &mut SurfaceActivatedEntries,
        toplevel: &mut Toplevel,
        surface_alive: bool,
    ) -> (remove_hook: bool)
        ensures
            remove_hook == self@.has_pre_commit_hook,
            !(self@.status.is_activated && surface_alive) ==> final(entries)@ == old(entries)@
                && final(toplevel)@ == old(toplevel)@,
            self@.status.is_activated && surface_alive ==> {
                &&& final(entries)@ == with_entry(old(entries)@, self@.id.number(), false)
                &&& final(toplevel)@ == old(toplevel)@.with_pending(
                    pending_with(
                        old(toplevel)@.pending(),
                        ToplevelFlag::Activated,
                        !final(entries)@.is_empty(),
                    ),
                )
            },
            surface_alive ==> final(entries)@ == self@.entries_after(old(entries)@, false),
            surface_alive ==> final(toplevel)@ == self@.toplevel_after_activation(
                old(toplevel)@,
                old(entries)@,
                false,
            ),
    {
        if self.status.is_activated && surface_alive {
            let any_active = update_surface_activated_entries(entries, self.id, false);
            let pending = toplevel.pending_mut();
            pending.states.assign(ToplevelFlag::Activated, any_active);
        }
        self.has_pre_commit_hook
    }

    /// Makes this window the active one in its column, or not.
    pub fn set_active_in_column(&mut self, active: bool)
        ensures
            final(self)@ == old(self)@.with_status(
                Status { is_active_in_column: active, ..old(self)@.status },
            ),
            old(self)@.wf() ==> final(self)@.wf(),
            final(self)@ == old(self)@.active_in_column_set(active),
    {
        let changed = self.status.is_active_in_column != active;
        self.status.is_active_in_column = active;
        if changed {
            self.need_to_recompute_rules = true;
        }
    }

    /// Makes this window floating, or not.
    pub fn set_floating(&mut self, floating: bool)
        ensures
            final(self)@ == old(self)@.with_status(
                Status { is_floating: floating, ..old(self)@.status },
            ),
            old(self)@.wf() ==> final(self)@.wf(),
            final(self)@ == old(self)@.floating_set(floating),
    {
        let changed = self.status.is_floating != floating;
        self.status.is_floating = floating;
        if changed {
            self.need_to_recompute_rules = true;
        }
    }

    /// Makes this window sticky, or not.
    pub fn set_sticky(&mut self, sticky: bool)
        ensures
            final(self)@ == old(self)@.with_status(
                Status { is_sticky: sticky, ..old(self)@.status },
            ),
            old(self)@.wf() ==> final(self)@.wf(),
            final(self)@ == old(self)@.sticky_set(sticky),
    {
        let changed = self.status.is_sticky != sticky;
        self.status.is_sticky = sticky;
        if changed {
            self.need_to_recompute_rules = true;
        }
    }

    /// Keeps a snapshot taken right before an animated commit.
    pub fn store_animation_snapshot(&mut self, snapshot: S)
        ensures
            final(self)@ == (MappedView { animation_snapshot: Some(snapshot), ..old(self)@ }),
            old(self)@.wf() ==> final(self)@.wf(),
            final(self)@ == old(self)@.snapshot_stored(snapshot),
    {
        self.animation_snapshot = Some(snapshot);
    }

    /// Takes the snapshot from right before an animated commit.
    pub fn take_animation_snapshot(&mut self) -> (snapshot: Option<S>)
        ensures
            snapshot == old(self)@.animation_snapshot,
            final(self)@ == (MappedView { animation_snapshot: None, ..old(self)@ }),
            old(self)@.wf() ==> final(self)@.wf(),
            final(self)@ == old(self)@.snapshot_taken(),
    {
        self.animation_snapshot.take()
    }
}

/// The output that a surface is sent frame callbacks for.
pub open spec fn callback_output<O>(
    primary: Option<O>,
    needs_frame_callback: bool,
    output: O,
) -> Option<O> {
    if primary is Some {
        primary
    } else if needs_frame_callback {
        Some(output)
    } else {
        None
    }
}

/// The output that a surface is sent frame callbacks for: its primary one, and failing that the
/// given one, if all surfaces of the window are owed a callback.
pub fn frame_callback_output<O>(primary: Option<O>, needs_frame_callback: bool, output: O) -> (sent:
    Option<O>)
    ensures
        sent == if primary is Some {
            primary
        } else if needs_frame_callback {
            Some(output)
        } else {
            None
        },
        sent == callback_output(primary, needs_frame_callback, output),
{
    match primary {
        Some(primary) => Some(primary),
        None => if needs_frame_callback {
            Some(output)
        } else {
            None
        },
    }
}

} // verus!
