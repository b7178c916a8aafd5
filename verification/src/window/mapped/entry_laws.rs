//! What holds of entries: how they are made, their status, their rules and what is toggled.

use crate::appearance::Blur;
use crate::geometry::Size;
use crate::ipc::{BlockOutFrom, Timestamp};
use crate::window::activation::with_entry;
use crate::window::configuring::ConfiguringView;
use crate::window::id::MappedId;
use crate::window::mapped::{
    committed_mode, draws_decorations, Credentials, MappedView, Status,
};
use crate::window::negotiated::NegotiatedView;
use crate::window::offscreen::{entering_keeps_other_elements, last_state_stays, ElementState};
use crate::window::resize::ResizeEdge;
use crate::window::rules::{
    mirror_rules_are_those_of_the_window, opacity_below_one_is_semitransparent,
    same_rules_agree_in_every_setting, ResolvedWindowRulesView,
};
use crate::window::toplevel::{
    flag_follows_setting, mode_reads_the_states, DecorationMode, SizingMode, ToplevelFlag, ToplevelView,
};
use vstd::prelude::*;

verus! {

/// After the rules were computed anew, every setting of an entry is the computed one, numbers as
/// numbers; a mirror is clipped and has no border background all the same. That leaves nothing to
/// recompute, and the rules count as unchanged only if every setting agreed before.
pub proof fn recomputed_rules_are_in_force<T, S>(
    entry: MappedView<T, S>,
    computed: ResolvedWindowRulesView,
)
    ensures
        ({
            let adapted = entry.adapted(computed);
            let after = entry.with_rules(adapted);
            let rules = after.rules;
            &&& rules.block_out_from == computed.block_out_from
            &&& rules.cursor_capture == computed.cursor_capture
            &&& rules.tiled_state == computed.tiled_state
            &&& rules.layout_rules == computed.layout_rules
            &&& rules.opacity == computed.opacity || (rules.opacity is Some && computed.opacity
                is Some && rules.opacity->0.same_number(computed.opacity->0))
            &&& rules.geometry_corner_radius == computed.geometry_corner_radius || (
            rules.geometry_corner_radius is Some && computed.geometry_corner_radius is Some
                && rules.geometry_corner_radius->0.same_radii(computed.geometry_corner_radius->0))
            &&& rules.background_effect == computed.background_effect
                || rules.background_effect.same_effect(computed.background_effect)
            &&& rules.popups == computed.popups || rules.popups.same_rules(computed.popups)
            &&& !entry.is_mirror ==> rules.clip_to_geometry == computed.clip_to_geometry
                && rules.draw_border_with_background == computed.draw_border_with_background
            &&& entry.is_mirror ==> rules.clip_to_geometry == Some(true)
                && rules.draw_border_with_background == Some(false)
            &&& !after.need_to_recompute_rules
            &&& adapted.same_rules(entry.rules) ==> entry.rules.block_out_from
                == computed.block_out_from && entry.rules.cursor_capture == computed.cursor_capture
                && entry.rules.tiled_state == computed.tiled_state && entry.rules.layout_rules
                == computed.layout_rules && after.rules == entry.rules
            &&& entry.rules.block_out_from != computed.block_out_from || entry.rules.cursor_capture
                != computed.cursor_capture || entry.rules.tiled_state != computed.tiled_state
                || entry.rules.layout_rules != computed.layout_rules ==> !adapted.same_rules(
                entry.rules,
            )
        }),
{
    let adapted = entry.adapted(computed);
    mirror_rules_are_those_of_the_window(computed);
    same_rules_agree_in_every_setting(adapted, entry.rules);
    same_rules_agree_in_every_setting(entry.rules, adapted);
}

/// Rules count as changed if any setting that is no number differs, or any number is set on one side
/// only or is another number; a mirror does not count what is the same for all mirrors. They do not
/// count as changed if they are the very same and hold nothing but numbers.
pub proof fn changed_rules_are_told<T, S>(
    entry: MappedView<T, S>,
    computed: ResolvedWindowRulesView,
)
    ensures
        ({
            let rules = entry.rules;
            &&& rules.block_out_from != computed.block_out_from ==> entry.rules_change(computed)
            &&& rules.cursor_capture != computed.cursor_capture ==> entry.rules_change(computed)
            &&& rules.tiled_state != computed.tiled_state ==> entry.rules_change(computed)
            &&& rules.layout_rules != computed.layout_rules ==> entry.rules_change(computed)
            &&& rules.opacity is Some != computed.opacity is Some ==> entry.rules_change(computed)
            &&& rules.opacity is Some && computed.opacity is Some
                && !computed.opacity->0.same_number(rules.opacity->0) ==> entry.rules_change(
                computed,
            )
            &&& rules.geometry_corner_radius is Some != computed.geometry_corner_radius is Some
                ==> entry.rules_change(computed)
            &&& !computed.background_effect.same_effect(rules.background_effect)
                ==> entry.rules_change(computed)
            &&& !computed.popups.same_rules(rules.popups) ==> entry.rules_change(computed)
            &&& !entry.is_mirror && rules.clip_to_geometry != computed.clip_to_geometry
                ==> entry.rules_change(computed)
            &&& !entry.is_mirror && rules.draw_border_with_background
                != computed.draw_border_with_background ==> entry.rules_change(computed)
            &&& entry.wf() && rules == entry.adapted(computed) && rules.same_rules(rules)
                ==> !entry.rules_change(computed)
        }),
{
    let adapted = entry.adapted(computed);
    mirror_rules_are_those_of_the_window(computed);
    same_rules_agree_in_every_setting(adapted, entry.rules);
}

/// Computing the rules anew changes the rules and nothing else about an entry, except that an
/// opacity rule that is ignored is followed again once changed rules no longer make the window
/// semitransparent.
pub proof fn recomputing_changes_only_rules<T, S>(
    entry: MappedView<T, S>,
    rules: ResolvedWindowRulesView,
)
    ensures
        ({
            let after = entry.with_rules(rules);
            &&& after == MappedView {
                rules: after.rules,
                need_to_recompute_rules: after.need_to_recompute_rules,
                toggles: after.toggles,
                ..entry
            }
            &&& after.toggles.invert_block_out == entry.toggles.invert_block_out
            &&& after.toggles.invert_cursor_capture == entry.toggles.invert_cursor_capture
            &&& after.toggles.ignore_opacity ==> entry.toggles.ignore_opacity
            &&& rules.same_rules(entry.rules) ==> after.toggles == entry.toggles
            &&& !rules.same_rules(entry.rules) && entry.toggles.ignore_opacity ==> (
            after.toggles.ignore_opacity <==> rules.opacity is Some && rules.opacity->0.below_one())
        }),
{
    opacity_below_one_is_semitransparent(rules);
}

/// A window is blocked out as its rules say, until that is inverted: then a window that they block
/// out is not, and one that they do not is blocked out from screencasts. The same goes for capturing
/// the cursor, which is off unless the rules switch it on.
pub proof fn toggles_invert_the_rules<T, S>(entry: MappedView<T, S>)
    ensures
        !entry.toggles.invert_block_out ==> entry.effective_block_out_from()
            == entry.rules.block_out_from,
        entry.toggles.invert_block_out && entry.rules.block_out_from is Some
            ==> entry.effective_block_out_from() is None,
        entry.toggles.invert_block_out && entry.rules.block_out_from is None
            ==> entry.effective_block_out_from() == Some(BlockOutFrom::Screencast),
        !entry.toggles.invert_cursor_capture ==> (entry.effective_cursor_capture()
            <==> entry.rules.cursor_capture == Some(true)),
        entry.toggles.invert_cursor_capture ==> (entry.effective_cursor_capture()
            <==> entry.rules.cursor_capture != Some(true)),
{
}

/// Toggling inverts one thing and leaves the others, and toggling it again brings it back: a window
/// that is blocked out is not afterwards, and the other way round, and so for capturing the cursor
/// and for ignoring the opacity.
pub proof fn toggling_changes_one_thing<T, S>(entry: MappedView<T, S>)
    ensures
        ({
            let block_out = entry.block_out_toggled();
            let cursor = entry.cursor_capture_toggled();
            let opacity = entry.opacity_toggled();
            &&& block_out.effective_block_out_from() is Some
                <==> entry.effective_block_out_from() is None
            &&& cursor.effective_cursor_capture() == !entry.effective_cursor_capture()
            &&& opacity.toggles.ignore_opacity == !entry.toggles.ignore_opacity
            &&& block_out.effective_cursor_capture() == entry.effective_cursor_capture()
            &&& opacity.effective_cursor_capture() == entry.effective_cursor_capture()
            &&& cursor.effective_block_out_from() == entry.effective_block_out_from()
            &&& opacity.effective_block_out_from() == entry.effective_block_out_from()
            &&& block_out.toggles.ignore_opacity == entry.toggles.ignore_opacity
            &&& cursor.toggles.ignore_opacity == entry.toggles.ignore_opacity
            &&& block_out.block_out_toggled() == entry
            &&& cursor.cursor_capture_toggled() == entry
            &&& opacity.opacity_toggled() == entry
            &&& block_out == MappedView { toggles: block_out.toggles, ..entry }
            &&& cursor == MappedView { toggles: cursor.toggles, ..entry }
            &&& opacity == MappedView { toggles: opacity.toggles, ..entry }
        }),
{
}

/// A change of the status is taken over as it is, asks for recomputing the rules, and changes
/// nothing else; without a change nothing new is asked for.
pub proof fn status_changes_ask_for_rules<T, S>(entry: MappedView<T, S>, status: Status)
    ensures
        ({
            let after = entry.with_status(status);
            &&& after.status == status
            &&& status != entry.status ==> after.need_to_recompute_rules
            &&& status == entry.status ==> after == entry
            &&& after == MappedView {
                status,
                need_to_recompute_rules: after.need_to_recompute_rules,
                ..entry
            }
        }),
{
}

/// A window that gets the focus is not urgent any longer, and does not become urgent while it has
/// it; otherwise the urgency is the one that was set last. Neither changes anything else about the
/// status.
pub proof fn focus_ends_urgency<T, S>(entry: MappedView<T, S>, focused: bool, urgent: bool)
    requires
        entry.wf(),
    ensures
        ({
            let focus = entry.focus_set(focused);
            let urgency = entry.urgency_set(urgent);
            &&& focus.status.is_focused == focused
            &&& focused ==> !focus.status.is_urgent
            &&& focused != entry.status.is_focused ==> !focus.status.is_urgent
                && focus.need_to_recompute_rules
            &&& focused == entry.status.is_focused ==> focus == entry
            &&& focus.status == Status {
                is_focused: focused,
                is_urgent: focus.status.is_urgent,
                ..entry.status
            }
            &&& entry.status.is_focused ==> !urgency.status.is_urgent
            &&& !entry.status.is_focused ==> urgency.status.is_urgent == urgent
            &&& urgency.status == Status { is_urgent: urgency.status.is_urgent, ..entry.status }
            &&& urgency.status != entry.status ==> urgency.need_to_recompute_rules
            &&& focus.rules == entry.rules && urgency.rules == entry.rules
            &&& focus.toggles == entry.toggles && urgency.toggles == entry.toggles
            &&& focus.configuring == entry.configuring && urgency.configuring == entry.configuring
        }),
{
}

/// The urgency can always be reset, and set wherever the window does not have the focus; giving or
/// taking the focus resets it.
pub proof fn urgency_can_be_reset<T, S>(entry: MappedView<T, S>, focused: bool)
    ensures
        !entry.urgency_set(false).status.is_urgent,
        !entry.status.is_focused ==> entry.urgency_set(true).status.is_urgent,
        entry.status.is_focused ==> entry.urgency_set(true) == entry,
        entry.status.is_focused != focused ==> !entry.focus_set(focused).status.is_urgent,
{
}

/// Each setter of the status changes what it names, to what it says, and nothing else of the status.
pub proof fn status_is_set_one_by_one<T, S>(entry: MappedView<T, S>, value: bool)
    ensures
        ({
            let column = entry.active_in_column_set(value).status;
            let floating = entry.floating_set(value).status;
            let sticky = entry.sticky_set(value).status;
            let target = entry.cast_target_set(value).status;
            let activated = entry.activation_set(value).status;
            &&& column.is_active_in_column == value
            &&& floating.is_floating == value
            &&& sticky.is_sticky == value
            &&& target.is_window_cast_target == value
            &&& activated.is_activated == value
            &&& column == Status { is_active_in_column: value, ..entry.status }
            &&& floating == Status { is_floating: value, ..entry.status }
            &&& sticky == Status { is_sticky: value, ..entry.status }
            &&& target == Status { is_window_cast_target: value, ..entry.status }
            &&& activated == Status { is_activated: value, ..entry.status }
        }),
{
}

/// As long as an entry is among those that want the surface activated exactly while it requests that,
/// it is after every change too; the others are left alone, and when something changed the client is
/// told to be activated exactly if any entry wants it.
pub proof fn surface_is_activated_for_any_entry<T, S>(
    entry: MappedView<T, S>,
    toplevel: ToplevelView,
    entries: Set<u64>,
    active: bool,
    other: u64,
)
    requires
        entries.contains(entry.id.number()) <==> entry.status.is_activated,
    ensures
        ({
            let after = entry.entries_after(entries, active);
            let told = entry.toplevel_after_activation(toplevel, entries, active).pending();
            &&& after.contains(entry.id.number()) == active
            &&& other != entry.id.number() ==> (after.contains(other) <==> entries.contains(other))
            &&& entry.status.is_activated != active && active ==> told.states.contains(
                ToplevelFlag::Activated,
            )
            &&& entry.status.is_activated != active && other != entry.id.number()
                && entries.contains(other) ==> told.states.contains(ToplevelFlag::Activated)
            &&& entry.status.is_activated && !active && (forall|id: u64| #[trigger]
                entries.contains(id) ==> id == entry.id.number()) ==> !told.states.contains(
                ToplevelFlag::Activated,
            )
            &&& entry.status.is_activated == active ==> told == toplevel.pending()
            &&& told.size == toplevel.pending().size
            &&& told.bounds == toplevel.pending().bounds
        }),
{
    let after = entry.entries_after(entries, active);
    flag_follows_setting(
        toplevel.pending().states,
        ToplevelFlag::Activated,
        !after.is_empty(),
        ToplevelFlag::Activated,
    );
    if active {
        assert(after.contains(entry.id.number()));
    }
    if after.contains(other) {
        assert(!after.is_empty());
    }
    if entry.status.is_activated && !active && (forall|id: u64| #[trigger]
        entries.contains(id) ==> id == entry.id.number()) {
        assert(after =~= Set::empty());
    }
}

/// What is noted on an entry is what is read off it afterwards, and nothing else changes: the
/// snapshot, which is there once and gone after it was taken, the time of the last focus, the start
/// of the last resize, and the blur.
pub proof fn notes_are_read_back<T, S>(
    entry: MappedView<T, S>,
    snapshot: S,
    timestamp: Timestamp,
    start: Option<(Timestamp, ResizeEdge)>,
    blur: Blur,
)
    ensures
        ({
            let stored = entry.snapshot_stored(snapshot);
            let taken = entry.snapshot_taken();
            let focus = entry.focus_noted(timestamp);
            let resize = entry.resize_start_noted(start);
            let blurred = entry.blur_set(blur);
            &&& stored.animation_snapshot == Some(snapshot)
            &&& stored.snapshot_taken() == taken
            &&& taken.animation_snapshot is None
            &&& focus.focus_timestamp == Some(timestamp)
            &&& resize.last_interactive_resize_start == start
            &&& blurred.blur_config == blur
            &&& stored == MappedView { animation_snapshot: stored.animation_snapshot, ..entry }
            &&& taken == MappedView { animation_snapshot: taken.animation_snapshot, ..entry }
            &&& focus == MappedView { focus_timestamp: focus.focus_timestamp, ..entry }
            &&& resize == MappedView {
                last_interactive_resize_start: resize.last_interactive_resize_start,
                ..entry
            }
            &&& blurred == MappedView { blur_config: blurred.blur_config, ..entry }
        }),
{
}

/// A mirror has no surface of its own, and a real window only its own.
pub proof fn surfaces_belong_to_real_windows<T, S>(entry: MappedView<T, S>, own: u64, other: u64)
    ensures
        entry.is_mirror ==> !entry.has_surface(own, other),
        !entry.is_mirror ==> entry.has_surface(own, own),
        own != other ==> !entry.has_surface(own, other),
{
}

/// A mirror can have any size from one pixel on, whatever its window allows; a real window has the
/// limits that the client and the rules agree on.
pub proof fn mirrors_have_no_size_limits<T, S>(entry: MappedView<T, S>, ruled: Size)
    ensures
        !entry.is_mirror ==> entry.smallest(ruled) == ruled && entry.largest(ruled) == ruled,
        entry.is_mirror ==> entry.smallest(ruled).w == 1 && entry.smallest(ruled).h == 1
            && entry.largest(ruled).w == 0 && entry.largest(ruled).h == 0,
{
}

/// Rules are computed anew where something asked for that, and only there.
pub proof fn rules_are_refreshed_when_asked<T, S>(
    entry: MappedView<T, S>,
    computed: ResolvedWindowRulesView,
)
    ensures
        !entry.need_to_recompute_rules ==> entry.rules_refreshed(computed) == entry,
        entry.need_to_recompute_rules ==> entry.rules_refreshed(computed).rules.block_out_from
            == computed.block_out_from && entry.rules_refreshed(computed) == entry.with_rules(
            entry.adapted(computed),
        ),
        !entry.rules_refreshed(computed).need_to_recompute_rules,
{
    recomputed_rules_are_in_force(entry, computed);
}

/// A mirror is an entry of its own on the window of its source: it has the size, the credentials,
/// the toggles, the blur and the rules of the source, floats if it does, and starts with nothing
/// else of it.
pub proof fn mirrors_start_afresh<T, S>(
    source: MappedView<T, S>,
    id: MappedId,
    toplevel: ToplevelView,
)
    ensures
        ({
            let mirror = source.mirrored(id, toplevel);
            &&& mirror.is_mirror
            &&& mirror.id == id
            &&& mirror.source_id == source.source_id
            &&& mirror.size(toplevel) == source.size(toplevel)
            &&& mirror.sizing_mode(toplevel) is Normal
            &&& mirror.pending_sizing_mode(toplevel) is Normal
            &&& mirror.credentials == source.credentials
            &&& mirror.toggles == source.toggles
            &&& mirror.blur_config == source.blur_config
            &&& mirror.rules.clip_to_geometry == Some(true)
            &&& mirror.rules.draw_border_with_background == Some(false)
            &&& mirror.rules.block_out_from == source.rules.block_out_from
            &&& mirror.rules.cursor_capture == source.rules.cursor_capture
            &&& mirror.rules.opacity == source.rules.opacity
            &&& mirror.rules.geometry_corner_radius == source.rules.geometry_corner_radius
            &&& mirror.rules.background_effect == source.rules.background_effect
            &&& mirror.rules.popups == source.rules.popups
            &&& mirror.rules.layout_rules == source.rules.layout_rules
            &&& mirror.status.is_floating == source.status.is_floating
            &&& mirror.status.is_active_in_column
            &&& !mirror.status.is_focused && !mirror.status.is_urgent
            &&& !mirror.status.is_activated && !mirror.status.is_sticky
            &&& !mirror.status.is_window_cast_target
            &&& !mirror.has_pre_commit_hook
            &&& !mirror.need_to_recompute_rules
            &&& mirror.offscreen_data is None
            &&& mirror.animation_snapshot is None
            &&& mirror.last_interactive_resize_start is None
            &&& mirror.focus_timestamp is None
            &&& mirror.configuring.interactive_resize is None
            &&& mirror.configuring.pending_transactions.len() == 0
            &&& mirror.configuring.request_size_once is None
        }),
{
}

/// A window that was just mapped is its own source and has its pre-commit hook, the given rules,
/// credentials and blur, and nothing focused, urgent, toggled, awaited or asked for; whether it is
/// maximized is read off its toplevel.
pub proof fn windows_start_afresh<T, S>(
    id: MappedId,
    rules: ResolvedWindowRulesView,
    credentials: Option<Credentials>,
    blur_config: Blur,
    toplevel: ToplevelView,
)
    ensures
        ({
            let window = MappedView::<T, S>::opened(id, rules, credentials, blur_config, toplevel);
            &&& !window.is_mirror
            &&& window.id == id && window.source_id == id
            &&& window.rules == rules
            &&& window.credentials == credentials
            &&& window.blur_config == blur_config
            &&& window.has_pre_commit_hook
            &&& !window.need_to_recompute_rules
            &&& !window.status.is_focused && !window.status.is_urgent
            &&& !window.status.is_activated && !window.status.is_floating
            &&& !window.status.is_sticky && !window.status.is_window_cast_target
            &&& window.status.is_active_in_column
            &&& !window.toggles.ignore_opacity && !window.toggles.invert_block_out
                && !window.toggles.invert_cursor_capture
            &&& window.effective_block_out_from() == rules.block_out_from
            &&& window.sizing_mode(toplevel) == committed_mode(toplevel)
            &&& window.maximized.committed <==> window.sizing_mode(toplevel) is Maximized
            &&& window.maximized.pending <==> window.pending_sizing_mode(toplevel) is Maximized
            &&& window.maximized.uncommitted.len() == 0
            &&& !window.windowed_fullscreen.committed && !window.windowed_fullscreen.pending
            &&& window.windowed_fullscreen.uncommitted.len() == 0
            &&& !window.configuring.needs_configure && !window.configuring.needs_frame_callback
            &&& !window.configuring.animate_next_configure
            &&& window.configuring.animate_serials.len() == 0
            &&& window.configuring.request_size_once is None
            &&& window.configuring.transaction_for_next_configure is None
            &&& window.configuring.pending_transactions.len() == 0
            &&& window.configuring.interactive_resize is None
            &&& window.offscreen_data is None
            &&& window.animation_snapshot is None
            &&& window.last_interactive_resize_start is None
            &&& window.focus_timestamp is None
        }),
{
    mode_reads_the_states(toplevel.pending().states);
}

/// The committed mode is the one of the committed states, and normal without any.
pub proof fn unmapped_window_is_normal(toplevel: ToplevelView)
    ensures
        toplevel.committed is None ==> committed_mode(toplevel) is Normal,
        toplevel.committed is Some ==> (committed_mode(toplevel) is Fullscreen
            <==> toplevel.committed->0.states.contains(ToplevelFlag::Fullscreen)),
        toplevel.committed is Some ==> (committed_mode(toplevel) is Normal
            <==> !toplevel.committed->0.states.contains(ToplevelFlag::Fullscreen)
            && !toplevel.committed->0.states.contains(ToplevelFlag::Maximized)),
{
    if toplevel.committed is Some {
        mode_reads_the_states(toplevel.committed->0.states);
    }
}

/// What one entry wants of a surface leaves alone what the others want: afterwards the entry is
/// among those that want it activated exactly if it does.
pub proof fn every_entry_counts_for_itself(entries: Set<u64>, id: u64, active: bool, other: u64)
    ensures
        with_entry(entries, id, active).contains(id) == active,
        other != id ==> (with_entry(entries, id, active).contains(other) <==> entries.contains(
            other,
        )),
{
}

/// The compositor draws the decorations if the client committed to that; the KDE protocol decides
/// where no mode was negotiated, and only there.
pub proof fn negotiated_decorations_decide(toplevel: ToplevelView, kde: Option<bool>)
    ensures
        toplevel.committed is Some && toplevel.committed->0.decoration_mode is Some ==> (
        draws_decorations(toplevel, kde) <==> toplevel.committed->0.decoration_mode->0
            == DecorationMode::ServerSide),
        toplevel.committed is None ==> draws_decorations(toplevel, kde) == (kde == Some(true)),
        toplevel.committed is Some && toplevel.committed->0.decoration_mode is None
            ==> draws_decorations(toplevel, kde) == (kde == Some(true)),
{
}

/// Only real windows have parents and children, and a window is a child of exactly the one whose
/// surface is its parent's.
pub proof fn mirrors_have_no_family<T, S>(
    entry: MappedView<T, S>,
    parent: Option<u64>,
    other: MappedView<T, S>,
    surface: u64,
)
    ensures
        entry.is_mirror || other.is_mirror ==> !entry.child_of(parent, other, surface),
        parent is None ==> !entry.child_of(parent, other, surface),
        !entry.is_mirror && !other.is_mirror && parent is Some ==> (entry.child_of(
            parent,
            other,
            surface,
        ) <==> parent->0 == surface),
{
}

/// Asking for a configure sticks on a real window and does nothing to a mirror; taking the note
/// about frame callbacks clears it. Neither changes anything else.
pub proof fn notes_are_kept_and_taken<T, S>(entry: MappedView<T, S>)
    ensures
        !entry.is_mirror ==> entry.configure_asked().configuring.needs_configure,
        entry.is_mirror ==> entry.configure_asked() == entry,
        entry.configure_asked() == (MappedView {
            configuring: ConfiguringView {
                needs_configure: entry.configure_asked().configuring.needs_configure,
                ..entry.configuring
            },
            ..entry
        }),
        !entry.frame_callback_taken().configuring.needs_frame_callback,
        entry.frame_callback_taken() == (MappedView {
            configuring: ConfiguringView { needs_frame_callback: false, ..entry.configuring },
            ..entry
        }),
{
}

/// A real window is in windowed fullscreen once that is in effect, and pending to be once it is
/// requested; a mirror is when its sizing mode is fullscreen. A real window is told what its rules
/// say about being tiled, and a mirror nothing.
pub proof fn windowed_fullscreen_of_windows_and_mirrors<T, S>(
    entry: MappedView<T, S>,
    toplevel: ToplevelView,
    value: bool,
)
    ensures
        entry.windowed_fullscreen_requested(value).pending_windowed_fullscreen() == value,
        entry.is_mirror ==> entry.windowed_fullscreen_requested(value).shown_windowed_fullscreen()
            == value,
        !entry.is_mirror ==> entry.windowed_fullscreen_requested(value).shown_windowed_fullscreen()
            == entry.shown_windowed_fullscreen(),
        !entry.is_mirror ==> (entry.shown_windowed_fullscreen()
            <==> entry.windowed_fullscreen.committed),
        entry.is_mirror ==> (entry.shown_windowed_fullscreen() <==> entry.sizing_mode(toplevel)
            == SizingMode::Fullscreen),
        entry.is_mirror ==> entry.told_tiled() is None,
        !entry.is_mirror ==> entry.told_tiled() == Some(entry.rules.tiled_state),
{
}

/// A frame that is rendered in place of a window is known by its own id and adds the states of its
/// elements to those of the layers inside; without one, nothing of that is left.
pub proof fn offscreen_frames_add_up<T, S>(
    entry: MappedView<T, S>,
    id: u64,
    states: Seq<(u64, ElementState)>,
    element: u64,
    at: int,
)
    ensures
        entry.offscreened(None).offscreen_data is None,
        ({
            let after = entry.offscreened(Some((id, states)));
            &&& after.offscreen_data is Some
            &&& after.offscreen_data->0.id == id
            &&& (0 <= at < states.len() && states[at].0 == element && forall|later: int|
                at < later < states.len() ==> (#[trigger] states[later]).0 != element)
                ==> after.offscreen_data->0.states.dom().contains(element)
                && after.offscreen_data->0.states[element] == states[at].1
            &&& (entry.offscreen_data is Some && forall|i: int|
                0 <= i < states.len() ==> (#[trigger] states[i]).0 != element)
                ==> after.offscreen_data->0.states.dom().contains(element)
                == entry.offscreen_data->0.states.dom().contains(element) && (
            entry.offscreen_data->0.states.dom().contains(element)
                ==> after.offscreen_data->0.states[element]
                == entry.offscreen_data->0.states[element])
            &&& (entry.offscreen_data is None && forall|i: int|
                0 <= i < states.len() ==> (#[trigger] states[i]).0 != element)
                ==> !after.offscreen_data->0.states.dom().contains(element)
            &&& after == MappedView { offscreen_data: after.offscreen_data, ..entry }
        }),
{
    let base = match entry.offscreen_data {
        Some(data) => data.states,
        None => Map::empty(),
    };
    entering_keeps_other_elements(base, states, element);
    if 0 <= at < states.len() && states[at].0 == element && forall|later: int|
        at < later < states.len() ==> (#[trigger] states[later]).0 != element {
        last_state_stays(base, states, at);
    }
}

/// A settled flag is in effect and requested as given, with nothing on its way, and what is idle has
/// nothing to tell and awaits nothing.
pub proof fn settled_and_idle_await_nothing<T>(value: bool)
    ensures
        NegotiatedView::settled(value).committed == value,
        NegotiatedView::settled(value).pending == value,
        NegotiatedView::settled(value).uncommitted.len() == 0,
        !ConfiguringView::<T>::idle().needs_configure,
        !ConfiguringView::<T>::idle().needs_frame_callback,
        !ConfiguringView::<T>::idle().animate_next_configure,
        ConfiguringView::<T>::idle().animate_serials.len() == 0,
        ConfiguringView::<T>::idle().request_size_once is None,
        ConfiguringView::<T>::idle().transaction_for_next_configure is None,
        ConfiguringView::<T>::idle().pending_transactions.len() == 0,
        ConfiguringView::<T>::idle().interactive_resize is None,
{
}

} // verus!
