//! What holds of entries across several operations.

use crate::appearance::Blur;
use crate::geometry::{Rect, Size};
use crate::serial::Serial;
use crate::window::activation::with_entry;
use crate::window::id::MappedId;
use crate::window::mapped::configure::already_asked;
use crate::window::mapped::render::{BlockOutTarget, NormalPlan};
use crate::window::mapped::{
    pending_with, Credentials, MappedView, MirrorViewState, Status, Toggles,
};
use crate::window::negotiated::{answered_request_is_in_effect, NegotiatedView};
use crate::window::resize::InteractiveResizeData;
use crate::window::rules::ResolvedWindowRulesView;
use crate::window::toplevel::{
    flag_follows_setting, mode_of, with_flag_if, SizingMode, ToplevelFlag, ToplevelStateView,
    ToplevelView,
};
use vstd::prelude::*;

verus! {

/// Whether the pending states of a toplevel are those that a real window asked for: in windowed
/// fullscreen they are fullscreen and not maximized, and else they are maximized exactly if the
/// window is to be.
pub open spec fn states_agree<T, S>(entry: MappedView<T, S>, toplevel: ToplevelView) -> bool {
    let states = toplevel.pending().states;
    if entry.windowed_fullscreen.pending {
        states.contains(ToplevelFlag::Fullscreen) && !states.contains(ToplevelFlag::Maximized)
    } else {
        entry.maximized.pending <==> mode_of(states) is Maximized
    }
}

/// A window that was just mapped agrees with its toplevel.
pub proof fn opened_window_agrees<T, S>(
    id: MappedId,
    rules: ResolvedWindowRulesView,
    credentials: Option<Credentials>,
    blur: Blur,
    toplevel: ToplevelView,
)
    ensures
        states_agree(
            MappedView::<T, S>::opened(id, rules, credentials, blur, toplevel),
            toplevel,
        ),
{
}

/// The sizing mode that was requested last is the pending one, for windows and for mirrors, and
/// the window and its toplevel agree from then on.
pub proof fn requested_mode_is_pending<T, S>(
    entry: MappedView<T, S>,
    toplevel: ToplevelView,
    size: Size,
    mode: SizingMode,
    animate: bool,
    transaction: Option<T>,
)
    ensures
        ({
            let after = entry.size_requested(toplevel.pending(), size, mode, animate, transaction);
            let toplevel_after = after.toplevel_size_requested(toplevel, size, mode);
            &&& after.pending_sizing_mode(toplevel_after) == mode
            &&& !entry.is_mirror ==> states_agree(after, toplevel_after)
            &&& !entry.is_mirror ==> toplevel_after.pending().size == Some(size)
        }),
{
    let after = entry.size_requested(toplevel.pending(), size, mode, animate, transaction);
    let fullscreen = mode is Fullscreen || after.windowed_fullscreen.pending;
    let states = toplevel.pending().states;
    let first = with_flag_if(states, ToplevelFlag::Fullscreen, fullscreen);
    flag_follows_setting(
        states,
        ToplevelFlag::Fullscreen,
        fullscreen,
        ToplevelFlag::Maximized,
    );
    flag_follows_setting(
        first,
        ToplevelFlag::Maximized,
        !fullscreen && mode is Maximized,
        ToplevelFlag::Fullscreen,
    );
}

/// A one-time size request keeps the agreement, unless the size was already asked for by a
/// configure while a different state is pending.
pub proof fn size_request_once_keeps_agreement<T, S>(
    entry: MappedView<T, S>,
    toplevel: ToplevelView,
    size: Size,
    animate: bool,
)
    requires
        !entry.is_mirror,
        states_agree(entry, toplevel),
        already_asked(toplevel, size, entry.windowed_fullscreen.pending) is Some ==> mode_of(
            toplevel.pending().states,
        ) == mode_of(toplevel.last_uncommitted->0.state.states),
    ensures
        states_agree(
            entry.size_requested_once(toplevel, size, animate),
            entry.toplevel_size_requested_once(toplevel, size),
        ),
{
    let states = toplevel.pending().states;
    let first = with_flag_if(states, ToplevelFlag::Fullscreen, false);
    flag_follows_setting(states, ToplevelFlag::Fullscreen, false, ToplevelFlag::Maximized);
    flag_follows_setting(first, ToplevelFlag::Maximized, false, ToplevelFlag::Fullscreen);
    flag_follows_setting(states, ToplevelFlag::Maximized, false, ToplevelFlag::Fullscreen);
}

/// Requesting windowed fullscreen, or giving it up, keeps the agreement, and leaves the pending
/// sizing mode as it was, unless that was real fullscreen.
pub proof fn windowed_fullscreen_keeps_mode<T, S>(
    entry: MappedView<T, S>,
    toplevel: ToplevelView,
    value: bool,
)
    requires
        !entry.is_mirror,
        states_agree(entry, toplevel),
    ensures
        ({
            let after = entry.windowed_fullscreen_requested(value);
            let toplevel_after = entry.toplevel_windowed_fullscreen_requested(toplevel, value);
            &&& states_agree(after, toplevel_after)
            &&& !(entry.pending_sizing_mode(toplevel) is Fullscreen) ==> after.pending_sizing_mode(
                toplevel_after,
            ) == entry.pending_sizing_mode(toplevel)
            &&& value ==> toplevel_after.pending().states.contains(ToplevelFlag::Fullscreen)
        }),
{
    let states = toplevel.pending().states;
    let first = with_flag_if(states, ToplevelFlag::Fullscreen, value);
    flag_follows_setting(states, ToplevelFlag::Fullscreen, value, ToplevelFlag::Maximized);
    flag_follows_setting(first, ToplevelFlag::Maximized, !value, ToplevelFlag::Fullscreen);
}

/// Activating, resizing and bounding a window, and preparing and sending a configure, keep the
/// agreement.
pub proof fn other_requests_keep_agreement<T, S>(
    entry: MappedView<T, S>,
    toplevel: ToplevelView,
    status: Status,
    any_active: bool,
    resize: Option<InteractiveResizeData>,
    bounds: Size,
    serial: Serial,
)
    requires
        !entry.is_mirror,
        states_agree(entry, toplevel),
    ensures
        states_agree(
            entry.with_status(status),
            toplevel.with_pending(
                pending_with(toplevel.pending(), ToplevelFlag::Activated, any_active),
            ),
        ),
        states_agree(entry.resizing(resize), entry.toplevel_resizing(toplevel, resize is Some)),
        states_agree(
            entry,
            toplevel.with_pending(
                ToplevelStateView { bounds: Some(bounds), ..toplevel.pending() },
            ),
        ),
        states_agree(entry, entry.toplevel_before_configure(toplevel)),
        states_agree(entry.configured(serial), toplevel.sent(serial)),
{
    let states = toplevel.pending().states;
    flag_follows_setting(
        states,
        ToplevelFlag::Activated,
        any_active,
        ToplevelFlag::Fullscreen,
    );
    flag_follows_setting(states, ToplevelFlag::Activated, any_active, ToplevelFlag::Maximized);
    flag_follows_setting(
        states,
        ToplevelFlag::Resizing,
        resize is Some,
        ToplevelFlag::Fullscreen,
    );
    flag_follows_setting(
        states,
        ToplevelFlag::Resizing,
        resize is Some,
        ToplevelFlag::Maximized,
    );
}

/// A configure is sent only when one is due, and whenever one is due, except that a window that is
/// configured with the size that it has is not configured for a change of the size alone.
pub proof fn intent_tells_sending<T, S>(entry: MappedView<T, S>, toplevel: ToplevelView)
    ensures
        entry.sends_configure(toplevel) ==> !(entry.configure_intent(toplevel) is NotNeeded),
        !entry.uses_window_size() ==> (entry.sends_configure(toplevel) <==> !(
        entry.configure_intent(toplevel) is NotNeeded)),
        entry.uses_window_size() && (entry.configure_intent(toplevel) is CanSend
            || entry.configure_intent(toplevel) is Throttled) ==> !entry.sends_configure(toplevel),
{
    if toplevel.server_pending is Some {
        let pending = toplevel.server_pending->0;
        let current = toplevel.current_server;
        let same_size = ToplevelStateView { size: current.size, ..pending };
        if pending == current {
            assert(same_size == current);
        }
    }
}

/// Once a configure has been sent, none is due until something changes again.
pub proof fn nothing_is_due_after_sending<T, S>(
    entry: MappedView<T, S>,
    toplevel: ToplevelView,
    serial: Serial,
)
    ensures
        entry.configured(serial).configure_intent(toplevel.sent(serial)) is NotNeeded,
        !entry.configured(serial).sends_configure(toplevel.sent(serial)),
        entry.configured(serial).configuring.needs_frame_callback,
{
}

/// Requesting windowed fullscreen, or giving it up, always leads to a configure, and takes effect
/// with the commit that answers it.
pub proof fn windowed_fullscreen_takes_effect<T, S>(
    entry: MappedView<T, S>,
    toplevel: ToplevelView,
    value: bool,
    serial: Serial,
    commit: Serial,
)
    requires
        !entry.is_mirror,
        entry.windowed_fullscreen.pending != value,
        ({
            let sent = entry.windowed_fullscreen_requested(value).configured(
                serial,
            ).windowed_fullscreen;
            sent.answers_first(commit, sent.uncommitted.len() as int)
        }),
    ensures
        ({
            let asked = entry.windowed_fullscreen_requested(value);
            &&& asked.sends_configure(entry.toplevel_windowed_fullscreen_requested(toplevel, value))
            &&& asked.configured(serial).after_commit(commit).windowed_fullscreen
                == NegotiatedView::settled(value)
        }),
{
    answered_request_is_in_effect(
        entry.windowed_fullscreen_requested(value).windowed_fullscreen,
        serial,
        commit,
    );
}

/// Requesting a size in another mode leads to a configure whenever the maximized state changes or
/// a windowed fullscreen ends, and both take effect with the commit that answers it.
pub proof fn requested_mode_takes_effect<T, S>(
    entry: MappedView<T, S>,
    toplevel: ToplevelView,
    size: Size,
    mode: SizingMode,
    animate: bool,
    transaction: Option<T>,
    serial: Serial,
    commit: Serial,
)
    requires
        !entry.is_mirror,
        ({
            let sent = entry.size_requested(
                toplevel.pending(),
                size,
                mode,
                animate,
                transaction,
            ).configured(serial);
            &&& sent.maximized.answers_first(commit, sent.maximized.uncommitted.len() as int)
            &&& sent.windowed_fullscreen.answers_first(
                commit,
                sent.windowed_fullscreen.uncommitted.len() as int,
            )
        }),
    ensures
        ({
            let asked = entry.size_requested(toplevel.pending(), size, mode, animate, transaction);
            let answered = asked.configured(serial).after_commit(commit);
            &&& (entry.maximized.committed != (mode is Maximized) || (
            entry.windowed_fullscreen.committed && mode is Fullscreen)) ==> asked.sends_configure(
                asked.toplevel_size_requested(toplevel, size, mode),
            )
            &&& answered.maximized == NegotiatedView::settled(mode is Maximized)
            &&& mode is Fullscreen ==> answered.windowed_fullscreen == NegotiatedView::settled(
                false,
            )
        }),
{
    let asked = entry.size_requested(toplevel.pending(), size, mode, animate, transaction);
    answered_request_is_in_effect(asked.maximized, serial, commit);
    answered_request_is_in_effect(asked.windowed_fullscreen, serial, commit);
}

/// A size that was requested in normal mode is the expected one, until the client has answered.
pub proof fn requested_size_is_expected<T, S>(
    entry: MappedView<T, S>,
    toplevel: ToplevelView,
    size: Size,
    animate: bool,
    transaction: Option<T>,
)
    requires
        size.w != 0,
        size.h != 0,
        entry.is_mirror ==> size.w >= 1 && size.h >= 1,
        !entry.is_mirror ==> toplevel.current_server.size != Some(size),
    ensures
        ({
            let after = entry.size_requested(
                toplevel.pending(),
                size,
                SizingMode::Normal,
                animate,
                transaction,
            );
            after.expected_size(
                after.toplevel_size_requested(toplevel, size, SizingMode::Normal),
            ) == Some(size)
        }),
{
    let after = entry.size_requested(
        toplevel.pending(),
        size,
        SizingMode::Normal,
        animate,
        transaction,
    );
    let fullscreen = after.windowed_fullscreen.pending;
    let states = toplevel.pending().states;
    flag_follows_setting(
        states,
        ToplevelFlag::Fullscreen,
        fullscreen,
        ToplevelFlag::Maximized,
    );
    flag_follows_setting(
        with_flag_if(states, ToplevelFlag::Fullscreen, fullscreen),
        ToplevelFlag::Maximized,
        false,
        ToplevelFlag::Fullscreen,
    );
}

/// A mirror leaves the toplevel of its source alone, whatever is asked of it, and never configures
/// it.
pub proof fn mirrors_leave_the_toplevel_alone<T, S>(
    mirror: MappedView<T, S>,
    toplevel: ToplevelView,
    size: Size,
    mode: SizingMode,
    value: bool,
    commit: Serial,
)
    requires
        mirror.is_mirror,
    ensures
        mirror.toplevel_size_requested(toplevel, size, mode) == toplevel,
        mirror.toplevel_size_requested_once(toplevel, size) == toplevel,
        mirror.toplevel_windowed_fullscreen_requested(toplevel, value) == toplevel,
        mirror.toplevel_resizing(toplevel, value) == toplevel,
        mirror.toplevel_before_configure(toplevel) == toplevel,
        !mirror.sends_configure(toplevel),
        mirror.configure_intent(toplevel) is NotNeeded,
        mirror.after_commit(commit) == mirror,
{
}

/// Every mirror points at the real window, also a mirror of a mirror, and it is blocked out and
/// captured like its source at the time it is made.
pub proof fn mirrors_point_at_the_real_window<T, S>(
    window: MappedView<T, S>,
    first: MappedId,
    second: MappedId,
    toplevel: ToplevelView,
)
    requires
        window.wf(),
        !window.is_mirror,
    ensures
        ({
            let mirror = window.mirrored(first, toplevel);
            let again = mirror.mirrored(second, toplevel);
            &&& mirror.source_id == window.id
            &&& again.source_id == window.id
            &&& again.size(toplevel) == toplevel.geometry.size
            &&& mirror.effective_block_out_from() == window.effective_block_out_from()
            &&& again.effective_block_out_from() == window.effective_block_out_from()
            &&& mirror.effective_cursor_capture() == window.effective_cursor_capture()
        }),
{
}

/// A mirror of a mirror shows the same view, turned the same way, and a mirror of a real window
/// shows all of it as it is; neither starts linked.
pub proof fn mirrors_take_over_the_view_of_a_mirror<T, S>(
    source: MappedView<T, S>,
    id: MappedId,
    toplevel: ToplevelView,
)
    requires
        source.wf(),
    ensures
        source.mirrored(id, toplevel).mirror.view == source.mirror.view,
        !source.is_mirror ==> source.mirrored(id, toplevel).mirror.view
            == MirrorViewState::entire(),
        !source.mirrored(id, toplevel).mirror.is_linked,
{
}

/// The view of the whole window does not enlarge, move or turn it.
pub proof fn whole_view_shows_the_window_as_it_is()
    ensures
        MirrorViewState::entire().zoom.bits == 0x3ff0_0000_0000_0000,
        MirrorViewState::entire().center is None,
        MirrorViewState::entire().transform is Normal,
{
}

/// A mirror keeps its view and its link whatever size or mode is asked of it, however it takes part
/// in the layout and whatever rules apply.
pub proof fn views_and_links_change_only_on_request<T, S>(
    entry: MappedView<T, S>,
    toplevel: ToplevelView,
    size: Size,
    mode: SizingMode,
    animate: bool,
    transaction: Option<T>,
    value: bool,
    status: Status,
    rules: ResolvedWindowRulesView,
    commit: Serial,
)
    ensures
        keeps_view_and_link(
            entry,
            entry.size_requested(toplevel.pending(), size, mode, animate, transaction),
        ),
        keeps_view_and_link(entry, entry.size_requested_once(toplevel, size, animate)),
        keeps_view_and_link(entry, entry.windowed_fullscreen_requested(value)),
        keeps_view_and_link(entry, entry.with_status(status)),
        keeps_view_and_link(entry, entry.with_rules(rules)),
        keeps_view_and_link(entry, entry.after_commit(commit)),
{
}

/// Whether an entry shows the same view as before and is linked as before.
pub open spec fn keeps_view_and_link<T, S>(
    before: MappedView<T, S>,
    after: MappedView<T, S>,
) -> bool {
    &&& after.mirror.view == before.mirror.view
    &&& after.mirror.is_linked == before.mirror.is_linked
}

/// Changing the view of a mirror leaves its link alone, changing its link leaves its view alone, and
/// changing the link twice changes nothing. A real window has neither to change.
pub proof fn views_and_links_are_independent<T, S>(
    entry: MappedView<T, S>,
    view: MirrorViewState,
)
    ensures
        entry.with_mirror_view(view).mirror.is_linked == entry.mirror.is_linked,
        entry.is_mirror ==> entry.with_mirror_view(view).mirror.view == view,
        entry.with_mirror_link_toggled().mirror.view == entry.mirror.view,
        entry.is_mirror ==> entry.with_mirror_link_toggled().mirror.is_linked
            != entry.mirror.is_linked,
        entry.with_mirror_link_toggled().with_mirror_link_toggled() == entry,
        !entry.is_mirror ==> entry.with_mirror_view(view) == entry
            && entry.with_mirror_link_toggled() == entry,
{
}

/// The entry after toggling the block-out, the cursor capture, and the opacity rule.
pub open spec fn toggled<T, S>(
    entry: MappedView<T, S>,
    block_out: bool,
    cursor_capture: bool,
    opacity: bool,
) -> MappedView<T, S> {
    MappedView {
        toggles: Toggles {
            invert_block_out: entry.toggles.invert_block_out != block_out,
            invert_cursor_capture: entry.toggles.invert_cursor_capture != cursor_capture,
            ignore_opacity: entry.toggles.ignore_opacity != opacity,
        },
        ..entry
    }
}

/// Toggling turns blocking out on or off, whatever the rules say, and the same for capturing the
/// cursor; toggling again brings the rules back.
pub proof fn toggling_inverts_and_restores<T, S>(
    entry: MappedView<T, S>,
    block_out: bool,
    cursor_capture: bool,
    opacity: bool,
)
    ensures
        ({
            let once = toggled(entry, block_out, cursor_capture, opacity);
            &&& once.effective_block_out_from() is Some == ((entry.effective_block_out_from()
                is Some) != block_out)
            &&& once.effective_cursor_capture() == (entry.effective_cursor_capture()
                != cursor_capture)
            &&& toggled(once, block_out, cursor_capture, opacity) == entry
        }),
{
}

/// Recomputing the rules a second time with the same outcome changes nothing, as long as no rule
/// is set to something that is not a number.
pub proof fn recomputing_again_changes_nothing<T, S>(
    entry: MappedView<T, S>,
    computed: ResolvedWindowRulesView,
)
    requires
        entry.adapted(computed).same_rules(entry.adapted(computed)),
    ensures
        ({
            let once = entry.with_rules(entry.adapted(computed));
            once.with_rules(once.adapted(computed)) == once
        }),
{
}

/// A surface stays activated as long as any entry that shows it requests that, and no longer.
pub proof fn surface_stays_activated(entries: Set<u64>, id: u64, other: u64)
    ensures
        !with_entry(entries, id, true).is_empty(),
        id != other ==> !with_entry(with_entry(entries, id, true), other, false).is_empty(),
        with_entry(with_entry(Set::empty(), id, true), id, false).is_empty(),
{
    assert(with_entry(entries, id, true).contains(id));
    assert(id != other ==> with_entry(with_entry(entries, id, true), other, false).contains(id));
}

/// The sizing mode of a window changes only on a commit, whatever is requested or told meanwhile.
pub proof fn sizing_mode_changes_only_on_a_commit<T, S>(
    entry: MappedView<T, S>,
    toplevel: ToplevelView,
    size: Size,
    mode: SizingMode,
    animate: bool,
    transaction: Option<T>,
    value: bool,
    resize: Option<InteractiveResizeData>,
    serial: Serial,
)
    requires
        !entry.is_mirror,
    ensures
        ({
            let after = entry.size_requested(toplevel.pending(), size, mode, animate, transaction);
            after.sizing_mode(after.toplevel_size_requested(toplevel, size, mode))
                == entry.sizing_mode(toplevel)
        }),
        entry.size_requested_once(toplevel, size, animate).sizing_mode(
            entry.toplevel_size_requested_once(toplevel, size),
        ) == entry.sizing_mode(toplevel),
        entry.windowed_fullscreen_requested(value).sizing_mode(
            entry.toplevel_windowed_fullscreen_requested(toplevel, value),
        ) == entry.sizing_mode(toplevel),
        entry.resizing(resize).sizing_mode(entry.toplevel_resizing(toplevel, value))
            == entry.sizing_mode(toplevel),
        entry.sizing_mode(entry.toplevel_before_configure(toplevel)) == entry.sizing_mode(toplevel),
        entry.configured(serial).sizing_mode(toplevel.sent(serial)) == entry.sizing_mode(toplevel),
{
}

/// A size that was requested once is the window's own matter once the client has answered: from
/// then on the size that the window has is the expected one, and the one it is configured with.
pub proof fn size_requested_once_becomes_the_windows_own<T, S>(
    entry: MappedView<T, S>,
    toplevel: ToplevelView,
    size: Size,
    animate: bool,
    serial: Serial,
    commit: Serial,
    answered: ToplevelView,
)
    requires
        !entry.is_mirror,
        already_asked(toplevel, size, entry.windowed_fullscreen.pending) is None,
        commit.no_older_than(serial),
    ensures
        ({
            let asked = entry.size_requested_once(toplevel, size, animate);
            let after = asked.configured(serial).after_commit(commit);
            &&& after.uses_window_size()
            &&& after.expected_size(answered) == after.own_size(answered)
            &&& after.sends_configure(answered) ==> after.toplevel_before_configure(
                answered,
            ).pending().size == Some(answered.geometry.size)
        }),
{
}

/// Of a window that a frame leaves out, nothing is drawn but a transparent fill, and of a mirror
/// nothing but the fill of its viewport.
pub proof fn left_out_windows_show_nothing<T, S>(
    entry: MappedView<T, S>,
    toplevel: ToplevelView,
    target: BlockOutTarget,
)
    requires
        entry.is_left_out(target),
    ensures
        !(entry.normal_plan(toplevel, target) is Surfaces),
        entry.normal_plan(toplevel, target) matches NormalPlan::Mirror { contents, .. }
            ==> !contents,
        entry.normal_plan(toplevel, target) matches NormalPlan::BlockedOut { size } ==> size
            == toplevel.geometry.size,
        entry.is_mirror <==> entry.normal_plan(toplevel, target) is Mirror,
{
}

/// A window cast leaves a window out exactly if the window is blocked out from anything and blocking
/// out is enabled; of a window that is left out it shows only a transparent fill.
pub proof fn cast_leaves_out_blocked_windows<T, S>(
    entry: MappedView<T, S>,
    toplevel: ToplevelView,
    bbox: Rect,
    block_out_enabled: bool,
)
    ensures
        ({
            let plan = entry.cast_plan(toplevel, bbox, block_out_enabled);
            let left_out = block_out_enabled && entry.effective_block_out_from() is Some;
            &&& entry.is_left_out(plan.target) == left_out
            &&& entry.is_mirror ==> (plan.window matches NormalPlan::Mirror { size, contents, .. }
                && size == entry.mirror.size && contents == !left_out)
            &&& !entry.is_mirror ==> plan.window == if left_out {
                NormalPlan::BlockedOut { size: toplevel.geometry.size }
            } else {
                NormalPlan::Surfaces { geometry_loc: toplevel.geometry.loc }
            }
        }),
{
}

} // verus!
