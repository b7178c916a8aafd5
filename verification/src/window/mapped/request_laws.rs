//! What holds of the sizes that are asked of a window, and of those that it is expected to have.

use crate::geometry::Size;
use crate::serial::Serial;
use crate::window::configuring::{answered_count, answered_transactions_come_first};
use crate::window::mapped::configure::already_asked;
use crate::window::mapped::MappedView;
use crate::window::resize::RequestSizeOnce;
use crate::window::toplevel::{
    flag_follows_setting, mode_reads_the_states, with_flag_if, without_flag, SizingMode,
    ToplevelFlag, ToplevelStateView, ToplevelView,
};
use vstd::prelude::*;

verus! {

/// Whether two states differ at most in their size and in being maximized or fullscreen.
pub open spec fn differ_in_size_and_mode(a: ToplevelStateView, b: ToplevelStateView) -> bool {
    &&& a.bounds == b.bounds
    &&& a.fullscreen_output == b.fullscreen_output
    &&& a.decoration_mode == b.decoration_mode
    &&& a.capabilities == b.capabilities
    &&& forall|flag: ToplevelFlag|
        flag != ToplevelFlag::Maximized && flag != ToplevelFlag::Fullscreen ==> (
        #[trigger] a.states.contains(flag) <==> b.states.contains(flag))
}

/// Whether two toplevels differ at most in what is pending.
pub open spec fn differ_in_pending(a: ToplevelView, b: ToplevelView) -> bool {
    &&& a.geometry == b.geometry
    &&& a.committed == b.committed
    &&& a.current_server == b.current_server
    &&& a.last_uncommitted == b.last_uncommitted
    &&& a.committed_serial == b.committed_serial
}

/// Whether two entries differ at most in what they still have to tell the client.
pub open spec fn differ_in_configuring<T, S>(a: MappedView<T, S>, b: MappedView<T, S>) -> bool {
    &&& a.id == b.id
    &&& a.source_id == b.source_id
    &&& a.is_mirror == b.is_mirror
    &&& a.mirror == b.mirror
    &&& a.credentials == b.credentials
    &&& a.has_pre_commit_hook == b.has_pre_commit_hook
    &&& a.rules == b.rules
    &&& a.need_to_recompute_rules == b.need_to_recompute_rules
    &&& a.offscreen_data == b.offscreen_data
    &&& a.status == b.status
    &&& a.toggles == b.toggles
    &&& a.blur_config == b.blur_config
    &&& a.animation_snapshot == b.animation_snapshot
    &&& a.last_interactive_resize_start == b.last_interactive_resize_start
    &&& a.focus_timestamp == b.focus_timestamp
}

/// The transaction of the last size request that carries one is the one that the next configure
/// takes part in, whatever size was pending before and after it; a request without one leaves it
/// alone. The configure notes exactly that transaction under its serial, after the earlier ones.
pub proof fn last_transaction_joins_the_next_configure<T, S>(
    entry: MappedView<T, S>,
    pending: ToplevelStateView,
    size: Size,
    mode: SizingMode,
    animate: bool,
    transaction: T,
    later_pending: ToplevelStateView,
    later_size: Size,
    later_mode: SizingMode,
    later_animate: bool,
    serial: Serial,
)
    requires
        !entry.is_mirror,
    ensures
        ({
            let asked = entry.size_requested(pending, size, mode, animate, Some(transaction));
            let later = asked.size_requested(
                later_pending,
                later_size,
                later_mode,
                later_animate,
                None,
            );
            let unasked = entry.size_requested(pending, size, mode, animate, None);
            let noted = entry.configuring.pending_transactions.push((serial, transaction));
            &&& asked.configuring.transaction_for_next_configure == Some(transaction)
            &&& later.configuring.transaction_for_next_configure == Some(transaction)
            &&& unasked.configuring.transaction_for_next_configure
                == entry.configuring.transaction_for_next_configure
            &&& asked.configuring.pending_transactions == entry.configuring.pending_transactions
            &&& asked.configured(serial).configuring.pending_transactions == noted
            &&& later.configured(serial).configuring.pending_transactions == noted
            &&& asked.configured(serial).configuring.transaction_for_next_configure is None
        }),
{
}

/// A commit that answers a configure, and all configures before it, completes the transaction of
/// the last size request before that configure, and leaves none pending.
pub proof fn answered_configure_completes_its_transaction<T, S>(
    entry: MappedView<T, S>,
    pending: ToplevelStateView,
    size: Size,
    mode: SizingMode,
    animate: bool,
    transaction: T,
    serial: Serial,
    commit: Serial,
)
    requires
        !entry.is_mirror,
        commit.no_older_than(serial),
        forall|i: int|
            0 <= i < entry.configuring.pending_transactions.len() ==> commit.no_older_than(
                (#[trigger] entry.configuring.pending_transactions[i]).0,
            ),
    ensures
        ({
            let sent = entry.size_requested(
                pending,
                size,
                mode,
                animate,
                Some(transaction),
            ).configured(serial).configuring.pending_transactions;
            let count = answered_count(sent, commit);
            &&& count == sent.len()
            &&& count > 0
            &&& sent[count - 1].1 == transaction
        }),
{
    let sent = entry.size_requested(
        pending,
        size,
        mode,
        animate,
        Some(transaction),
    ).configured(serial).configuring.pending_transactions;
    let count = answered_count(sent, commit) as int;
    answered_transactions_come_first(sent, commit);
    if count < sent.len() {
        if count < entry.configuring.pending_transactions.len() {
            assert(sent[count] == entry.configuring.pending_transactions[count]);
        }
        assert(commit.no_older_than(sent[count].0));
    }
}

/// A size request on a real window makes exactly that size pending, together with the mode, and
/// nothing else about the toplevel; in windowed fullscreen the client is told fullscreen all the
/// same, unless real fullscreen is asked for, which ends it.
pub proof fn request_makes_size_and_mode_pending<T, S>(
    entry: MappedView<T, S>,
    toplevel: ToplevelView,
    size: Size,
    mode: SizingMode,
    animate: bool,
    transaction: Option<T>,
)
    requires
        !entry.is_mirror,
    ensures
        ({
            let after = entry.size_requested(toplevel.pending(), size, mode, animate, transaction);
            let toplevel_after = after.toplevel_size_requested(toplevel, size, mode);
            let told = toplevel_after.pending();
            let windowed = entry.windowed_fullscreen.pending && !(mode is Fullscreen);
            &&& told.size == Some(size)
            &&& told.states.contains(ToplevelFlag::Fullscreen) <==> (mode is Fullscreen || windowed)
            &&& told.states.contains(ToplevelFlag::Maximized) <==> (mode is Maximized && !windowed)
            &&& differ_in_size_and_mode(told, toplevel.pending())
            &&& differ_in_pending(toplevel_after, toplevel)
            &&& after.windowed_fullscreen.pending == windowed
            &&& after.maximized.pending == (mode is Maximized)
        }),
{
    let after = entry.size_requested(toplevel.pending(), size, mode, animate, transaction);
    let fullscreen = mode is Fullscreen || after.windowed_fullscreen.pending;
    let maximized = !fullscreen && mode is Maximized;
    let states = toplevel.pending().states;
    let first = with_flag_if(states, ToplevelFlag::Fullscreen, fullscreen);
    let told = after.toplevel_size_requested(toplevel, size, mode).pending();
    flag_follows_setting(states, ToplevelFlag::Fullscreen, fullscreen, ToplevelFlag::Maximized);
    flag_follows_setting(first, ToplevelFlag::Maximized, maximized, ToplevelFlag::Fullscreen);
    assert forall|flag: ToplevelFlag|
        flag != ToplevelFlag::Maximized && flag != ToplevelFlag::Fullscreen implies (
    #[trigger] told.states.contains(flag) <==> states.contains(flag)) by {
        flag_follows_setting(states, ToplevelFlag::Fullscreen, fullscreen, flag);
        flag_follows_setting(first, ToplevelFlag::Maximized, maximized, flag);
    }
}

/// A size request on a real window is animated if it should be and the size differs from the
/// pending one, needs a configure of its own if the maximized state or a windowed fullscreen has to
/// change by a commit, and ends a one-time request. What is in effect, what was sent before and
/// everything else about the entry stays.
pub proof fn request_changes_only_what_is_asked<T, S>(
    entry: MappedView<T, S>,
    pending: ToplevelStateView,
    size: Size,
    mode: SizingMode,
    animate: bool,
    transaction: Option<T>,
)
    requires
        !entry.is_mirror,
    ensures
        ({
            let after = entry.size_requested(pending, size, mode, animate, transaction);
            let before = entry.configuring;
            &&& differ_in_configuring(after, entry)
            &&& after.windowed_fullscreen.committed == entry.windowed_fullscreen.committed
            &&& after.windowed_fullscreen.uncommitted == entry.windowed_fullscreen.uncommitted
            &&& after.maximized.committed == entry.maximized.committed
            &&& after.maximized.uncommitted == entry.maximized.uncommitted
            &&& after.configuring.needs_frame_callback == before.needs_frame_callback
            &&& after.configuring.animate_serials == before.animate_serials
            &&& after.configuring.pending_transactions == before.pending_transactions
            &&& after.configuring.interactive_resize == before.interactive_resize
            &&& after.configuring.request_size_once is None
            &&& after.configuring.animate_next_configure <==> (before.animate_next_configure || (
            animate && pending.size != Some(size)))
            &&& after.configuring.needs_configure <==> (before.needs_configure || (mode is Maximized
                && !entry.maximized.committed) || (!(mode is Maximized)
                && entry.maximized.committed) || (mode is Fullscreen
                && entry.windowed_fullscreen.committed))
        }),
{
}

/// A size request on a mirror takes effect at once, with every axis at least one; nothing is left
/// to be told.
pub proof fn request_resizes_a_mirror<T, S>(
    entry: MappedView<T, S>,
    toplevel: ToplevelView,
    size: Size,
    mode: SizingMode,
    animate: bool,
    transaction: Option<T>,
    value: bool,
)
    requires
        entry.is_mirror,
    ensures
        ({
            let after = entry.size_requested(toplevel.pending(), size, mode, animate, transaction);
            let once = entry.size_requested_once(toplevel, size, animate);
            let windowed = entry.windowed_fullscreen_requested(value);
            &&& after.size(toplevel).w == (if size.w >= 1 {
                size.w
            } else {
                1
            })
            &&& after.size(toplevel).h == (if size.h >= 1 {
                size.h
            } else {
                1
            })
            &&& after.sizing_mode(toplevel) == mode
            &&& after.pending_sizing_mode(toplevel) == mode
            &&& after.expected_size(toplevel) == Some(after.size(toplevel))
            &&& after.configuring == entry.configuring
            &&& after.windowed_fullscreen == entry.windowed_fullscreen
            &&& after.maximized == entry.maximized
            &&& after.status == entry.status
            &&& after.rules == entry.rules
            &&& after.toggles == entry.toggles
            &&& after.id == entry.id && after.source_id == entry.source_id && after.is_mirror
            &&& once.size(toplevel) == after.size(toplevel)
            &&& once.sizing_mode(toplevel) is Normal
            &&& once.pending_sizing_mode(toplevel) is Normal
            &&& windowed.size(toplevel) == entry.size(toplevel)
            &&& windowed.sizing_mode(toplevel) is Fullscreen == value
            &&& windowed.sizing_mode(toplevel) is Normal == !value
            &&& windowed.pending_sizing_mode(toplevel) == windowed.sizing_mode(toplevel)
        }),
{
}

/// The size of a maximized or fullscreen window is none of its own: after such a request no size is
/// expected, be the configure sent or not.
pub proof fn filling_window_expects_no_size<T, S>(
    entry: MappedView<T, S>,
    toplevel: ToplevelView,
    size: Size,
    mode: SizingMode,
    animate: bool,
    transaction: Option<T>,
    serial: Serial,
)
    requires
        !entry.is_mirror,
        !(mode is Normal),
    ensures
        ({
            let after = entry.size_requested(toplevel.pending(), size, mode, animate, transaction);
            let told = after.toplevel_size_requested(toplevel, size, mode);
            &&& toplevel.current_server.size != Some(size) ==> after.expected_size(told) is None
            &&& after.configured(serial).expected_size(told.sent(serial)) is None
        }),
{
    request_makes_size_and_mode_pending(entry, toplevel, size, mode, animate, transaction);
}

/// A size that was requested in normal mode is the expected one, be the configure sent or not; an
/// axis that the request leaves open is expected as the window has it, and without a size of the
/// window's own nothing is expected then.
pub proof fn normal_window_expects_what_was_asked<T, S>(
    entry: MappedView<T, S>,
    toplevel: ToplevelView,
    size: Size,
    animate: bool,
    transaction: Option<T>,
    serial: Serial,
)
    requires
        !entry.is_mirror,
    ensures
        ({
            let mode = SizingMode::Normal;
            let after = entry.size_requested(toplevel.pending(), size, mode, animate, transaction);
            let told = after.toplevel_size_requested(toplevel, size, mode);
            let sent = after.configured(serial).expected_size(told.sent(serial));
            &&& size.w != 0 && size.h != 0 ==> sent == Some(size)
            &&& size.w == 0 || size.h == 0 ==> (sent is Some <==> entry.sizing_mode(toplevel)
                is Normal)
            &&& sent is Some ==> sent->0.w == (if size.w == 0 {
                toplevel.geometry.size.w
            } else {
                size.w
            }) && sent->0.h == (if size.h == 0 {
                toplevel.geometry.size.h
            } else {
                size.h
            })
            &&& toplevel.current_server.size != Some(size) ==> after.expected_size(told) == sent
        }),
{
    request_makes_size_and_mode_pending(
        entry,
        toplevel,
        size,
        SizingMode::Normal,
        animate,
        transaction,
    );
}

/// While no other size is on its way, the expected size is the one that the window has, if that is
/// one of its own: if it is neither maximized nor fullscreen.
pub proof fn settled_window_expects_its_size<T, S>(entry: MappedView<T, S>, toplevel: ToplevelView)
    requires
        !entry.is_mirror,
        entry.configuring.request_size_once == Some(RequestSizeOnce::UseWindowSize) || (
        toplevel.last_uncommitted is None && toplevel.pending().size
            == toplevel.current_server.size),
    ensures
        entry.sizing_mode(toplevel) is Normal ==> entry.expected_size(toplevel) == Some(
            toplevel.geometry.size,
        ),
        !(entry.sizing_mode(toplevel) is Normal) ==> entry.expected_size(toplevel) is None,
{
}

/// A pending state with another size than was told last decides the expected size, whatever is still
/// awaited: the size of a maximized window is none of its own, nor is that of a fullscreen one,
/// unless the fullscreen is a windowed one and the window is not to be maximized.
pub proof fn pending_size_decides<T, S>(
    entry: MappedView<T, S>,
    toplevel: ToplevelView,
    other: ToplevelView,
    state: ToplevelStateView,
)
    requires
        !entry.is_mirror,
        entry.configuring.request_size_once != Some(RequestSizeOnce::UseWindowSize),
        state.size != toplevel.current_server.size,
        other.current_server == toplevel.current_server,
        other.geometry == toplevel.geometry,
        other.committed == toplevel.committed,
    ensures
        ({
            let expected = entry.expected_size(toplevel.with_pending(state));
            let fullscreen = state.states.contains(ToplevelFlag::Fullscreen);
            let maximized = state.states.contains(ToplevelFlag::Maximized);
            let windowed = entry.windowed_fullscreen.pending && !entry.maximized.pending;
            &&& entry.expected_size(other.with_pending(state)) == expected
            &&& maximized ==> expected is None
            &&& fullscreen && !windowed ==> expected is None
            &&& !maximized && (!fullscreen || windowed) && state.size is Some && state.size->0.w
                != 0 && state.size->0.h != 0 ==> expected == state.size
            &&& !maximized && (!fullscreen || windowed) && state.size is None
                ==> expected == if entry.sizing_mode(toplevel) is Normal {
                Some(toplevel.geometry.size)
            } else {
                None
            }
        }),
{
}

/// A pending change that leaves the size alone does not change the expected size.
pub proof fn pending_changes_without_a_size_do_not_count<T, S>(
    entry: MappedView<T, S>,
    toplevel: ToplevelView,
    state: ToplevelStateView,
)
    requires
        state.size == toplevel.current_server.size,
    ensures
        entry.expected_size(toplevel.with_pending(state)) == entry.expected_size(
            (ToplevelView { server_pending: None, ..toplevel }),
        ),
{
}

/// A one-time size request on a real window ends a maximized state and, unless it is a windowed
/// one, a fullscreen; it drops out of the transactions with other windows and leaves the rest of
/// the entry alone.
pub proof fn request_once_changes_only_what_is_asked<T, S>(
    entry: MappedView<T, S>,
    toplevel: ToplevelView,
    size: Size,
    animate: bool,
)
    requires
        !entry.is_mirror,
    ensures
        ({
            let after = entry.size_requested_once(toplevel, size, animate);
            let before = entry.configuring;
            &&& differ_in_configuring(after, entry)
            &&& after.windowed_fullscreen == entry.windowed_fullscreen
            &&& after.maximized.committed == entry.maximized.committed
            &&& after.maximized.uncommitted == entry.maximized.uncommitted
            &&& !after.maximized.pending
            &&& after.configuring.transaction_for_next_configure is None
            &&& after.configuring.pending_transactions == before.pending_transactions
            &&& after.configuring.needs_frame_callback == before.needs_frame_callback
            &&& after.configuring.animate_serials == before.animate_serials
            &&& after.configuring.interactive_resize == before.interactive_resize
            &&& after.configuring.needs_configure <==> (before.needs_configure
                || entry.maximized.committed)
            &&& before.animate_next_configure ==> after.configuring.animate_next_configure
            &&& !animate ==> after.configuring.animate_next_configure
                == before.animate_next_configure
        }),
{
}

/// A one-time size request that no configure on its way asks for yet makes that size pending, waits
/// for its configure, and is animated if it should be and the size differs from the pending one.
pub proof fn request_once_makes_size_pending<T, S>(
    entry: MappedView<T, S>,
    toplevel: ToplevelView,
    size: Size,
    animate: bool,
)
    requires
        !entry.is_mirror,
        already_asked(toplevel, size, entry.windowed_fullscreen.pending) is None,
    ensures
        ({
            let after = entry.size_requested_once(toplevel, size, animate);
            let toplevel_after = entry.toplevel_size_requested_once(toplevel, size);
            let told = toplevel_after.pending();
            &&& after.configuring.request_size_once == Some(RequestSizeOnce::WaitingForConfigure)
            &&& after.configuring.animate_next_configure <==> (
            entry.configuring.animate_next_configure || (animate && toplevel.pending().size != Some(
                size,
            )))
            &&& told.size == Some(size)
            &&& !told.states.contains(ToplevelFlag::Maximized)
            &&& told.states.contains(ToplevelFlag::Fullscreen) <==> (
            entry.windowed_fullscreen.pending && toplevel.pending().states.contains(
                ToplevelFlag::Fullscreen,
            ))
            &&& differ_in_size_and_mode(told, toplevel.pending())
            &&& differ_in_pending(toplevel_after, toplevel)
        }),
{
    let states = toplevel.pending().states;
    let windowed = entry.windowed_fullscreen.pending;
    let first = if windowed {
        states
    } else {
        without_flag(states, ToplevelFlag::Fullscreen)
    };
    let told = entry.toplevel_size_requested_once(toplevel, size).pending();
    flag_follows_setting(states, ToplevelFlag::Fullscreen, false, ToplevelFlag::Maximized);
    flag_follows_setting(first, ToplevelFlag::Maximized, false, ToplevelFlag::Fullscreen);
    assert forall|flag: ToplevelFlag|
        flag != ToplevelFlag::Maximized && flag != ToplevelFlag::Fullscreen implies (
    #[trigger] told.states.contains(flag) <==> states.contains(flag)) by {
        flag_follows_setting(states, ToplevelFlag::Fullscreen, false, flag);
        flag_follows_setting(first, ToplevelFlag::Maximized, false, flag);
    }
}

/// A configure that was just sent for a size in normal mode already asks for that size and for no
/// other: requesting the size once more sends nothing new and waits for the commit that answers
/// that configure, or has it already.
pub proof fn request_once_uses_the_configure_on_its_way<T, S>(
    entry: MappedView<T, S>,
    toplevel: ToplevelView,
    size: Size,
    other: Size,
    mode: SizingMode,
    animate: bool,
    transaction: Option<T>,
    serial: Serial,
)
    requires
        !entry.is_mirror,
    ensures
        ({
            let after = entry.size_requested(
                toplevel.pending(),
                size,
                mode,
                animate,
                transaction,
            ).configured(serial);
            let told = after.toplevel_size_requested(toplevel, size, mode).sent(serial);
            let once = after.size_requested_once(told, size, animate);
            let windowed = after.windowed_fullscreen.pending;
            &&& mode is Normal ==> {
                &&& already_asked(told, size, windowed) == Some(serial)
                &&& already_asked(told, size, !windowed) is None
                &&& after.toplevel_size_requested_once(told, size) == told
                &&& once.configuring.animate_next_configure
                    == after.configuring.animate_next_configure
                &&& (told.committed_serial is Some && !told.committed_serial->0.no_older_than(
                    serial,
                )) ==> once.configuring.request_size_once == Some(
                    RequestSizeOnce::WaitingForCommit(serial),
                )
                &&& (told.committed_serial is None || told.committed_serial->0.no_older_than(
                    serial,
                )) ==> once.configuring.request_size_once == Some(RequestSizeOnce::UseWindowSize)
            }
            &&& other != size ==> already_asked(told, other, windowed) is None
            &&& mode is Fullscreen ==> already_asked(told, size, false) is None
            &&& mode is Maximized && !windowed ==> already_asked(told, size, windowed) is None
        }),
{
    request_makes_size_and_mode_pending(entry, toplevel, size, mode, animate, transaction);
}

/// Without a configure on its way, no size is already asked for.
pub proof fn nothing_is_asked_without_a_configure(
    toplevel: ToplevelView,
    size: Size,
    windowed_fullscreen: bool,
)
    requires
        toplevel.last_uncommitted is None,
    ensures
        already_asked(toplevel, size, windowed_fullscreen) is None,
{
}

/// The committed mode is read off the committed states, and the pending one off the pending states;
/// in windowed fullscreen, which the states show as fullscreen, a window is maximized or normal, and
/// never fullscreen.
pub proof fn windowed_fullscreen_is_no_fullscreen<T, S>(
    entry: MappedView<T, S>,
    toplevel: ToplevelView,
)
    requires
        !entry.is_mirror,
    ensures
        entry.windowed_fullscreen.committed ==> {
            &&& !(entry.sizing_mode(toplevel) is Fullscreen)
            &&& entry.sizing_mode(toplevel) is Maximized <==> entry.maximized.committed
        },
        !entry.windowed_fullscreen.committed ==> {
            &&& entry.sizing_mode(toplevel) is Fullscreen <==> toplevel.committed is Some
                && toplevel.committed->0.states.contains(ToplevelFlag::Fullscreen)
            &&& entry.sizing_mode(toplevel) is Maximized <==> toplevel.committed is Some
                && !toplevel.committed->0.states.contains(ToplevelFlag::Fullscreen)
                && toplevel.committed->0.states.contains(ToplevelFlag::Maximized)
        },
        entry.windowed_fullscreen.pending ==> {
            &&& !(entry.pending_sizing_mode(toplevel) is Fullscreen)
            &&& entry.pending_sizing_mode(toplevel) is Maximized <==> entry.maximized.pending
        },
        !entry.windowed_fullscreen.pending ==> {
            &&& entry.pending_sizing_mode(toplevel) is Fullscreen
                <==> toplevel.pending().states.contains(ToplevelFlag::Fullscreen)
            &&& entry.pending_sizing_mode(toplevel) is Maximized
                <==> !toplevel.pending().states.contains(ToplevelFlag::Fullscreen)
                && toplevel.pending().states.contains(ToplevelFlag::Maximized)
        },
{
    mode_reads_the_states(toplevel.pending().states);
    if toplevel.committed is Some {
        mode_reads_the_states(toplevel.committed->0.states);
    }
}

/// The size of a real window is the one that its client declared, and that of a mirror the one of
/// its viewport.
pub proof fn size_is_what_is_shown<T, S>(entry: MappedView<T, S>, toplevel: ToplevelView)
    ensures
        !entry.is_mirror ==> entry.size(toplevel) == toplevel.geometry.size,
        entry.is_mirror ==> entry.size(toplevel) == entry.mirror.size,
{
}

/// Requesting windowed fullscreen of a real window, or giving it up, changes what is pending and
/// asks for a configure, if it was not requested that way already; the client is told fullscreen or
/// not, and maximized again if that is still pending. Everything else stays.
pub proof fn windowed_fullscreen_changes_only_the_mode<T, S>(
    entry: MappedView<T, S>,
    toplevel: ToplevelView,
    value: bool,
)
    requires
        !entry.is_mirror,
    ensures
        ({
            let after = entry.windowed_fullscreen_requested(value);
            let toplevel_after = entry.toplevel_windowed_fullscreen_requested(toplevel, value);
            let states = toplevel.pending().states;
            let told = toplevel_after.pending();
            let before = entry.configuring;
            &&& after.windowed_fullscreen.pending == value
            &&& after.windowed_fullscreen.committed == entry.windowed_fullscreen.committed
            &&& after.windowed_fullscreen.uncommitted == entry.windowed_fullscreen.uncommitted
            &&& after.maximized == entry.maximized
            &&& differ_in_configuring(after, entry)
            &&& differ_in_pending(toplevel_after, toplevel)
            &&& differ_in_size_and_mode(told, toplevel.pending())
            &&& told.size == toplevel.pending().size
            &&& entry.windowed_fullscreen.pending == value ==> after == entry && toplevel_after
                == toplevel
            &&& entry.windowed_fullscreen.pending != value ==> {
                &&& after.configuring.needs_configure
                &&& told.states.contains(ToplevelFlag::Fullscreen) == value
                &&& told.states.contains(ToplevelFlag::Maximized) <==> !value && (
                entry.maximized.pending || states.contains(ToplevelFlag::Maximized))
            }
            &&& after.configuring.needs_frame_callback == before.needs_frame_callback
            &&& after.configuring.animate_next_configure == before.animate_next_configure
            &&& after.configuring.animate_serials == before.animate_serials
            &&& after.configuring.request_size_once == before.request_size_once
            &&& after.configuring.transaction_for_next_configure
                == before.transaction_for_next_configure
            &&& after.configuring.pending_transactions == before.pending_transactions
            &&& after.configuring.interactive_resize == before.interactive_resize
        }),
{
    let states = toplevel.pending().states;
    let told = entry.toplevel_windowed_fullscreen_requested(toplevel, value).pending();
    let first = with_flag_if(states, ToplevelFlag::Fullscreen, value);
    flag_follows_setting(states, ToplevelFlag::Fullscreen, value, ToplevelFlag::Maximized);
    flag_follows_setting(first, ToplevelFlag::Maximized, !value, ToplevelFlag::Fullscreen);
    assert forall|flag: ToplevelFlag|
        flag != ToplevelFlag::Maximized && flag != ToplevelFlag::Fullscreen implies (
    #[trigger] told.states.contains(flag) <==> states.contains(flag)) by {
        flag_follows_setting(states, ToplevelFlag::Fullscreen, value, flag);
        flag_follows_setting(first, ToplevelFlag::Maximized, !value, flag);
    }
}

} // verus!
