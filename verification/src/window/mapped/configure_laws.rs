//! What holds of the configures that are due and sent, and of the commits that answer them.

use crate::geometry::Size;
use crate::serial::Serial;
use crate::window::mapped::configure::ConfigureIntent;
use crate::window::mapped::request_laws::{differ_in_configuring, differ_in_pending};
use crate::window::mapped::{pending_with, MappedView};
use crate::window::resize::{InteractiveResize, InteractiveResizeData, RequestSizeOnce};
use crate::window::toplevel::{
    flag_follows_setting, ToplevelFlag, ToplevelStateView, ToplevelView,
};
use vstd::prelude::*;

verus! {

/// Whether two states differ at most in their size.
pub open spec fn differ_in_size(a: ToplevelStateView, b: ToplevelStateView) -> bool {
    &&& a.bounds == b.bounds
    &&& a.states == b.states
    &&& a.fullscreen_output == b.fullscreen_output
    &&& a.decoration_mode == b.decoration_mode
    &&& a.capabilities == b.capabilities
}

/// A configure is due if something asked for one, or if what is pending differs from what was told
/// last. It should be sent right away if something asked for it, if more than the size differs, or
/// if the client has no committed state; else only the size differs, and it can be sent exactly if
/// the client has committed to the size that was told last.
pub proof fn size_changes_wait_for_the_client<T, S>(
    entry: MappedView<T, S>,
    toplevel: ToplevelView,
)
    requires
        !entry.is_mirror,
    ensures
        ({
            let intent = entry.configure_intent(toplevel);
            let pending = toplevel.pending();
            let told = toplevel.current_server;
            &&& intent is NotNeeded <==> !entry.configuring.needs_configure && pending == told
            &&& intent is ShouldSend <==> entry.configuring.needs_configure || !differ_in_size(
                pending,
                told,
            ) || (pending.size != told.size && toplevel.committed is None)
            &&& intent is CanSend ==> toplevel.committed is Some && toplevel.committed->0.size
                == told.size
            &&& intent is Throttled ==> toplevel.committed is Some && toplevel.committed->0.size
                != told.size
        }),
{
    let pending = toplevel.pending();
    let told = toplevel.current_server;
    assert(differ_in_size(pending, told) <==> (ToplevelStateView { size: pending.size, ..told })
        == pending);
}

/// A configure is sent if something asked for one, or if what is pending differs from what was told
/// last; for a window that keeps the size that it has, a difference of the size does not count.
pub proof fn configures_tell_changes<T, S>(entry: MappedView<T, S>, toplevel: ToplevelView)
    requires
        !entry.is_mirror,
    ensures
        ({
            let sends = entry.sends_configure(toplevel);
            let pending = toplevel.pending();
            let told = toplevel.current_server;
            let keeps = entry.configuring.request_size_once == Some(RequestSizeOnce::UseWindowSize);
            &&& entry.configuring.needs_configure ==> sends
            &&& !entry.configuring.needs_configure && !keeps ==> (sends <==> pending != told)
            &&& !entry.configuring.needs_configure && keeps ==> (sends <==> !differ_in_size(
                pending,
                told,
            ))
        }),
{
    let pending = toplevel.pending();
    let told = toplevel.current_server;
    assert(differ_in_size(pending, told) <==> (ToplevelStateView { size: told.size, ..pending })
        == told);
}

/// A window that keeps the size that it has is told that size, whatever size was pending, and where
/// no configure is sent a pending change of the size is taken back; every other window is told what
/// is pending. Nothing but the pending size changes on the way.
pub proof fn configures_tell_a_window_its_own_size<T, S>(
    entry: MappedView<T, S>,
    toplevel: ToplevelView,
)
    requires
        !entry.is_mirror,
    ensures
        ({
            let ready = entry.toplevel_before_configure(toplevel);
            let keeps = entry.configuring.request_size_once == Some(RequestSizeOnce::UseWindowSize);
            &&& !keeps ==> ready == toplevel
            &&& keeps && entry.sends_configure(toplevel) ==> ready.pending().size == Some(
                toplevel.geometry.size,
            )
            &&& keeps && !entry.sends_configure(toplevel) ==> ready.pending()
                == toplevel.current_server
            &&& differ_in_size(ready.pending(), toplevel.pending())
            &&& differ_in_pending(ready, toplevel)
        }),
{
}

/// A sent configure notes what is awaited and changes nothing else about the entry: what is in
/// effect and what is requested stays, and a request that the client was not told before is told
/// last.
pub proof fn sending_keeps_what_is_in_effect<T, S>(entry: MappedView<T, S>, serial: Serial)
    ensures
        ({
            let sent = entry.configured(serial);
            &&& differ_in_configuring(sent, entry)
            &&& sent.configuring == entry.configuring.sent(serial)
            &&& sent.windowed_fullscreen.committed == entry.windowed_fullscreen.committed
            &&& sent.windowed_fullscreen.pending == entry.windowed_fullscreen.pending
            &&& sent.windowed_fullscreen.last_sent() == entry.windowed_fullscreen.pending
            &&& sent.maximized.committed == entry.maximized.committed
            &&& sent.maximized.pending == entry.maximized.pending
            &&& sent.maximized.last_sent() == entry.maximized.pending
        }),
{
}

/// A commit changes what is awaited and what is in effect, and nothing else about a real window.
pub proof fn commits_change_what_is_in_effect<T, S>(entry: MappedView<T, S>, commit: Serial)
    requires
        !entry.is_mirror,
    ensures
        ({
            let after = entry.after_commit(commit);
            &&& differ_in_configuring(after, entry)
            &&& after.configuring == entry.configuring.after_commit(commit)
            &&& after.windowed_fullscreen == entry.windowed_fullscreen.after_commit(commit)
            &&& after.maximized == entry.maximized.after_commit(commit)
            &&& after.windowed_fullscreen.pending == entry.windowed_fullscreen.pending
            &&& after.maximized.pending == entry.maximized.pending
        }),
{
}

/// An interactive resize that is started or moved on does what was asked last, and the client is
/// told that it is being resized; one that is stopped awaits its last configure, except in a mirror,
/// where it is over at once.
pub proof fn resizes_do_what_was_asked<T, S>(
    entry: MappedView<T, S>,
    toplevel: ToplevelView,
    data: InteractiveResizeData,
    resizing: bool,
)
    ensures
        ({
            let started = entry.resizing(Some(data));
            let ended = started.resizing(None);
            let told = entry.toplevel_resizing(toplevel, resizing);
            &&& started.configuring.interactive_resize == Some(InteractiveResize::Ongoing(data))
            &&& entry.is_mirror ==> ended.configuring.interactive_resize is None
            &&& !entry.is_mirror ==> ended.configuring.interactive_resize == Some(
                InteractiveResize::WaitingForLastConfigure(data),
            )
            &&& differ_in_configuring(started, entry)
            &&& differ_in_configuring(ended, entry)
            &&& started.windowed_fullscreen == entry.windowed_fullscreen
            &&& started.maximized == entry.maximized
            &&& started.configuring.pending_transactions == entry.configuring.pending_transactions
            &&& started.configuring.request_size_once == entry.configuring.request_size_once
            &&& started.configuring.needs_configure == entry.configuring.needs_configure
            &&& !entry.is_mirror ==> (told.pending().states.contains(ToplevelFlag::Resizing)
                == resizing)
            &&& told.pending().size == toplevel.pending().size
            &&& differ_in_pending(told, toplevel)
        }),
{
    flag_follows_setting(
        toplevel.pending().states,
        ToplevelFlag::Resizing,
        resizing,
        ToplevelFlag::Resizing,
    );
}

/// A resize tells what it does until it is over: it does not stop telling when it is stopped, and
/// does when it is cancelled, or when its last configure is answered or turns out not to be needed.
pub proof fn resize_tells_what_it_does_until_it_is_over<T, S>(
    entry: MappedView<T, S>,
    data: InteractiveResizeData,
    serial: Serial,
    commit: Serial,
)
    requires
        !entry.is_mirror,
        commit.no_older_than(serial),
    ensures
        ({
            let started = entry.resizing(Some(data));
            let stopped = started.resizing(None);
            &&& started.resize_data() == Some(data)
            &&& started.configured(serial).resize_data() == Some(data)
            &&& started.after_commit(commit).resize_data() == Some(data)
            &&& stopped.resize_data() == Some(data)
            &&& stopped.configured(serial).resize_data() == Some(data)
            &&& stopped.configured(serial).after_commit(commit).resize_data() is None
            &&& stopped.configuring.not_sent().interactive_resize is None
            &&& entry.without_resize().resize_data() is None
            &&& differ_in_configuring(entry.without_resize(), entry)
            &&& entry.without_resize().configuring.pending_transactions
                == entry.configuring.pending_transactions
        }),
{
}

/// Where a configure is to be sent, deciding that changes nothing yet; where not, what the configure
/// would have taken along is dropped. A mirror is never touched.
pub proof fn deciding_drops_what_is_not_sent<T, S>(entry: MappedView<T, S>, toplevel: ToplevelView)
    ensures
        entry.sends_configure(toplevel) || entry.is_mirror ==> entry.after_deciding(toplevel)
            == entry,
        !entry.sends_configure(toplevel) && !entry.is_mirror ==> {
            let after = entry.after_deciding(toplevel);
            &&& differ_in_configuring(after, entry)
            &&& after.configuring.transaction_for_next_configure is None
            &&& !after.configuring.animate_next_configure
            &&& after.configuring.pending_transactions == entry.configuring.pending_transactions
            &&& after.configuring.animate_serials == entry.configuring.animate_serials
            &&& after.configuring.request_size_once == entry.configuring.request_size_once
            &&& after.windowed_fullscreen == entry.windowed_fullscreen
            &&& after.maximized == entry.maximized
        },
{
}

/// Setting or unsetting a state changes that state alone.
pub proof fn pending_states_change_one_by_one(
    state: ToplevelStateView,
    flag: ToplevelFlag,
    is_set: bool,
    other: ToplevelFlag,
)
    ensures
        pending_with(state, flag, is_set).states.contains(flag) == is_set,
        other != flag ==> (pending_with(state, flag, is_set).states.contains(other)
            <==> state.states.contains(other)),
        pending_with(state, flag, is_set).size == state.size,
        pending_with(state, flag, is_set).bounds == state.bounds,
        pending_with(state, flag, is_set).fullscreen_output == state.fullscreen_output,
        pending_with(state, flag, is_set).decoration_mode == state.decoration_mode,
        pending_with(state, flag, is_set).capabilities == state.capabilities,
{
    flag_follows_setting(state.states, flag, is_set, other);
}

/// Bounds are suggested to real windows only, with nothing else changed.
pub proof fn bounds_are_suggested_to_real_windows<T, S>(
    entry: MappedView<T, S>,
    toplevel: ToplevelView,
    bounds: Size,
)
    ensures
        entry.is_mirror ==> entry.toplevel_bounded(toplevel, bounds) == toplevel,
        !entry.is_mirror ==> {
            let told = entry.toplevel_bounded(toplevel, bounds);
            &&& told.pending().bounds == Some(bounds)
            &&& told.pending().size == toplevel.pending().size
            &&& told.pending().states == toplevel.pending().states
            &&& told.pending().fullscreen_output == toplevel.pending().fullscreen_output
            &&& told.pending().decoration_mode == toplevel.pending().decoration_mode
            &&& told.pending().capabilities == toplevel.pending().capabilities
            &&& differ_in_pending(told, toplevel)
        },
{
}

/// The requested size is the one that a size request made pending; that of a mirror is the one that
/// it has.
pub proof fn requested_size_is_the_pending_one<T, S>(
    entry: MappedView<T, S>,
    toplevel: ToplevelView,
    state: ToplevelStateView,
)
    ensures
        !entry.is_mirror ==> entry.requested_size(toplevel.with_pending(state)) == state.size,
        !entry.is_mirror && toplevel.server_pending is None ==> entry.requested_size(toplevel)
            == toplevel.current_server.size,
        entry.is_mirror ==> entry.requested_size(toplevel) == Some(entry.size(toplevel)),
{
}

/// No configure is ever due for a mirror, whatever is pending for its source.
pub proof fn mirrors_are_never_configured<T, S>(mirror: MappedView<T, S>, toplevel: ToplevelView)
    requires
        mirror.is_mirror,
    ensures
        mirror.configure_intent(toplevel) == ConfigureIntent::NotNeeded,
        !mirror.sends_configure(toplevel),
        mirror.toplevel_before_configure(toplevel) == toplevel,
{
}

} // verus!
