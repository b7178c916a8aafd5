//! What an entry asks of its client, and when it tells it.

use crate::geometry::Size;
use crate::serial::Serial;
use crate::window::configuring::ConfiguringView;
use crate::window::mapped::{pending_with, Mapped, MappedView, MirrorState};
use crate::window::negotiated::NegotiatedView;
use crate::window::resize::{
    stop, stopped, InteractiveResize, InteractiveResizeData, RequestSizeOnce,
};
use crate::window::toplevel::{
    with_flag_if, without_flag, SizingMode, Toplevel, ToplevelFlag, ToplevelState,
    ToplevelStateView, ToplevelView,
};
use vstd::prelude::*;

verus! {

/// Whether a configure is due.
#[derive(Debug, Clone, Copy, PartialEq, Eq, Structural)]
pub enum ConfigureIntent {
    /// There is nothing to tell.
    NotNeeded,
    /// Only the size changed, and the client has not answered the previous size yet.
    Throttled,
    /// Only the size changed, and the client has answered the previous size.
    CanSend,
    /// Something changed that should be told right away.
    ShouldSend,
}

/// The pending state with another size and sizing mode.
pub open spec fn sized(
    state: ToplevelStateView,
    size: Size,
    fullscreen: bool,
    maximized: bool,
) -> ToplevelStateView {
    ToplevelStateView {
        size: Some(size),
        states: with_flag_if(
            with_flag_if(state.states, ToplevelFlag::Fullscreen, fullscreen),
            ToplevelFlag::Maximized,
            maximized,
        ),
        ..state
    }
}

/// The pending state with a size to be requested once, for a window that becomes floating.
pub open spec fn sized_once(
    state: ToplevelStateView,
    size: Size,
    windowed_fullscreen: bool,
) -> ToplevelStateView {
    ToplevelStateView {
        size: Some(size),
        states: without_flag(
            if windowed_fullscreen {
                state.states
            } else {
                without_flag(state.states, ToplevelFlag::Fullscreen)
            },
            ToplevelFlag::Maximized,
        ),
        ..state
    }
}

/// The size that a configure asks for; a configure without one leaves both axes open.
pub open spec fn asked_size(state: ToplevelStateView) -> Size {
    match state.size {
        Some(size) => size,
        None => Size { w: 0, h: 0 },
    }
}

/// The serial of the configure that the client has not committed to yet, if it already asks for
/// this size, without maximizing, and in windowed fullscreen or not.
pub open spec fn already_asked(
    toplevel: ToplevelView,
    size: Size,
    windowed_fullscreen: bool,
) -> Option<Serial> {
    match toplevel.last_uncommitted {
        Some(configure) => {
            let states = configure.state.states;
            if asked_size(configure.state) == size && states.contains(ToplevelFlag::Fullscreen)
                == windowed_fullscreen && !states.contains(ToplevelFlag::Maximized) {
                Some(configure.serial)
            } else {
                None
            }
        },
        None => None,
    }
}

/// Where a one-time size request stands whose configure was already sent.
pub open spec fn already_asked_request(
    committed_serial: Option<Serial>,
    asked: Serial,
) -> RequestSizeOnce {
    if committed_serial is Some && !committed_serial->0.no_older_than(asked) {
        RequestSizeOnce::WaitingForCommit(asked)
    } else {
        RequestSizeOnce::UseWindowSize
    }
}

/// The state that a change of size will bring: the pending one if its size differs from what was
/// told last, else the one that was sent and not committed to.
pub open spec fn upcoming_state(toplevel: ToplevelView) -> Option<ToplevelStateView> {
    if toplevel.server_pending is Some && toplevel.server_pending->0.size
        != toplevel.current_server.size {
        toplevel.server_pending
    } else {
        match toplevel.last_uncommitted {
            Some(configure) => Some(configure.state),
            None => None,
        }
    }
}

/// A size whose open axes are taken from another size; without that, it has no value.
pub open spec fn completed(size: Size, current: Option<Size>) -> Option<Size> {
    if size.w != 0 && size.h != 0 {
        Some(size)
    } else {
        match current {
            Some(current) => Some(
                Size {
                    w: if size.w == 0 {
                        current.w
                    } else {
                        size.w
                    },
                    h: if size.h == 0 {
                        current.h
                    } else {
                        size.h
                    },
                },
            ),
            None => None,
        }
    }
}

impl<T, S> MappedView<T, S> {
    /// The entry after a size was requested.
    pub open spec fn size_requested(
        self,
        pending: ToplevelStateView,
        size: Size,
        mode: SizingMode,
        animate: bool,
        transaction: Option<T>,
    ) -> MappedView<T, S> {
        if self.is_mirror {
            MappedView {
                mirror: MirrorState {
                    size: size.at_least_one(),
                    sizing_mode: mode,
                    pending_sizing_mode: mode,
                    ..self.mirror
                },
                ..self
            }
        } else {
            MappedView {
                windowed_fullscreen: NegotiatedView {
                    pending: self.windowed_fullscreen.pending && !(mode is Fullscreen),
                    ..self.windowed_fullscreen
                },
                maximized: NegotiatedView { pending: mode is Maximized, ..self.maximized },
                configuring: self.configuring.size_requested(
                    (mode is Fullscreen && self.windowed_fullscreen.committed)
                        || self.maximized.committed != (mode is Maximized),
                    animate && pending.size != Some(size),
                    transaction,
                ),
                ..self
            }
        }
    }

    /// The toplevel after a size was requested.
    pub open spec fn toplevel_size_requested(
        self,
        toplevel: ToplevelView,
        size: Size,
        mode: SizingMode,
    ) -> ToplevelView {
        let fullscreen = mode is Fullscreen || self.windowed_fullscreen.pending;
        if self.is_mirror {
            toplevel
        } else {
            toplevel.with_pending(
                sized(toplevel.pending(), size, fullscreen, !fullscreen && mode is Maximized),
            )
        }
    }

    /// The entry after a size was requested once.
    pub open spec fn size_requested_once(
        self,
        toplevel: ToplevelView,
        size: Size,
        animate: bool,
    ) -> MappedView<T, S> {
        let asked = already_asked(toplevel, size, self.windowed_fullscreen.pending);
        if self.is_mirror {
            self.size_requested(toplevel.pending(), size, SizingMode::Normal, animate, None)
        } else {
            MappedView {
                maximized: NegotiatedView { pending: false, ..self.maximized },
                configuring: self.configuring.size_requested_once(
                    self.maximized.committed,
                    animate && asked is None && toplevel.pending().size != Some(size),
                    match asked {
                        Some(serial) => already_asked_request(toplevel.committed_serial, serial),
                        None => RequestSizeOnce::WaitingForConfigure,
                    },
                ),
                ..self
            }
        }
    }

    /// The toplevel after a size was requested once.
    pub open spec fn toplevel_size_requested_once(
        self,
        toplevel: ToplevelView,
        size: Size,
    ) -> ToplevelView {
        if self.is_mirror || already_asked(
            toplevel,
            size,
            self.windowed_fullscreen.pending,
        ) is Some {
            toplevel
        } else {
            toplevel.with_pending(
                sized_once(toplevel.pending(), size, self.windowed_fullscreen.pending),
            )
        }
    }

    /// The toplevel after bounds were suggested.
    pub open spec fn toplevel_bounded(self, toplevel: ToplevelView, bounds: Size) -> ToplevelView {
        if self.is_mirror {
            toplevel
        } else {
            toplevel.with_pending(
                ToplevelStateView { bounds: Some(bounds), ..toplevel.pending() },
            )
        }
    }

    /// The size that is requested.
    pub open spec fn requested_size(self, toplevel: ToplevelView) -> Option<Size> {
        if self.is_mirror {
            Some(self.mirror.size)
        } else {
            toplevel.pending().size
        }
    }

    /// The size of the window, if it is one of its own.
    pub open spec fn own_size(self, toplevel: ToplevelView) -> Option<Size> {
        if self.sizing_mode(toplevel) is Normal {
            Some(toplevel.geometry.size)
        } else {
            None
        }
    }

    /// Whether a size belongs to a maximized or fullscreen window.
    ///
    /// A pending windowed fullscreen is not a real one, unless the window is also pending to be
    /// maximized.
    pub open spec fn is_filling(self, state: ToplevelStateView) -> bool {
        state.states.contains(ToplevelFlag::Maximized) || (state.states.contains(
            ToplevelFlag::Fullscreen,
        ) && (!self.windowed_fullscreen.pending || self.maximized.pending))
    }

    /// The size that the window will have, as far as it is known and one of its own.
    pub open spec fn expected_size(self, toplevel: ToplevelView) -> Option<Size> {
        if self.is_mirror {
            Some(self.mirror.size)
        } else if self.configuring.request_size_once == Some(RequestSizeOnce::UseWindowSize) {
            self.own_size(toplevel)
        } else {
            match upcoming_state(toplevel) {
                Some(state) => if self.is_filling(state) {
                    None
                } else {
                    completed(asked_size(state), self.own_size(toplevel))
                },
                None => self.own_size(toplevel),
            }
        }
    }

    /// Whether a configure is due.
    pub open spec fn configure_intent(self, toplevel: ToplevelView) -> ConfigureIntent {
        if self.is_mirror {
            ConfigureIntent::NotNeeded
        } else if self.configuring.needs_configure {
            ConfigureIntent::ShouldSend
        } else if !toplevel.has_changes() {
            ConfigureIntent::NotNeeded
        } else if (ToplevelStateView {
            size: toplevel.server_pending->0.size,
            ..toplevel.current_server
        }) != toplevel.server_pending->0 {
            ConfigureIntent::ShouldSend
        } else {
            match toplevel.committed {
                None => ConfigureIntent::ShouldSend,
                Some(committed) => if committed.size == toplevel.current_server.size {
                    ConfigureIntent::CanSend
                } else {
                    ConfigureIntent::Throttled
                },
            }
        }
    }

    /// Whether the window is configured with the size that it has.
    pub open spec fn uses_window_size(self) -> bool {
        self.configuring.request_size_once == Some(RequestSizeOnce::UseWindowSize)
    }

    /// The toplevel with a pending change of size taken back, if the window is configured with
    /// the size that it has and needs no configure.
    pub open spec fn without_size_change(self, toplevel: ToplevelView) -> ToplevelView {
        if !self.configuring.needs_configure && self.uses_window_size()
            && toplevel.server_pending is Some {
            toplevel.with_pending(
                ToplevelStateView {
                    size: toplevel.current_server.size,
                    ..toplevel.server_pending->0
                },
            )
        } else {
            toplevel
        }
    }

    /// Whether a configure is to be sent now.
    pub open spec fn sends_configure(self, toplevel: ToplevelView) -> bool {
        !self.is_mirror && (self.configuring.needs_configure || self.without_size_change(
            toplevel,
        ).has_changes())
    }

    /// The toplevel as the configure is about to be sent, or was found not to be needed.
    pub open spec fn toplevel_before_configure(self, toplevel: ToplevelView) -> ToplevelView {
        let prepared = self.without_size_change(toplevel);
        if self.is_mirror {
            toplevel
        } else if self.sends_configure(toplevel) && self.uses_window_size() {
            prepared.with_pending(
                ToplevelStateView { size: Some(toplevel.geometry.size), ..prepared.pending() },
            )
        } else {
            prepared
        }
    }

    /// The entry after a configure was sent.
    pub open spec fn configured(self, serial: Serial) -> MappedView<T, S> {
        MappedView {
            configuring: self.configuring.sent(serial),
            windowed_fullscreen: self.windowed_fullscreen.sent(serial),
            maximized: self.maximized.sent(serial),
            ..self
        }
    }

    /// The entry after a configure was found to be needed or not.
    pub open spec fn after_deciding(self, toplevel: ToplevelView) -> MappedView<T, S> {
        if self.sends_configure(toplevel) || self.is_mirror {
            self
        } else {
            MappedView { configuring: self.configuring.not_sent(), ..self }
        }
    }

    /// The entry after an interactive resize was cancelled.
    pub open spec fn without_resize(self) -> MappedView<T, S> {
        MappedView {
            configuring: ConfiguringView { interactive_resize: None, ..self.configuring },
            ..self
        }
    }

    /// What the interactive resize does, until it is over.
    pub open spec fn resize_data(self) -> Option<InteractiveResizeData> {
        match self.configuring.interactive_resize {
            Some(resize) => Some(resize.resize_data()),
            None => None,
        }
    }

    /// The entry after an interactive resize was started, moved on or stopped.
    pub open spec fn resizing(self, data: Option<InteractiveResizeData>) -> MappedView<T, S> {
        MappedView {
            configuring: ConfiguringView {
                interactive_resize: match data {
                    Some(data) => Some(InteractiveResize::Ongoing(data)),
                    None => if self.is_mirror {
                        None
                    } else {
                        stopped(self.configuring.interactive_resize)
                    },
                },
                ..self.configuring
            },
            ..self
        }
    }

    /// The toplevel after an interactive resize was started, moved on or stopped.
    pub open spec fn toplevel_resizing(
        self,
        toplevel: ToplevelView,
        resizing: bool,
    ) -> ToplevelView {
        if self.is_mirror {
            toplevel
        } else {
            toplevel.with_pending(
                pending_with(toplevel.pending(), ToplevelFlag::Resizing, resizing),
            )
        }
    }

    /// The entry after windowed fullscreen was requested or given up.
    pub open spec fn windowed_fullscreen_requested(self, value: bool) -> MappedView<T, S> {
        let mode = if value {
            SizingMode::Fullscreen
        } else {
            SizingMode::Normal
        };
        if self.is_mirror {
            MappedView {
                mirror: MirrorState { sizing_mode: mode, pending_sizing_mode: mode, ..self.mirror },
                ..self
            }
        } else if self.windowed_fullscreen.pending == value {
            self
        } else {
            MappedView {
                windowed_fullscreen: NegotiatedView { pending: value, ..self.windowed_fullscreen },
                configuring: ConfiguringView { needs_configure: true, ..self.configuring },
                ..self
            }
        }
    }

    /// The toplevel after windowed fullscreen was requested or given up: the fullscreen state
    /// follows, and a window that is still pending to be maximized gets that state back.
    pub open spec fn toplevel_windowed_fullscreen_requested(
        self,
        toplevel: ToplevelView,
        value: bool,
    ) -> ToplevelView {
        let pending = toplevel.pending();
        if self.is_mirror || self.windowed_fullscreen.pending == value {
            toplevel
        } else if value {
            toplevel.with_pending(
                pending_with(
                    pending_with(pending, ToplevelFlag::Fullscreen, true),
                    ToplevelFlag::Maximized,
                    false,
                ),
            )
        } else if self.maximized.pending {
            toplevel.with_pending(
                pending_with(
                    pending_with(pending, ToplevelFlag::Fullscreen, false),
                    ToplevelFlag::Maximized,
                    true,
                ),
            )
        } else {
            toplevel.with_pending(pending_with(pending, ToplevelFlag::Fullscreen, false))
        }
    }
}

impl<T, S> Mapped<T, S> {
    /// Requests a size and a sizing mode.
    ///
    /// Going into real fullscreen resets windowed fullscreen. The transaction is kept regardless
    /// of whether the size changed: the size may change among windows 1 and 2 of a column and
    /// right after among windows 2 and 3, and then all of them have to use the last transaction.
    pub fn request_size(
        &mut self,
        toplevel: &mut Toplevel,
        size: Size,
        mode: SizingMode,
        animate: bool,
        transaction: Option<T>,
    )
        ensures
            final(self)@ == old(self)@.size_requested(
                old(toplevel)@.pending(),
                size,
                mode,
                animate,
                transaction,
            ),
            final(toplevel)@ == final(self)@.toplevel_size_requested(old(toplevel)@, size, mode),
            old(self)@.wf() ==> final(self)@.wf(),
    {
        if self.is_mirror {
            self.mirror = MirrorState {
                size: size.raised_to_one(),
                sizing_mode: mode,
                pending_sizing_mode: mode,
                ..self.mirror
            };
            return;
        }
        // A commit has to come to end the windowed fullscreen, or to change the maximized state.
        let needs_configure = (mode.is_fullscreen() && self.windowed_fullscreen.committed)
            || self.maximized.committed != mode.is_maximized();
        let windowed_fullscreen = self.windowed_fullscreen.pending && !mode.is_fullscreen();
        let fullscreen = mode.is_fullscreen() || windowed_fullscreen;
        let changed = toplevel.request_size(
            size,
            fullscreen,
            !fullscreen && mode.is_maximized(),
        );

        self.windowed_fullscreen.request(windowed_fullscreen);
        self.maximized.request(mode.is_maximized());
        self.configuring.request_size(needs_configure, animate && changed, transaction);
    }
}

impl<T, S> Mapped<T, S> {
    /// Requests a size once, after which the window may choose its own.
    ///
    /// Where the last configure already asks for this size, none is needed. That holds only if it
    /// does not unfullscreen the window: a client restores its previous size by itself upon an
    /// unfullscreening configure without a size, whereas here the window may be meant to keep its
    /// fullscreen size.
    pub fn request_size_once(&mut self, toplevel: &mut Toplevel, size: Size, animate: bool)
        ensures
            final(self)@ == old(self)@.size_requested_once(old(toplevel)@, size, animate),
            final(toplevel)@ == old(self)@.toplevel_size_requested_once(old(toplevel)@, size),
            old(self)@.wf() ==> final(self)@.wf(),
    {
        if self.is_mirror {
            self.request_size(toplevel, size, SizingMode::Normal, animate, None);
            return;
        }
        // A commit has to come to change the maximized state.
        let needs_configure = self.maximized.committed;
        self.maximized.request(false);

        match toplevel.already_asked(size, self.windowed_fullscreen.pending) {
            Some(serial) => {
                let request = match toplevel.committed_serial {
                    Some(committed) => if !committed.is_no_older_than(serial) {
                        // The size was asked for and is not answered yet.
                        RequestSizeOnce::WaitingForCommit(serial)
                    } else {
                        // The size was asked for and answered.
                        RequestSizeOnce::UseWindowSize
                    },
                    None => RequestSizeOnce::UseWindowSize,
                };
                self.configuring.request_size_once(needs_configure, false, request);
            },
            None => {
                let changed = toplevel.request_size_once(size, self.windowed_fullscreen.pending);
                self.configuring.request_size_once(
                    needs_configure,
                    animate && changed,
                    RequestSizeOnce::WaitingForConfigure,
                );
            },
        }
    }

    /// Suggests bounds to the window.
    pub fn set_bounds(&self, toplevel: &mut Toplevel, bounds: Size)
        ensures
            final(toplevel)@ == if self@.is_mirror {
                old(toplevel)@
            } else {
                old(toplevel)@.with_pending(
                    ToplevelStateView { bounds: Some(bounds), ..old(toplevel)@.pending() },
                )
            },
            final(toplevel)@ == self@.toplevel_bounded(old(toplevel)@, bounds),
    {
        if self.is_mirror {
            return;
        }
        let pending = toplevel.pending_mut();
        pending.bounds = Some(bounds);
    }

    /// The size that is requested.
    pub fn requested_size(&self, toplevel: &Toplevel) -> (size: Option<Size>)
        ensures
            size == if self@.is_mirror {
                Some(self@.mirror.size)
            } else {
                toplevel@.pending().size
            },
            size == self@.requested_size(toplevel@),
    {
        if self.is_mirror {
            return Some(self.mirror.size);
        }
        toplevel.pending().size
    }

    /// The size that the window will have, as far as it is known and one of its own.
    ///
    /// The size of a maximized or fullscreen window is none of its own. Where the window is
    /// configured with the size that it has, that size counts, although a later configure may not
    /// be answered yet.
    pub fn expected_size(&self, toplevel: &Toplevel) -> (size: Option<Size>)
        ensures
            size == self@.expected_size(toplevel@),
    {
        if self.is_mirror {
            return Some(self.mirror.size);
        }
        let current = if self.sizing_mode(toplevel).is_normal() {
            Some(toplevel.geometry.size)
        } else {
            None
        };
        if self.is_using_window_size() {
            return current;
        }
        let state = match toplevel.upcoming_state() {
            Some(state) => state,
            None => {
                return current;
            },
        };
        if state.states.contains(ToplevelFlag::Maximized) || (state.states.contains(
            ToplevelFlag::Fullscreen,
        ) && (!self.windowed_fullscreen.pending || self.maximized.pending)) {
            return None;
        }
        let mut size = match state.size {
            Some(size) => size,
            None => Size { w: 0, h: 0 },
        };
        if size.w == 0 {
            match current {
                Some(current) => {
                    size.w = current.w;
                },
                None => {
                    return None;
                },
            }
        }
        if size.h == 0 {
            match current {
                Some(current) => {
                    size.h = current.h;
                },
                None => {
                    return None;
                },
            }
        }
        Some(size)
    }

    fn is_using_window_size(&self) -> (is: bool)
        ensures
            is == self@.uses_window_size(),
    {
        matches!(self.configuring.request_size_once, Some(RequestSizeOnce::UseWindowSize))
    }

    /// Tells whether a configure is due.
    ///
    /// A change of the size alone waits until the client has answered the previous size. Some
    /// clients do not batch size requests, which goes badly with fast input devices, and it keeps
    /// interactive resize transactions visually consistent.
    pub fn configure_intent(&self, toplevel: &Toplevel) -> (intent: ConfigureIntent)
        ensures
            intent == self@.configure_intent(toplevel@),
    {
        if self.is_mirror {
            return ConfigureIntent::NotNeeded;
        }
        if self.configuring.needs_configure {
            return ConfigureIntent::ShouldSend;
        }
        let pending = match &toplevel.server_pending {
            Some(pending) => pending,
            None => {
                return ConfigureIntent::NotNeeded;
            },
        };
        if pending.same(&toplevel.current_server) {
            return ConfigureIntent::NotNeeded;
        }
        let mut same_size = toplevel.current_server.copied();
        same_size.size = pending.size;
        if !same_size.same(pending) {
            return ConfigureIntent::ShouldSend;
        }
        match &toplevel.committed {
            None => ConfigureIntent::ShouldSend,
            Some(committed) => if committed.size == toplevel.current_server.size {
                ConfigureIntent::CanSend
            } else {
                ConfigureIntent::Throttled
            },
        }
    }

    /// Decides whether a configure is to be sent now, and prepares the pending state for it.
    ///
    /// If so, the host sends the pending state and reports the serial with
    /// [`Mapped::configure_sent`]. A window that is configured with the size that it has is not
    /// configured for a change of the size alone, since it is not expected to change.
    pub fn send_pending_configure(&mut self, toplevel: &mut Toplevel) -> (send: bool)
        ensures
            send == old(self)@.sends_configure(old(toplevel)@),
            final(toplevel)@ == old(self)@.toplevel_before_configure(old(toplevel)@),
            final(self)@ == if send || old(self)@.is_mirror {
                old(self)@
            } else {
                MappedView { configuring: old(self)@.configuring.not_sent(), ..old(self)@ }
            },
            final(self)@ == old(self)@.after_deciding(old(toplevel)@),
            old(self)@.wf() ==> final(self)@.wf(),
    {
        if self.is_mirror {
            return false;
        }
        let use_window_size = self.is_using_window_size();
        if !self.configuring.needs_configure {
            if use_window_size {
                toplevel.take_back_size_change();
            }
            if !toplevel.has_changes() {
                self.configuring.nothing_to_configure();
                return false;
            }
        }
        if use_window_size {
            let size = toplevel.geometry.size;
            let pending = toplevel.pending_mut();
            pending.size = Some(size);
        }
        true
    }

    /// Notes that the pending state was sent.
    pub fn configure_sent(&mut self, serial: Serial)
        requires
            !old(self)@.is_mirror,
        ensures
            final(self)@ == old(self)@.configured(serial),
            old(self)@.wf() ==> final(self)@.wf(),
    {
        self.configuring.configure_sent(serial);
        self.windowed_fullscreen.configure_sent(serial);
        self.maximized.configure_sent(serial);
    }

    /// Requests windowed fullscreen, or gives it up.
    pub fn request_windowed_fullscreen(&mut self, toplevel: &mut Toplevel, value: bool)
        ensures
            final(self)@ == old(self)@.windowed_fullscreen_requested(value),
            final(toplevel)@ == old(self)@.toplevel_windowed_fullscreen_requested(
                old(toplevel)@,
                value,
            ),
            old(self)@.wf() ==> final(self)@.wf(),
    {
        if self.is_mirror {
            let mode = if value {
                SizingMode::Fullscreen
            } else {
                SizingMode::Normal
            };
            self.mirror.sizing_mode = mode;
            self.mirror.pending_sizing_mode = mode;
            return;
        }
        if self.windowed_fullscreen.pending == value {
            return;
        }
        self.windowed_fullscreen.request(value);

        let pending = toplevel.pending_mut();
        pending.states.assign(ToplevelFlag::Fullscreen, value);
        if value {
            pending.states.unset(ToplevelFlag::Maximized);
        } else if self.maximized.pending {
            pending.states.set(ToplevelFlag::Maximized);
        }
        // A commit has to come to put the change into effect.
        self.configuring.needs_configure = true;
    }

    /// Starts, goes on with, or stops an interactive resize.
    pub fn set_interactive_resize(
        &mut self,
        toplevel: &mut Toplevel,
        data: Option<InteractiveResizeData>,
    )
        ensures
            final(self)@ == old(self)@.resizing(data),
            final(toplevel)@ == old(self)@.toplevel_resizing(old(toplevel)@, data is Some),
            old(self)@.wf() ==> final(self)@.wf(),
    {
        let ongoing = match data {
            Some(data) => Some(InteractiveResize::Ongoing(data)),
            None => None,
        };
        if self.is_mirror {
            self.configuring.interactive_resize = ongoing;
            return;
        }
        let pending = toplevel.pending_mut();
        pending.states.assign(ToplevelFlag::Resizing, data.is_some());
        if data.is_some() {
            self.configuring.interactive_resize = ongoing;
        } else {
            self.configuring.interactive_resize = stop(self.configuring.interactive_resize);
        }
    }

    /// Stops an interactive resize without waiting for its last configure.
    pub fn cancel_interactive_resize(&mut self, toplevel: &mut Toplevel)
        ensures
            final(self)@ == (MappedView {
                configuring: ConfiguringView {
                    interactive_resize: None,
                    ..old(self)@.configuring
                },
                ..old(self)@
            }),
            final(self)@ == old(self)@.without_resize(),
            final(toplevel)@ == old(self)@.toplevel_resizing(old(toplevel)@, false),
            old(self)@.wf() ==> final(self)@.wf(),
    {
        self.set_interactive_resize(toplevel, None);
        self.configuring.interactive_resize = None;
    }

    /// What the interactive resize does, until it is over.
    pub fn interactive_resize_data(&self) -> (data: Option<InteractiveResizeData>)
        ensures
            data == match self@.configuring.interactive_resize {
                Some(resize) => Some(resize.resize_data()),
                None => None,
            },
            data == self@.resize_data(),
    {
        match &self.configuring.interactive_resize {
            Some(resize) => Some(resize.data()),
            None => None,
        }
    }
}

impl Toplevel {
    /// Makes a size and a sizing mode pending, and tells whether the size changed.
    fn request_size(&mut self, size: Size, fullscreen: bool, maximized: bool) -> (changed: bool)
        ensures
            final(self)@ == old(self)@.with_pending(
                sized(old(self)@.pending(), size, fullscreen, maximized),
            ),
            changed == (old(self)@.pending().size != Some(size)),
    {
        let pending = self.pending_mut();
        let changed = pending.size != Some(size);
        pending.size = Some(size);
        pending.states.assign(ToplevelFlag::Fullscreen, fullscreen);
        pending.states.assign(ToplevelFlag::Maximized, maximized);
        changed
    }

    /// Makes a size pending that is requested once, and tells whether the size changed.
    fn request_size_once(&mut self, size: Size, windowed_fullscreen: bool) -> (changed: bool)
        ensures
            final(self)@ == old(self)@.with_pending(
                sized_once(old(self)@.pending(), size, windowed_fullscreen),
            ),
            changed == (old(self)@.pending().size != Some(size)),
    {
        let pending = self.pending_mut();
        let changed = pending.size != Some(size);
        pending.size = Some(size);
        if !windowed_fullscreen {
            pending.states.unset(ToplevelFlag::Fullscreen);
        }
        pending.states.unset(ToplevelFlag::Maximized);
        changed
    }

    fn already_asked(&self, size: Size, windowed_fullscreen: bool) -> (serial: Option<Serial>)
        ensures
            serial == already_asked(self@, size, windowed_fullscreen),
    {
        let configure = match &self.last_uncommitted {
            Some(configure) => configure,
            None => {
                return None;
            },
        };
        let asked = match configure.state.size {
            Some(size) => size,
            None => Size { w: 0, h: 0 },
        };
        let states = &configure.state.states;
        if asked == size && states.contains(ToplevelFlag::Fullscreen) == windowed_fullscreen
            && !states.contains(ToplevelFlag::Maximized) {
            Some(configure.serial)
        } else {
            None
        }
    }

    fn upcoming_state(&self) -> (state: Option<&ToplevelState>)
        ensures
            match state {
                Some(state) => upcoming_state(self@) == Some(state@),
                None => upcoming_state(self@) is None,
            },
    {
        match &self.server_pending {
            Some(pending) => {
                if pending.size != self.current_server.size {
                    return Some(pending);
                }
            },
            None => {},
        }
        match &self.last_uncommitted {
            Some(configure) => Some(&configure.state),
            None => None,
        }
    }

    fn take_back_size_change(&mut self)
        ensures
            final(self)@ == if old(self)@.server_pending is Some {
                old(self)@.with_pending(
                    ToplevelStateView {
                        size: old(self)@.current_server.size,
                        ..old(self)@.server_pending->0
                    },
                )
            } else {
                old(self)@
            },
    {
        if self.server_pending.is_some() {
            let size = self.current_server.size;
            let pending = self.pending_mut();
            pending.size = size;
        }
    }
}

} // verus!
