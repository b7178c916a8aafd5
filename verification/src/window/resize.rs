//! Progress of interactive resizes and of one-time size requests.

use crate::serial::Serial;
use vstd::prelude::*;

verus! {

/// The edges that a resize moves, as flags: top 1, bottom 2, left 4, right 8.
#[derive(Debug, Clone, Copy, PartialEq, Eq, Structural)]
pub struct ResizeEdge {
    pub bits: u32,
}

/// What an interactive resize does.
#[derive(Debug, Clone, Copy, PartialEq, Eq, Structural)]
pub struct InteractiveResizeData {
    pub edges: ResizeEdge,
}

/// Interactive resize state.
#[derive(Debug, Clone, Copy, PartialEq, Eq)]
pub enum InteractiveResize {
    /// The resize is ongoing.
    Ongoing(InteractiveResizeData),
    /// The resize has stopped and the last configure is still to be sent.
    WaitingForLastConfigure(InteractiveResizeData),
    /// The last resize configure was sent and the corresponding commit is awaited.
    WaitingForLastCommit { data: InteractiveResizeData, serial: Serial },
}

impl InteractiveResize {
    /// What the resize does, whatever its progress.
    pub open spec fn resize_data(self) -> InteractiveResizeData {
        match self {
            InteractiveResize::Ongoing(data) => data,
            InteractiveResize::WaitingForLastConfigure(data) => data,
            InteractiveResize::WaitingForLastCommit { data, .. } => data,
        }
    }

    /// What the resize does, whatever its progress.
    pub fn data(&self) -> (data: InteractiveResizeData)
        ensures
            data == self.resize_data(),
    {
        match self {
            InteractiveResize::Ongoing(data) => *data,
            InteractiveResize::WaitingForLastConfigure(data) => *data,
            InteractiveResize::WaitingForLastCommit { data, .. } => *data,
        }
    }
}

/// The resize after it was stopped: a resize that was ongoing still waits for its last configure.
pub open spec fn stopped(resize: Option<InteractiveResize>) -> Option<InteractiveResize> {
    match resize {
        Some(InteractiveResize::Ongoing(data)) => Some(
            InteractiveResize::WaitingForLastConfigure(data),
        ),
        other => other,
    }
}

/// The resize after a configure was sent: the last configure of a stopped resize awaits its
/// commit.
pub open spec fn configured(resize: Option<InteractiveResize>, serial: Serial) -> Option<
    InteractiveResize,
> {
    match resize {
        Some(InteractiveResize::WaitingForLastConfigure(data)) => Some(
            InteractiveResize::WaitingForLastCommit { data, serial },
        ),
        other => other,
    }
}

/// The resize after it turned out that there was nothing to configure: a stopped resize is over.
pub open spec fn not_configured(resize: Option<InteractiveResize>) -> Option<InteractiveResize> {
    match resize {
        Some(InteractiveResize::WaitingForLastConfigure(_)) => None,
        other => other,
    }
}

/// The resize after a commit: it is over once the commit answers the last configure.
pub open spec fn committed(resize: Option<InteractiveResize>, commit: Serial) -> Option<
    InteractiveResize,
> {
    match resize {
        Some(InteractiveResize::WaitingForLastCommit { data, serial }) => if commit.no_older_than(
            serial,
        ) {
            None
        } else {
            resize
        },
        other => other,
    }
}

/// Stops a resize.
pub fn stop(resize: Option<InteractiveResize>) -> (after: Option<InteractiveResize>)
    ensures
        after == stopped(resize),
{
    match resize {
        Some(InteractiveResize::Ongoing(data)) => Some(
            InteractiveResize::WaitingForLastConfigure(data),
        ),
        other => other,
    }
}

/// Notes that a configure was sent.
pub fn note_configure(resize: Option<InteractiveResize>, serial: Serial) -> (after: Option<
    InteractiveResize,
>)
    ensures
        after == configured(resize, serial),
{
    match resize {
        Some(InteractiveResize::WaitingForLastConfigure(data)) => Some(
            InteractiveResize::WaitingForLastCommit { data, serial },
        ),
        other => other,
    }
}

/// Notes that there was nothing to configure.
pub fn note_no_configure(resize: Option<InteractiveResize>) -> (after: Option<InteractiveResize>)
    ensures
        after == not_configured(resize),
{
    match resize {
        Some(InteractiveResize::WaitingForLastConfigure(_)) => None,
        other => other,
    }
}

/// Notes a commit.
pub fn note_commit(resize: Option<InteractiveResize>, commit: Serial) -> (after: Option<
    InteractiveResize,
>)
    ensures
        after == committed(resize, commit),
{
    match resize {
        Some(InteractiveResize::WaitingForLastCommit { data, serial }) => if commit.is_no_older_than(
            serial,
        ) {
            None
        } else {
            Some(InteractiveResize::WaitingForLastCommit { data, serial })
        },
        other => other,
    }
}

/// A resize that was stopped and whose last configure was answered is over, whatever was sent
/// before; as long as it is not, its data stays the same.
pub proof fn stopped_resize_ends(data: InteractiveResizeData, sent: Serial, commit: Serial)
    requires
        commit.no_older_than(sent),
    ensures
        committed(
            configured(stopped(Some(InteractiveResize::Ongoing(data))), sent),
            commit,
        ) is None,
        not_configured(stopped(Some(InteractiveResize::Ongoing(data)))) is None,
        configured(stopped(Some(InteractiveResize::Ongoing(data))), sent)->0.resize_data() == data,
{
}

/// Stopping a resize that goes on makes it wait for its last configure; stopping again, or
/// stopping nothing, changes nothing. Whatever its progress, a resize keeps what it does until it is
/// over.
pub proof fn stopping_waits_for_the_last_configure(
    resize: Option<InteractiveResize>,
    sent: Serial,
    commit: Serial,
)
    ensures
        !(stopped(resize) matches Some(InteractiveResize::Ongoing(_))),
        resize matches Some(InteractiveResize::Ongoing(data)) ==> stopped(resize) == Some(
            InteractiveResize::WaitingForLastConfigure(data),
        ),
        !(resize matches Some(InteractiveResize::Ongoing(_))) ==> stopped(resize) == resize,
        resize matches Some(InteractiveResize::Ongoing(_)) ==> configured(resize, sent) == resize
            && not_configured(resize) == resize && committed(resize, commit) == resize,
        keeps_data(resize, stopped(resize)),
        keeps_data(resize, configured(resize, sent)),
        keeps_data(resize, not_configured(resize)),
        keeps_data(resize, committed(resize, commit)),
        resize matches Some(InteractiveResize::WaitingForLastCommit { serial, .. }) ==> configured(
            resize,
            sent,
        ) == resize && not_configured(resize) == resize && (committed(resize, commit) is None
            <==> commit.no_older_than(serial)),
{
}

/// Whether a resize goes on with what it does, or is over.
pub open spec fn keeps_data(
    before: Option<InteractiveResize>,
    after: Option<InteractiveResize>,
) -> bool {
    after is Some ==> before is Some && after->0.resize_data() == before->0.resize_data()
}

/// What a resize does is what it was started with.
pub proof fn resize_does_what_it_was_started_with(data: InteractiveResizeData, serial: Serial)
    ensures
        InteractiveResize::Ongoing(data).resize_data() == data,
        InteractiveResize::WaitingForLastConfigure(data).resize_data() == data,
        (InteractiveResize::WaitingForLastCommit { data, serial }).resize_data() == data,
{
}

/// Request-size-once logic state.
#[derive(Debug, Clone, Copy, PartialEq, Eq)]
pub enum RequestSizeOnce {
    /// Waiting for configure to be sent with the requested size.
    WaitingForConfigure,
    /// Waiting for the window to commit in response to the configure.
    WaitingForCommit(Serial),
    /// When configuring, use the current window size.
    UseWindowSize,
}

/// The request after a configure was sent.
pub open spec fn request_configured(request: Option<RequestSizeOnce>, serial: Serial) -> Option<
    RequestSizeOnce,
> {
    match request {
        Some(RequestSizeOnce::WaitingForConfigure) => Some(
            RequestSizeOnce::WaitingForCommit(serial),
        ),
        other => other,
    }
}

/// The request after a commit.
pub open spec fn request_committed(request: Option<RequestSizeOnce>, commit: Serial) -> Option<
    RequestSizeOnce,
> {
    match request {
        Some(RequestSizeOnce::WaitingForCommit(serial)) => if commit.no_older_than(serial) {
            Some(RequestSizeOnce::UseWindowSize)
        } else {
            request
        },
        other => other,
    }
}

/// Notes that a configure was sent.
pub fn note_request_configure(request: Option<RequestSizeOnce>, serial: Serial) -> (after: Option<
    RequestSizeOnce,
>)
    ensures
        after == request_configured(request, serial),
{
    match request {
        Some(RequestSizeOnce::WaitingForConfigure) => Some(
            RequestSizeOnce::WaitingForCommit(serial),
        ),
        other => other,
    }
}

/// Notes a commit.
pub fn note_request_commit(request: Option<RequestSizeOnce>, commit: Serial) -> (after: Option<
    RequestSizeOnce,
>)
    ensures
        after == request_committed(request, commit),
{
    match request {
        Some(RequestSizeOnce::WaitingForCommit(serial)) => if commit.is_no_older_than(serial) {
            Some(RequestSizeOnce::UseWindowSize)
        } else {
            Some(RequestSizeOnce::WaitingForCommit(serial))
        },
        other => other,
    }
}

} // verus!
