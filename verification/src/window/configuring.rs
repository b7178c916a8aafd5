//! What a window still has to tell its client, and what it expects from it.

use crate::serial::{
    answered_come_first, answering_keeps_the_order, comes_after, later, sending_keeps_the_order,
    sent_in_order, Serial, WRAP_DISTANCE,
};
use crate::window::resize::{
    committed, configured, not_configured, note_commit, note_configure, note_no_configure,
    note_request_commit, note_request_configure, request_committed, request_configured,
    InteractiveResize, RequestSizeOnce,
};
use vstd::prelude::*;

verus! {

/// The state between a window and its client; `T` stands for the transactions that keep several
/// windows in step.
#[derive(Debug)]
pub struct Configuring<T> {
    /// Whether this window needs a configure this loop cycle.
    ///
    /// Certain Wayland requests require a configure in response, like un/fullscreen.
    pub needs_configure: bool,
    /// Whether this window needs a frame callback.
    ///
    /// This is set after sending a configure to give invisible windows a chance to respond to
    /// resizes immediately, without waiting for a throttled callback.
    pub needs_frame_callback: bool,
    /// Whether the next configure should be animated, if the configured state changed.
    pub animate_next_configure: bool,
    /// Serials of commits that should be animated.
    pub animate_serials: Vec<Serial>,
    /// State for the logic to request a size once (for floating windows).
    pub request_size_once: Option<RequestSizeOnce>,
    /// Transaction that the next configure should take part in, if any.
    pub transaction_for_next_configure: Option<T>,
    /// Pending transactions that have not been added as blockers for this window yet.
    pub pending_transactions: Vec<(Serial, T)>,
    /// State of an ongoing interactive resize.
    pub interactive_resize: Option<InteractiveResize>,
}

/// The contents of [`Configuring`].
#[verifier::ext_equal]
pub struct ConfiguringView<T> {
    pub needs_configure: bool,
    pub needs_frame_callback: bool,
    pub animate_next_configure: bool,
    pub animate_serials: Seq<Serial>,
    pub request_size_once: Option<RequestSizeOnce>,
    pub transaction_for_next_configure: Option<T>,
    pub pending_transactions: Seq<(Serial, T)>,
    pub interactive_resize: Option<InteractiveResize>,
}

impl<T> View for Configuring<T> {
    type V = ConfiguringView<T>;

    open spec fn view(&self) -> ConfiguringView<T> {
        ConfiguringView {
            needs_configure: self.needs_configure,
            needs_frame_callback: self.needs_frame_callback,
            animate_next_configure: self.animate_next_configure,
            animate_serials: self.animate_serials@,
            request_size_once: self.request_size_once,
            transaction_for_next_configure: self.transaction_for_next_configure,
            pending_transactions: self.pending_transactions@,
            interactive_resize: self.interactive_resize,
        }
    }
}

/// Tells the serials that a commit does not answer.
pub open spec fn newer_than(commit: Serial) -> spec_fn(Serial) -> bool {
    |serial: Serial| !commit.no_older_than(serial)
}

/// How many transactions from the start a commit answers: all up to the first one that is too new.
pub open spec fn answered_count<T>(pending: Seq<(Serial, T)>, commit: Serial) -> nat
    decreases pending.len(),
{
    if pending.len() == 0 || !commit.no_older_than(pending[0].0) {
        0
    } else {
        1 + answered_count(pending.skip(1), commit)
    }
}

impl<T> ConfiguringView<T> {
    /// Nothing to tell and nothing expected.
    pub open spec fn idle() -> ConfiguringView<T> {
        ConfiguringView {
            needs_configure: false,
            needs_frame_callback: false,
            animate_next_configure: false,
            animate_serials: Seq::empty(),
            request_size_once: None,
            transaction_for_next_configure: None,
            pending_transactions: Seq::empty(),
            interactive_resize: None,
        }
    }

    /// Whether nothing is to be told or expected, but for an ongoing resize.
    pub open spec fn is_passive(self) -> bool {
        &&& self == ConfiguringView { interactive_resize: self.interactive_resize, ..Self::idle() }
        &&& self.interactive_resize is None || self.interactive_resize->0 is Ongoing
    }

    /// After a size was requested.
    pub open spec fn size_requested(
        self,
        needs_configure: bool,
        animate: bool,
        transaction: Option<T>,
    ) -> ConfiguringView<T> {
        ConfiguringView {
            needs_configure: self.needs_configure || needs_configure,
            animate_next_configure: self.animate_next_configure || animate,
            request_size_once: None,
            transaction_for_next_configure: if transaction is Some {
                transaction
            } else {
                self.transaction_for_next_configure
            },
            ..self
        }
    }

    /// After a size was requested once; the window is going floating, so it can no longer take
    /// part in any transactions with other windows.
    pub open spec fn size_requested_once(
        self,
        needs_configure: bool,
        animate: bool,
        request: RequestSizeOnce,
    ) -> ConfiguringView<T> {
        ConfiguringView {
            needs_configure: self.needs_configure || needs_configure,
            animate_next_configure: self.animate_next_configure || animate,
            request_size_once: Some(request),
            transaction_for_next_configure: None,
            ..self
        }
    }

    /// After a configure was sent: the client is owed a frame callback, and the animation, the
    /// transaction, the end of a resize and the one-time size request now await the commit.
    pub open spec fn sent(self, serial: Serial) -> ConfiguringView<T> {
        ConfiguringView {
            needs_configure: false,
            needs_frame_callback: true,
            animate_next_configure: false,
            animate_serials: if self.animate_next_configure {
                self.animate_serials.push(serial)
            } else {
                self.animate_serials
            },
            request_size_once: request_configured(self.request_size_once, serial),
            transaction_for_next_configure: None,
            pending_transactions: match self.transaction_for_next_configure {
                Some(transaction) => self.pending_transactions.push((serial, transaction)),
                None => self.pending_transactions,
            },
            interactive_resize: configured(self.interactive_resize, serial),
        }
    }

    /// After it turned out that there was nothing to configure.
    pub open spec fn not_sent(self) -> ConfiguringView<T> {
        ConfiguringView {
            animate_next_configure: false,
            transaction_for_next_configure: None,
            interactive_resize: not_configured(self.interactive_resize),
            ..self
        }
    }

    /// Whether a commit answers a configure that should be animated.
    pub open spec fn animates(self, commit: Serial) -> bool {
        exists|serial: Serial| #[trigger]
            self.animate_serials.contains(serial) && commit.no_older_than(serial)
    }

    /// After the configures that should be animated, and that a commit answers, were forgotten.
    pub open spec fn animated(self, commit: Serial) -> ConfiguringView<T> {
        ConfiguringView {
            animate_serials: self.animate_serials.filter(newer_than(commit)),
            ..self
        }
    }

    /// The transaction that a commit completes.
    pub open spec fn completed(self, commit: Serial) -> Option<T> {
        let count = answered_count(self.pending_transactions, commit);
        if count > 0 {
            Some(self.pending_transactions[count - 1].1)
        } else {
            None
        }
    }

    /// After the transactions that a commit answers were taken.
    pub open spec fn without_answered(self, commit: Serial) -> ConfiguringView<T> {
        ConfiguringView {
            pending_transactions: self.pending_transactions.skip(
                answered_count(self.pending_transactions, commit) as int,
            ),
            ..self
        }
    }

    /// After a commit.
    pub open spec fn after_commit(self, commit: Serial) -> ConfiguringView<T> {
        ConfiguringView {
            interactive_resize: committed(self.interactive_resize, commit),
            request_size_once: request_committed(self.request_size_once, commit),
            ..self
        }
    }
}

impl<T> Configuring<T> {
    /// Starts with nothing to tell and nothing expected.
    pub fn new() -> (configuring: Configuring<T>)
        ensures
            configuring@ == ConfiguringView::<T>::idle(),
    {
        Configuring {
            needs_configure: false,
            needs_frame_callback: false,
            animate_next_configure: false,
            animate_serials: Vec::new(),
            request_size_once: None,
            transaction_for_next_configure: None,
            pending_transactions: Vec::new(),
            interactive_resize: None,
        }
    }

    /// Notes that a size was requested, and whether that needs a configure, and should be animated.
    pub fn request_size(&mut self, needs_configure: bool, animate: bool, transaction: Option<T>)
        ensures
            final(self)@ == old(self)@.size_requested(needs_configure, animate, transaction),
    {
        if needs_configure {
            self.needs_configure = true;
        }
        if animate {
            self.animate_next_configure = true;
        }
        self.request_size_once = None;
        if transaction.is_some() {
            self.transaction_for_next_configure = transaction;
        }
    }

    /// Notes that a size was requested once.
    pub fn request_size_once(
        &mut self,
        needs_configure: bool,
        animate: bool,
        request: RequestSizeOnce,
    )
        ensures
            final(self)@ == old(self)@.size_requested_once(needs_configure, animate, request),
    {
        if needs_configure {
            self.needs_configure = true;
        }
        if animate {
            self.animate_next_configure = true;
        }
        self.request_size_once = Some(request);
        self.transaction_for_next_configure = None;
    }

    /// Notes that a configure was sent.
    pub fn configure_sent(&mut self, serial: Serial)
        ensures
            final(self)@ == old(self)@.sent(serial),
    {
        self.needs_configure = false;
        self.needs_frame_callback = true;
        if self.animate_next_configure {
            self.animate_serials.push(serial);
        }
        match self.transaction_for_next_configure.take() {
            Some(transaction) => {
                self.pending_transactions.push((serial, transaction));
            },
            None => {},
        }
        self.interactive_resize = note_configure(self.interactive_resize, serial);
        self.request_size_once = note_request_configure(self.request_size_once, serial);
        self.animate_next_configure = false;
    }

    /// Notes that there was nothing to configure.
    pub fn nothing_to_configure(&mut self)
        ensures
            final(self)@ == old(self)@.not_sent(),
    {
        self.interactive_resize = note_no_configure(self.interactive_resize);
        self.animate_next_configure = false;
        self.transaction_for_next_configure = None;
    }

    /// Notes a commit.
    pub fn on_commit(&mut self, commit: Serial)
        ensures
            final(self)@ == old(self)@.after_commit(commit),
    {
        self.interactive_resize = note_commit(self.interactive_resize, commit);
        self.request_size_once = note_request_commit(self.request_size_once, commit);
    }

    /// Tells whether a commit answers a configure that should be animated, and forgets these
    /// configures.
    pub fn should_animate_commit(&mut self, commit: Serial) -> (animate: bool)
        ensures
            animate == exists|i: int|
                0 <= i < old(self)@.animate_serials.len() && commit.no_older_than(
                    #[trigger] old(self)@.animate_serials[i],
                ),
            final(self)@ == (ConfiguringView {
                animate_serials: old(self)@.animate_serials.filter(newer_than(commit)),
                ..old(self)@
            }),
            animate == old(self)@.animates(commit),
            final(self)@ == old(self)@.animated(commit),
    {
        let ghost before = self@.animate_serials;
        let mut kept: Vec<Serial> = Vec::new();
        let mut animate = false;
        for i in 0..self.animate_serials.len()
            invariant
                before == self.animate_serials@,
                self@ == old(self)@,
                kept@ == before.take(i as int).filter(newer_than(commit)),
                animate == exists|j: int|
                    0 <= j < i && commit.no_older_than(#[trigger] before[j]),
        {
            proof {
                reveal(Seq::filter);
                assert(before.take(i + 1).drop_last() =~= before.take(i as int));
            }
            let serial = self.animate_serials[i];
            if commit.is_no_older_than(serial) {
                assert(commit.no_older_than(before[i as int]));
                animate = true;
            } else {
                kept.push(serial);
            }
        }
        proof {
            assert(before.take(before.len() as int) =~= before);
            if animate {
                let at = choose|j: int| 0 <= j < before.len() && commit.no_older_than(
                    #[trigger] before[j],
                );
                assert(before.contains(before[at]));
            }
        }
        self.animate_serials = kept;
        animate
    }

    /// Takes the transaction that a commit completes: the last one that it answers. The earlier
    /// ones, which the client skipped, are dropped, which completes them too.
    ///
    /// Transactions are noted in the order of their configures, so the first one that is too new
    /// ends the search.
    pub fn take_pending_transaction(&mut self, commit: Serial) -> (transaction: Option<T>)
        ensures
            ({
                let pending = old(self)@.pending_transactions;
                let count = answered_count(pending, commit) as int;
                &&& transaction == if count > 0 {
                    Some(pending[count - 1].1)
                } else {
                    None
                }
                &&& final(self)@ == (ConfiguringView {
                    pending_transactions: pending.skip(count),
                    ..old(self)@
                })
            }),
            transaction == old(self)@.completed(commit),
            final(self)@ == old(self)@.without_answered(commit),
    {
        let ghost pending = self@.pending_transactions;
        let ghost mut count: int = 0;
        let mut transaction: Option<T> = None;
        proof {
            assert(pending.skip(0) =~= pending);
        }
        while self.pending_transactions.len() > 0 && commit.is_no_older_than(
            self.pending_transactions[0].0,
        )
            invariant
                0 <= count <= pending.len(),
                pending == old(self)@.pending_transactions,
                self@ == (ConfiguringView {
                    pending_transactions: pending.skip(count),
                    ..old(self)@
                }),
                answered_count(pending, commit) == count + answered_count(
                    pending.skip(count),
                    commit,
                ),
                transaction == if count > 0 {
                    Some(pending[count - 1].1)
                } else {
                    None
                },
            decreases self.pending_transactions.len(),
        {
            proof {
                assert(pending.skip(count).skip(1) =~= pending.skip(count + 1));
                assert(pending.skip(count)[0] == pending[count]);
                count = count + 1;
            }
            let (_, completed) = self.pending_transactions.remove(0);
            assert(self.pending_transactions@ =~= pending.skip(count));
            transaction = Some(completed);
        }
        transaction
    }
}

/// What [`answered_count`] counts: every transaction before that point is answered by the commit,
/// and the one at that point, if there is one, is not.
pub proof fn answered_transactions_come_first<T>(pending: Seq<(Serial, T)>, commit: Serial)
    ensures
        answered_count(pending, commit) <= pending.len(),
        forall|i: int|
            0 <= i < answered_count(pending, commit) ==> commit.no_older_than(
                (#[trigger] pending[i]).0,
            ),
        answered_count(pending, commit) < pending.len() ==> !commit.no_older_than(
            pending[answered_count(pending, commit) as int].0,
        ),
    decreases pending.len(),
{
    if pending.len() > 0 && commit.no_older_than(pending[0].0) {
        let rest = pending.skip(1);
        answered_transactions_come_first(rest, commit);
        assert forall|i: int| 0 <= i < answered_count(pending, commit) implies commit.no_older_than(
            (#[trigger] pending[i]).0,
        ) by {
            if i > 0 {
                assert(pending[i] == rest[i - 1]);
            }
        }
    }
}

/// Sending a configure, with a serial that is given out after the earlier ones, keeps the
/// transactions in the order of their configures.
pub proof fn configures_note_transactions_in_order<T>(
    configuring: ConfiguringView<T>,
    first: Serial,
    steps: Seq<int>,
    step: int,
)
    requires
        sent_in_order(configuring.pending_transactions, first, steps),
        comes_after(step, steps),
    ensures
        sent_in_order(
            configuring.sent(later(first, step)).pending_transactions,
            first,
            if configuring.transaction_for_next_configure is Some {
                steps.push(step)
            } else {
                steps
            },
        ),
{
    if configuring.transaction_for_next_configure is Some {
        sending_keeps_the_order(
            configuring.pending_transactions,
            first,
            steps,
            configuring.transaction_for_next_configure->0,
            step,
        );
    }
}

/// Where the transactions are in the order of their configures, a commit completes exactly those
/// that it answers, the last of them being given back, and the others stay in order.
pub proof fn commit_completes_exactly_the_answered_transactions<T>(
    pending: Seq<(Serial, T)>,
    first: Serial,
    steps: Seq<int>,
    step: int,
)
    requires
        sent_in_order(pending, first, steps),
        0 <= step < WRAP_DISTANCE,
    ensures
        ({
            let commit = later(first, step);
            let count = answered_count(pending, commit) as int;
            &&& 0 <= count <= pending.len()
            &&& forall|i: int|
                0 <= i < pending.len() ==> (commit.no_older_than((#[trigger] pending[i]).0) <==> i
                    < count)
            &&& sent_in_order(pending.skip(count), first, steps.skip(count))
        }),
{
    let commit = later(first, step);
    let count = answered_count(pending, commit) as int;
    let split = answered_come_first(pending, first, steps, step);
    answered_transactions_come_first(pending, commit);
    if split < count {
        assert(commit.no_older_than(pending[split].0));
    }
    if count < split {
        assert(commit.no_older_than(pending[count].0));
    }
    answering_keeps_the_order(pending, first, steps, count);
}

/// A commit takes the transactions away that it answers from the start on, and gives the last of
/// them back; what it does not answer stays, and taking again gives nothing.
pub proof fn taking_completes_the_last_answered<T>(
    configuring: ConfiguringView<T>,
    commit: Serial,
    count: int,
)
    requires
        0 <= count <= configuring.pending_transactions.len(),
        forall|i: int|
            0 <= i < count ==> commit.no_older_than(
                (#[trigger] configuring.pending_transactions[i]).0,
            ),
        count < configuring.pending_transactions.len() ==> !commit.no_older_than(
            configuring.pending_transactions[count].0,
        ),
    ensures
        count == 0 ==> configuring.completed(commit) is None,
        count > 0 ==> configuring.completed(commit) == Some(
            configuring.pending_transactions[count - 1].1,
        ),
        configuring.without_answered(commit).pending_transactions
            == configuring.pending_transactions.skip(count),
        configuring.without_answered(commit).completed(commit) is None,
        configuring.without_answered(commit) == (ConfiguringView {
            pending_transactions: configuring.pending_transactions.skip(count),
            ..configuring
        }),
{
    let pending = configuring.pending_transactions;
    let found = answered_count(pending, commit) as int;
    answered_transactions_come_first(pending, commit);
    if found < count {
        assert(commit.no_older_than(pending[found].0));
    }
    if count < found {
        assert(commit.no_older_than(pending[count].0));
    }
}

/// A commit is animated if it answers a configure that should be, and each of these is animated
/// once: afterwards exactly those are left that the commit does not answer.
pub proof fn animated_configures_are_answered_once<T>(
    configuring: ConfiguringView<T>,
    commit: Serial,
    serial: Serial,
)
    ensures
        configuring.animate_serials.contains(serial) && commit.no_older_than(serial)
            ==> configuring.animates(commit),
        (forall|other: Serial| #[trigger]
            configuring.animate_serials.contains(other) ==> !commit.no_older_than(other))
            ==> !configuring.animates(commit),
        !configuring.animated(commit).animates(commit),
        configuring.animated(commit).animate_serials.contains(serial) <==> (
        configuring.animate_serials.contains(serial) && !commit.no_older_than(serial)),
        configuring.animated(commit) == (ConfiguringView {
            animate_serials: configuring.animated(commit).animate_serials,
            ..configuring
        }),
{
    broadcast use Seq::lemma_filter_contains;

    let serials = configuring.animate_serials;
    let left = configuring.animated(commit).animate_serials;
    assert forall|other: Serial| #[trigger] left.contains(other) implies serials.contains(other)
        && !commit.no_older_than(other) by {
        serials.lemma_filter_contains_rev(newer_than(commit), other);
        let at = choose|at: int| 0 <= at < left.len() && left[at] == other;
        broadcast use Seq::lemma_filter_pred;

        assert(newer_than(commit)(left[at]));
    }
    if serials.contains(serial) && !commit.no_older_than(serial) {
        let at = choose|at: int| 0 <= at < serials.len() && serials[at] == serial;
        assert(newer_than(commit)(serials[at]));
    }
}

/// Sending a configure settles what was to be told: nothing more is due, the client is owed a frame
/// callback, and the serial is animated exactly if that was asked for. A one-time size request and
/// the end of a resize await their commit from the first configure on, and no later one.
pub proof fn sending_settles_what_was_due<T>(configuring: ConfiguringView<T>, serial: Serial)
    ensures
        ({
            let sent = configuring.sent(serial);
            let request = configuring.request_size_once;
            let resize = configuring.interactive_resize;
            &&& !sent.needs_configure
            &&& sent.needs_frame_callback
            &&& !sent.animate_next_configure
            &&& sent.transaction_for_next_configure is None
            &&& configuring.animate_next_configure ==> sent.animate_serials
                == configuring.animate_serials.push(serial)
            &&& !configuring.animate_next_configure ==> sent.animate_serials
                == configuring.animate_serials
            &&& configuring.transaction_for_next_configure is None ==> sent.pending_transactions
                == configuring.pending_transactions
            &&& configuring.transaction_for_next_configure is Some ==> sent.pending_transactions
                == configuring.pending_transactions.push(
                (serial, configuring.transaction_for_next_configure->0),
            )
            &&& request == Some(RequestSizeOnce::WaitingForConfigure) ==> sent.request_size_once
                == Some(RequestSizeOnce::WaitingForCommit(serial))
            &&& request != Some(RequestSizeOnce::WaitingForConfigure) ==> sent.request_size_once
                == request
            &&& resize matches Some(InteractiveResize::WaitingForLastConfigure(data))
                ==> sent.interactive_resize == Some(
                InteractiveResize::WaitingForLastCommit { data, serial },
            )
            &&& !(resize matches Some(InteractiveResize::WaitingForLastConfigure(_)))
                ==> sent.interactive_resize == resize
        }),
{
}

/// Where there is nothing to tell, the animation and the transaction are dropped, and a resize that
/// only waited for its last configure is over; the rest stays.
pub proof fn nothing_to_tell_drops_what_was_asked<T>(configuring: ConfiguringView<T>)
    ensures
        ({
            let after = configuring.not_sent();
            let resize = configuring.interactive_resize;
            &&& !after.animate_next_configure
            &&& after.transaction_for_next_configure is None
            &&& resize matches Some(InteractiveResize::WaitingForLastConfigure(_))
                ==> after.interactive_resize is None
            &&& !(resize matches Some(InteractiveResize::WaitingForLastConfigure(_)))
                ==> after.interactive_resize == resize
            &&& after.needs_configure == configuring.needs_configure
            &&& after.needs_frame_callback == configuring.needs_frame_callback
            &&& after.animate_serials == configuring.animate_serials
            &&& after.request_size_once == configuring.request_size_once
            &&& after.pending_transactions == configuring.pending_transactions
        }),
{
}

/// A commit ends a resize whose last configure it answers, and leaves the size to a window that it
/// was requested of once and that answered; a commit that is too old for that changes nothing.
pub proof fn commit_ends_only_what_it_answers<T>(configuring: ConfiguringView<T>, commit: Serial)
    ensures
        ({
            let after = configuring.after_commit(commit);
            let request = configuring.request_size_once;
            let resize = configuring.interactive_resize;
            &&& after.interactive_resize is None || after.interactive_resize == resize
            &&& resize is Some && after.interactive_resize is None <==> (resize matches Some(
                InteractiveResize::WaitingForLastCommit { serial, .. },
            ) && commit.no_older_than(serial))
            &&& after.request_size_once == request || after.request_size_once == Some(
                RequestSizeOnce::UseWindowSize,
            )
            &&& request matches Some(RequestSizeOnce::WaitingForCommit(serial)) ==> (
            after.request_size_once == Some(RequestSizeOnce::UseWindowSize)
                <==> commit.no_older_than(serial))
            &&& !(request matches Some(RequestSizeOnce::WaitingForCommit(_)))
                ==> after.request_size_once == request
            &&& after.needs_configure == configuring.needs_configure
            &&& after.needs_frame_callback == configuring.needs_frame_callback
            &&& after.animate_next_configure == configuring.animate_next_configure
            &&& after.animate_serials == configuring.animate_serials
            &&& after.transaction_for_next_configure == configuring.transaction_for_next_configure
            &&& after.pending_transactions == configuring.pending_transactions
        }),
{
}

} // verus!
