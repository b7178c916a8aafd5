//! What a commit of the client brings about.

use crate::serial::Serial;
use crate::window::configuring::{answered_count, newer_than, ConfiguringView};
use crate::window::mapped::{Mapped, MappedView};
use vstd::prelude::*;

verus! {

impl<T, S> MappedView<T, S> {
    /// The entry after a commit that answers the configure with the given serial, and all
    /// configures before it.
    pub open spec fn after_commit(self, commit: Serial) -> MappedView<T, S> {
        if self.is_mirror {
            self
        } else {
            MappedView {
                configuring: self.configuring.after_commit(commit),
                windowed_fullscreen: self.windowed_fullscreen.after_commit(commit),
                maximized: self.maximized.after_commit(commit),
                ..self
            }
        }
    }
}

impl<T, S> Mapped<T, S> {
    /// Tells whether a commit answers a configure that should be animated, and forgets these
    /// configures.
    pub fn should_animate_commit(&mut self, commit: Serial) -> (animate: bool)
        ensures
            animate == exists|i: int|
                0 <= i < old(self)@.configuring.animate_serials.len() && commit.no_older_than(
                    #[trigger] old(self)@.configuring.animate_serials[i],
                ),
            final(self)@ == (MappedView {
                configuring: ConfiguringView {
                    animate_serials: old(self)@.configuring.animate_serials.filter(
                        newer_than(commit),
                    ),
                    ..old(self)@.configuring
                },
                ..old(self)@
            }),
            animate == old(self)@.configuring.animates(commit),
            final(self)@ == (MappedView {
                configuring: old(self)@.configuring.animated(commit),
                ..old(self)@
            }),
            old(self)@.wf() ==> final(self)@.wf(),
    {
        proof {
            reveal(Seq::filter);
        }
        self.configuring.should_animate_commit(commit)
    }

    /// Takes the transaction that a commit completes.
    ///
    /// The client may have skipped configures; the transactions of all of them are completed, and
    /// the last one is given back.
    pub fn take_pending_transaction(&mut self, commit: Serial) -> (transaction: Option<T>)
        ensures
            ({
                let pending = old(self)@.configuring.pending_transactions;
                let count = answered_count(pending, commit) as int;
                &&& transaction == if count > 0 {
                    Some(pending[count - 1].1)
                } else {
                    None
                }
                &&& final(self)@ == (MappedView {
                    configuring: ConfiguringView {
                        pending_transactions: pending.skip(count),
                        ..old(self)@.configuring
                    },
                    ..old(self)@
                })
            }),
            transaction == old(self)@.configuring.completed(commit),
            final(self)@ == (MappedView {
                configuring: old(self)@.configuring.without_answered(commit),
                ..old(self)@
            }),
            old(self)@.wf() ==> final(self)@.wf(),
    {
        proof {
            let pending = self@.configuring.pending_transactions;
            assert(pending.skip(0) =~= pending);
        }
        self.configuring.take_pending_transaction(commit)
    }

    /// Notes a commit that answers the configure with the given serial.
    ///
    /// It may end a stopped interactive resize, lets a window that was asked for a size once keep
    /// the one that it chose, and puts windowed fullscreen and maximized changes into effect.
    pub fn on_commit(&mut self, commit: Serial)
        ensures
            final(self)@ == old(self)@.after_commit(commit),
            old(self)@.wf() ==> final(self)@.wf(),
    {
        if self.is_mirror {
            return;
        }
        self.configuring.on_commit(commit);
        self.windowed_fullscreen.on_commit(commit);
        self.maximized.on_commit(commit);
    }
}

} // verus!
