//! Window state that takes effect only once the client has committed to it.

use crate::serial::{
    answered_come_first, answering_keeps_the_order, comes_after, later, sending_keeps_the_order,
    sent_in_order, Serial, WRAP_DISTANCE,
};
use vstd::prelude::*;

verus! {

/// A property of a window that is requested, then sent along with a configure, and in effect from
/// the commit on that answers this configure.
#[derive(Debug)]
pub struct NegotiatedFlag {
    /// What is in effect.
    pub committed: bool,
    /// What is requested.
    pub pending: bool,
    /// What was sent and not committed to yet, oldest first.
    pub uncommitted: Vec<(Serial, bool)>,
}

/// The contents of a [`NegotiatedFlag`].
#[verifier::ext_equal]
pub struct NegotiatedView {
    pub committed: bool,
    pub pending: bool,
    pub uncommitted: Seq<(Serial, bool)>,
}

impl View for NegotiatedFlag {
    type V = NegotiatedView;

    open spec fn view(&self) -> NegotiatedView {
        NegotiatedView {
            committed: self.committed,
            pending: self.pending,
            uncommitted: self.uncommitted@,
        }
    }
}

/// Tells the changes that a commit answers.
pub open spec fn answered_by(commit: Serial) -> spec_fn((Serial, bool)) -> bool {
    |change: (Serial, bool)| commit.no_older_than(change.0)
}

/// Tells the changes that a commit does not answer.
pub open spec fn not_answered_by(commit: Serial) -> spec_fn((Serial, bool)) -> bool {
    |change: (Serial, bool)| !commit.no_older_than(change.0)
}

impl NegotiatedView {
    /// A property that was never requested to change.
    pub open spec fn settled(value: bool) -> NegotiatedView {
        NegotiatedView { committed: value, pending: value, uncommitted: Seq::empty() }
    }

    /// What the client was told last.
    pub open spec fn last_sent(self) -> bool {
        if self.uncommitted.len() > 0 {
            self.uncommitted.last().1
        } else {
            self.committed
        }
    }

    /// The property after a configure was sent: a change against what was told last is noted.
    pub open spec fn sent(self, serial: Serial) -> NegotiatedView {
        if self.last_sent() != self.pending {
            NegotiatedView { uncommitted: self.uncommitted.push((serial, self.pending)), ..self }
        } else {
            self
        }
    }

    /// The property after a commit: the last change that it answers is in effect, and none of the
    /// changes that it answers is noted any longer.
    pub open spec fn after_commit(self, commit: Serial) -> NegotiatedView {
        let answered = self.uncommitted.filter(answered_by(commit));
        NegotiatedView {
            committed: if answered.len() > 0 {
                answered.last().1
            } else {
                self.committed
            },
            pending: self.pending,
            uncommitted: self.uncommitted.filter(not_answered_by(commit)),
        }
    }

    /// Whether every noted change is one, against the change before it or what is in effect.
    pub open spec fn alternates(self) -> bool {
        forall|i: int|
            0 <= i < self.uncommitted.len() ==> (#[trigger] self.uncommitted[i]).1 != (if i == 0 {
                self.committed
            } else {
                self.uncommitted[i - 1].1
            })
    }

    /// Whether a commit answers exactly the first `count` of the noted changes.
    pub open spec fn answers_first(self, commit: Serial, count: int) -> bool {
        &&& 0 <= count <= self.uncommitted.len()
        &&& forall|i: int|
            0 <= i < self.uncommitted.len() ==> (commit.no_older_than(
                (#[trigger] self.uncommitted[i]).0,
            ) <==> i < count)
    }
}

impl NegotiatedFlag {
    /// Starts with a property that nothing asked to change.
    pub fn new(value: bool) -> (flag: NegotiatedFlag)
        ensures
            flag@ == NegotiatedView::settled(value),
    {
        NegotiatedFlag { committed: value, pending: value, uncommitted: Vec::new() }
    }

    /// Requests a value.
    pub fn request(&mut self, value: bool)
        ensures
            final(self)@ == (NegotiatedView { pending: value, ..old(self)@ }),
    {
        self.pending = value;
    }

    /// Notes that a configure was sent.
    pub fn configure_sent(&mut self, serial: Serial)
        ensures
            final(self)@ == old(self)@.sent(serial),
    {
        let last_sent = if self.uncommitted.len() > 0 {
            self.uncommitted[self.uncommitted.len() - 1].1
        } else {
            self.committed
        };
        if last_sent != self.pending {
            self.uncommitted.push((serial, self.pending));
        }
    }

    /// Notes a commit.
    pub fn on_commit(&mut self, commit: Serial)
        ensures
            final(self)@ == old(self)@.after_commit(commit),
    {
        let ghost before = self@;
        let mut kept: Vec<(Serial, bool)> = Vec::new();
        let mut committed = self.committed;
        for i in 0..self.uncommitted.len()
            invariant
                before == self@,
                kept@ == before.uncommitted.take(i as int).filter(not_answered_by(commit)),
                ({
                    let answered = before.uncommitted.take(i as int).filter(answered_by(commit));
                    committed == if answered.len() > 0 {
                        answered.last().1
                    } else {
                        before.committed
                    }
                }),
        {
            proof {
                reveal(Seq::filter);
                assert(before.uncommitted.take(i + 1).drop_last() =~= before.uncommitted.take(
                    i as int,
                ));
            }
            let (serial, value) = self.uncommitted[i];
            if commit.is_no_older_than(serial) {
                committed = value;
            } else {
                kept.push((serial, value));
            }
        }
        proof {
            assert(before.uncommitted.take(before.uncommitted.len() as int)
                =~= before.uncommitted);
        }
        self.committed = committed;
        self.uncommitted = kept;
    }
}

/// Sending a configure tells the client what is requested, and keeps every noted change a change.
pub proof fn sending_tells_what_is_requested(flag: NegotiatedView, serial: Serial)
    ensures
        flag.sent(serial).last_sent() == flag.pending,
        flag.alternates() ==> flag.sent(serial).alternates(),
{
    if flag.alternates() && flag.last_sent() != flag.pending {
        let after = flag.sent(serial);
        assert forall|i: int| 0 <= i < after.uncommitted.len() implies (
        #[trigger] after.uncommitted[i]).1 != (if i == 0 {
            after.committed
        } else {
            after.uncommitted[i - 1].1
        }) by {
            if i < flag.uncommitted.len() {
                assert(after.uncommitted[i] == flag.uncommitted[i]);
            }
        }
    }
}

proof fn filter_of_split(
    changes: Seq<(Serial, bool)>,
    keep: spec_fn((Serial, bool)) -> bool,
    count: int,
)
    requires
        0 <= count <= changes.len(),
        forall|i: int| 0 <= i < changes.len() ==> (keep(#[trigger] changes[i]) <==> i < count),
    ensures
        changes.filter(keep) == changes.take(count),
    decreases changes.len(),
{
    reveal(Seq::filter);
    if changes.len() > 0 {
        let front = changes.drop_last();
        if count == changes.len() {
            filter_of_split(front, keep, count - 1);
            assert(changes.filter(keep) =~= changes.take(count));
        } else {
            filter_of_split(front, keep, count);
            assert(changes.filter(keep) =~= changes.take(count));
        }
    } else {
        assert(changes.filter(keep) =~= changes.take(count));
    }
}

proof fn filter_of_rest(
    changes: Seq<(Serial, bool)>,
    keep: spec_fn((Serial, bool)) -> bool,
    count: int,
)
    requires
        0 <= count <= changes.len(),
        forall|i: int| 0 <= i < changes.len() ==> (keep(#[trigger] changes[i]) <==> count <= i),
    ensures
        changes.filter(keep) == changes.skip(count),
    decreases changes.len(),
{
    reveal(Seq::filter);
    if changes.len() > 0 {
        let front = changes.drop_last();
        if count == changes.len() {
            filter_of_rest(front, keep, count - 1);
        } else {
            filter_of_rest(front, keep, count);
        }
    }
    assert(changes.filter(keep) =~= changes.skip(count));
}

/// A commit that answers the configures up to some point puts the last of their changes into
/// effect and leaves the later ones noted; every noted change stays a change.
pub proof fn commit_takes_changes_in_order(flag: NegotiatedView, commit: Serial, count: int)
    requires
        flag.answers_first(commit, count),
    ensures
        flag.after_commit(commit).committed == if count > 0 {
            flag.uncommitted[count - 1].1
        } else {
            flag.committed
        },
        flag.after_commit(commit).uncommitted == flag.uncommitted.skip(count),
        flag.after_commit(commit).last_sent() == flag.last_sent(),
        flag.alternates() ==> flag.after_commit(commit).alternates(),
{
    filter_of_split(flag.uncommitted, answered_by(commit), count);
    filter_of_rest(flag.uncommitted, not_answered_by(commit), count);
    if flag.alternates() {
        let after = flag.after_commit(commit);
        assert forall|i: int| 0 <= i < after.uncommitted.len() implies (
        #[trigger] after.uncommitted[i]).1 != (if i == 0 {
            after.committed
        } else {
            after.uncommitted[i - 1].1
        }) by {
            assert(flag.uncommitted[i + count].1 != (if i + count == 0 {
                flag.committed
            } else {
                flag.uncommitted[i + count - 1].1
            }));
        }
    }
}

/// Sending a configure, with a serial that is given out after the earlier ones, keeps the noted
/// changes in the order of their configures.
pub proof fn configures_note_changes_in_order(
    flag: NegotiatedView,
    first: Serial,
    steps: Seq<int>,
    step: int,
)
    requires
        sent_in_order(flag.uncommitted, first, steps),
        comes_after(step, steps),
    ensures
        sent_in_order(
            flag.sent(later(first, step)).uncommitted,
            first,
            if flag.last_sent() != flag.pending {
                steps.push(step)
            } else {
                steps
            },
        ),
{
    sending_keeps_the_order(flag.uncommitted, first, steps, flag.pending, step);
}

/// A commit answers the changes up to some point and none after it, as long as the serials were
/// given out one after the other and not too many of them. The changes after it stay in order.
pub proof fn commit_answers_the_first_changes(
    flag: NegotiatedView,
    first: Serial,
    steps: Seq<int>,
    step: int,
) -> (count: int)
    requires
        sent_in_order(flag.uncommitted, first, steps),
        0 <= step < WRAP_DISTANCE,
    ensures
        flag.answers_first(later(first, step), count),
        sent_in_order(
            flag.after_commit(later(first, step)).uncommitted,
            first,
            steps.skip(count),
        ),
{
    let count = answered_come_first(flag.uncommitted, first, steps, step);
    commit_takes_changes_in_order(flag, later(first, step), count);
    answering_keeps_the_order(flag.uncommitted, first, steps, count);
    count
}

/// Once the client has answered every configure, what was requested at the last one is in effect.
pub proof fn answered_request_is_in_effect(flag: NegotiatedView, serial: Serial, commit: Serial)
    requires
        flag.sent(serial).answers_first(commit, flag.sent(serial).uncommitted.len() as int),
    ensures
        flag.sent(serial).after_commit(commit) == NegotiatedView::settled(flag.pending),
{
    let sent = flag.sent(serial);
    commit_takes_changes_in_order(sent, commit, sent.uncommitted.len() as int);
    assert(sent.uncommitted.skip(sent.uncommitted.len() as int) =~= Seq::empty());
}

/// A commit with the same serial again changes nothing.
pub proof fn commit_again_changes_nothing(flag: NegotiatedView, commit: Serial)
    ensures
        flag.after_commit(commit).after_commit(commit) == flag.after_commit(commit),
{
    broadcast use Seq::lemma_filter_pred;

    let left = flag.after_commit(commit).uncommitted;
    assert forall|i: int| 0 <= i < left.len() implies !commit.no_older_than(
        (#[trigger] left[i]).0,
    ) by {
        assert(not_answered_by(commit)(left[i]));
    }
    filter_of_split(left, answered_by(commit), 0);
    filter_of_rest(left, not_answered_by(commit), 0);
    assert(left.skip(0) =~= left);
}

} // verus!
