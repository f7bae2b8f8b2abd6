use vstd::prelude::*;
use crate::outcome::SourcePoll;
use crate::outcome::TransformPoll;

verus! {

/// An asynchronous source sequence, polled one outcome at a time.
///
/// A source is modelled by the items it has yet to yield (`remaining`), the
/// number of `Suspended` polls it answers before its next item or terminal
/// outcome (`suspensions`), whether it has already reported a terminal
/// outcome (`finished`), and whether it ends in failure rather than
/// exhaustion (`failing`). A terminal outcome is sticky: once reported, every
/// later poll replays it and leaves the source untouched.
pub trait SourceSequence: Sized {
    /// The items the source has yet to yield, in order.
    spec fn remaining(&self) -> Seq<u64>;

    /// How many `Suspended` polls come before the next item or terminal
    /// outcome.
    spec fn suspensions(&self) -> nat;

    /// Whether a terminal outcome (`Exhausted` or `Failed`) has already been
    /// reported.
    spec fn finished(&self) -> bool;

    /// Whether the source ends in failure rather than exhaustion.
    spec fn failing(&self) -> bool;

    /// The implementation's own well-formedness, established by its
    /// constructors and preserved by every poll.
    spec fn inv(&self) -> bool;

    /// Poll for the next outcome of the sequence.
    fn poll_next(&mut self) -> (r: SourcePoll)
        requires
            old(self).inv(),
        ensures
            final(self).inv(),
            old(self).finished() ==> ({
                &&& *final(self) == *old(self)
                &&& r == (if old(self).failing() {
                        SourcePoll::Failed
                    } else {
                        SourcePoll::Exhausted
                    })
            }),
            !old(self).finished() && old(self).suspensions() > 0 ==> ({
                &&& r == SourcePoll::Suspended
                &&& !final(self).finished()
                &&& final(self).remaining() == old(self).remaining()
                &&& final(self).failing() == old(self).failing()
                &&& final(self).suspensions() as int == old(self).suspensions() - 1
            }),
            !old(self).finished() && old(self).suspensions() == 0
                && old(self).remaining().len() > 0 ==> ({
                &&& r == SourcePoll::ItemAvailable(old(self).remaining()[0])
                &&& !final(self).finished()
                &&& final(self).remaining() == old(self).remaining().drop_first()
                &&& final(self).failing() == old(self).failing()
            }),
            !old(self).finished() && old(self).suspensions() == 0
                && old(self).remaining().len() == 0 ==> ({
                &&& final(self).finished()
                &&& final(self).remaining().len() == 0
                &&& final(self).failing() == old(self).failing()
                &&& r == (if old(self).failing() {
                        SourcePoll::Failed
                    } else {
                        SourcePoll::Exhausted
                    })
            }),
    ;
}

/// An asynchronous per-item transform.
///
/// A transform is deterministic and free of cross-item side effects: for a
/// given input it produces a fixed output (`output`), fails or not
/// (`fails`), and suspends a fixed number of times before resolving
/// (`suspensions`). An in-flight transformation is therefore fully described
/// by its input item together with the number of polls already spent on it.
pub trait Transform: Sized {
    /// The output the transform produces for `input`.
    spec fn output(&self, input: u64) -> u64;

    /// Whether the transformation of `input` ends in failure.
    spec fn fails(&self, input: u64) -> bool;

    /// How many times the transformation of `input` suspends before it
    /// resolves.
    spec fn suspensions(&self, input: u64) -> u64;

    /// Poll the in-flight transformation of `input` after `polls_done`
    /// earlier polls. Beginning a transformation and polling it for the
    /// first time is a call with `polls_done == 0`.
    fn poll_pending(&self, input: u64, polls_done: u64) -> (r: TransformPoll)
        ensures
            polls_done < self.suspensions(input) ==> r == TransformPoll::Suspended,
            polls_done >= self.suspensions(input) && self.fails(input)
                ==> r == TransformPoll::Failed,
            polls_done >= self.suspensions(input) && !self.fails(input)
                ==> r == TransformPoll::Ready(self.output(input)),
    ;
}

} // verus!
