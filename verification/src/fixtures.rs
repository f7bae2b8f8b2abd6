use vstd::prelude::*;
use crate::interface::SourceSequence;
use crate::interface::Transform;
use crate::outcome::SourcePoll;
use crate::outcome::TransformPoll;

verus! {

/// How many items `TestStream` yields.
pub const TEST_STREAM_LEN: u64 = 10;

/// The counting test source: yields 0, 1, ..., 9 immediately, one item per
/// poll, then reports `Exhausted` forever. It never suspends and never
/// fails.
pub struct TestStream {
    value: u64,
}

impl TestStream {
    /// A fresh counting source, positioned before its first item.
    pub fn new() -> (s: Self)
        ensures
            s.remaining() == Seq::new(TEST_STREAM_LEN as nat, |i: int| i as u64),
            s.suspensions() == 0,
            !s.finished(),
            !s.failing(),
            s.inv(),
    {
        let s = TestStream { value: 0 };
        proof {
            assert(s.remaining() =~= Seq::new(TEST_STREAM_LEN as nat, |i: int| i as u64));
        }
        s
    }
}

impl Default for TestStream {
    /// Same as `TestStream::new`: positioned before its first item.
    fn default() -> (s: Self)
        ensures
            s.remaining() == Seq::new(TEST_STREAM_LEN as nat, |i: int| i as u64),
            s.suspensions() == 0,
            !s.finished(),
            !s.failing(),
            s.inv(),
    {
        TestStream::new()
    }
}

impl SourceSequence for TestStream {
    closed spec fn remaining(&self) -> Seq<u64> {
        if self.value < TEST_STREAM_LEN {
            Seq::new((TEST_STREAM_LEN - self.value) as nat, |i: int| (self.value + i) as u64)
        } else {
            Seq::empty()
        }
    }

    open spec fn suspensions(&self) -> nat {
        0
    }

    closed spec fn finished(&self) -> bool {
        self.value > TEST_STREAM_LEN
    }

    open spec fn failing(&self) -> bool {
        false
    }

    open spec fn inv(&self) -> bool {
        true
    }

    fn poll_next(&mut self) -> (r: SourcePoll) {
        if self.value < TEST_STREAM_LEN {
            let v = self.value;
            self.value = self.value + 1;
            proof {
                assert(self.remaining() =~= old(self).remaining().drop_first());
            }
            SourcePoll::ItemAvailable(v)
        } else {
            // The counter one past the limit records that exhaustion has
            // been reported, which makes the report sticky.
            if self.value == TEST_STREAM_LEN {
                self.value = TEST_STREAM_LEN + 1;
            }
            SourcePoll::Exhausted
        }
    }
}

/// A scripted finite source: yields the given items in order, answering a
/// fixed number of `Suspended` polls before each outcome, and ends in
/// exhaustion or, when so configured, in failure.
pub struct ScriptedSource {
    items: Vec<u64>,
    cursor: usize,
    pause: u64,
    pauses_left: u64,
    fail_at_end: bool,
    done: bool,
}

impl ScriptedSource {
    /// The number of `Suspended` polls scripted before every outcome.
    pub closed spec fn spec_pause(&self) -> nat {
        self.pause as nat
    }

    /// A source that yields `items` in order, suspending `pause` times before
    /// each item and before the terminal outcome, which is a failure when
    /// `fail_at_end` is set and exhaustion otherwise.
    pub fn new(items: Vec<u64>, pause: u64, fail_at_end: bool) -> (s: Self)
        ensures
            s.remaining() == items@,
            s.suspensions() == pause,
            s.spec_pause() == pause,
            !s.finished(),
            s.failing() == fail_at_end,
            s.inv(),
    {
        let s = ScriptedSource {
            items: items,
            cursor: 0,
            pause: pause,
            pauses_left: pause,
            fail_at_end: fail_at_end,
            done: false,
        };
        proof {
            assert(s.remaining() =~= s.items@);
        }
        s
    }
}

impl SourceSequence for ScriptedSource {
    closed spec fn remaining(&self) -> Seq<u64> {
        if self.cursor <= self.items@.len() {
            self.items@.subrange(self.cursor as int, self.items@.len() as int)
        } else {
            Seq::empty()
        }
    }

    closed spec fn suspensions(&self) -> nat {
        self.pauses_left as nat
    }

    closed spec fn finished(&self) -> bool {
        self.done
    }

    closed spec fn failing(&self) -> bool {
        self.fail_at_end
    }

    open spec fn inv(&self) -> bool {
        true
    }

    fn poll_next(&mut self) -> (r: SourcePoll)
        ensures
            final(self).spec_pause() == old(self).spec_pause(),
            !old(self).finished() && old(self).suspensions() == 0
                && old(self).remaining().len() > 0
                ==> final(self).suspensions() == old(self).spec_pause(),
    {
        if self.done {
            if self.fail_at_end {
                SourcePoll::Failed
            } else {
                SourcePoll::Exhausted
            }
        } else if self.pauses_left > 0 {
            self.pauses_left = self.pauses_left - 1;
            SourcePoll::Suspended
        } else if self.cursor < self.items.len() {
            let v = self.items[self.cursor];
            self.cursor = self.cursor + 1;
            self.pauses_left = self.pause;
            proof {
                assert(self.remaining() =~= old(self).remaining().drop_first());
            }
            SourcePoll::ItemAvailable(v)
        } else {
            self.done = true;
            if self.fail_at_end {
                SourcePoll::Failed
            } else {
                SourcePoll::Exhausted
            }
        }
    }
}

/// The immediate scaling transform: maps an item to 100 times its value,
/// saturating at `u64::MAX`. It completes synchronously — it never suspends
/// — and never fails.
pub struct MultiplyTransform {}

impl Transform for MultiplyTransform {
    open spec fn output(&self, input: u64) -> u64 {
        if 100 * input <= u64::MAX {
            (100 * input) as u64
        } else {
            u64::MAX
        }
    }

    open spec fn fails(&self, input: u64) -> bool {
        false
    }

    open spec fn suspensions(&self, input: u64) -> u64 {
        0
    }

    fn poll_pending(&self, input: u64, polls_done: u64) -> (r: TransformPoll) {
        if input <= u64::MAX / 100 {
            TransformPoll::Ready(input * 100)
        } else {
            TransformPoll::Ready(u64::MAX)
        }
    }
}

/// The single-suspension increment transform: suspends exactly once, then
/// maps an item to its value plus one, saturating at `u64::MAX`. It never
/// fails.
pub struct DelayedIncrement {}

impl Transform for DelayedIncrement {
    open spec fn output(&self, input: u64) -> u64 {
        if input < u64::MAX {
            (input + 1) as u64
        } else {
            u64::MAX
        }
    }

    open spec fn fails(&self, input: u64) -> bool {
        false
    }

    open spec fn suspensions(&self, input: u64) -> u64 {
        1
    }

    fn poll_pending(&self, input: u64, polls_done: u64) -> (r: TransformPoll) {
        if polls_done < 1 {
            TransformPoll::Suspended
        } else if input < u64::MAX {
            TransformPoll::Ready(input + 1)
        } else {
            TransformPoll::Ready(u64::MAX)
        }
    }
}

/// A transform that fails on one designated item and passes every other
/// item through unchanged, completing synchronously.
pub struct FailingTransform {
    /// The item whose transformation fails.
    pub fail_on: u64,
}

impl Transform for FailingTransform {
    open spec fn output(&self, input: u64) -> u64 {
        input
    }

    open spec fn fails(&self, input: u64) -> bool {
        input == self.fail_on
    }

    open spec fn suspensions(&self, input: u64) -> u64 {
        0
    }

    fn poll_pending(&self, input: u64, polls_done: u64) -> (r: TransformPoll) {
        if input == self.fail_on {
            TransformPoll::Failed
        } else {
            TransformPoll::Ready(input)
        }
    }
}

} // verus!
