use vstd::prelude::*;
use crate::interface::SourceSequence;
use crate::interface::Transform;
use crate::outcome::SourcePoll;
use crate::outcome::StreamError;
use crate::outcome::StreamPoll;
use crate::outcome::TerminalOutcome;
use crate::outcome::TransformPoll;

verus! {

/// One in-flight transformation: the raw item already pulled from the source
/// and the number of polls already spent on its pending computation.
#[derive(Clone, Copy, PartialEq, Eq, Structural, Debug)]
pub struct PendingTransformation {
    pub input: u64,
    pub polls: u64,
}

/// The outputs `t` produces for `items`, in order.
pub open spec fn outputs_of<T: Transform>(t: T, items: Seq<u64>) -> Seq<u64> {
    items.map_values(|x: u64| t.output(x))
}

/// The outputs `t` delivers from the raw `items` before the first item the
/// transform fails on.
pub open spec fn mapped_prefix<T: Transform>(t: T, items: Seq<u64>) -> Seq<u64>
    decreases items.len(),
{
    if items.len() == 0 {
        Seq::empty()
    } else if t.fails(items[0]) {
        Seq::empty()
    } else {
        seq![t.output(items[0])] + mapped_prefix(t, items.drop_first())
    }
}

/// Whether `t` fails on some item of `items`.
pub open spec fn fails_within<T: Transform>(t: T, items: Seq<u64>) -> bool
    decreases items.len(),
{
    items.len() > 0 && (t.fails(items[0]) || fails_within(t, items.drop_first()))
}

/// The mapping combinator: owns a source sequence and at most one in-flight
/// transformation, and exposes the same poll-based sequence contract it
/// consumes.
pub struct TransformedStream<S: SourceSequence, T: Transform> {
    stream: S,
    transform: T,
    pending: Option<PendingTransformation>,
    terminal: Option<TerminalOutcome>,
}

impl<S: SourceSequence, T: Transform> TransformedStream<S, T> {
    /// The owned source sequence.
    pub closed spec fn spec_source(&self) -> S {
        self.stream
    }

    /// The owned transform.
    pub closed spec fn spec_transform(&self) -> T {
        self.transform
    }

    /// The in-flight transformation, if one exists.
    pub closed spec fn spec_pending(&self) -> Option<PendingTransformation> {
        self.pending
    }

    /// The sticky terminal outcome, once one has been reached.
    pub closed spec fn spec_terminal(&self) -> Option<TerminalOutcome> {
        self.terminal
    }

    /// The number of concurrently in-flight transformations.
    pub open spec fn in_flight_count(&self) -> nat {
        if self.spec_pending() is Some {
            1
        } else {
            0
        }
    }

    /// Well-formedness: the source keeps its own invariant; a terminal
    /// stream holds no pending transformation; a pending transformation
    /// exists only while the source is not yet finished — its item was
    /// pulled before the source's terminal report — and has not been polled
    /// past the point where it resolves.
    pub open spec fn wf(&self) -> bool {
        &&& self.spec_source().inv()
        &&& self.spec_terminal() is Some ==> self.spec_pending() is None
        &&& self.spec_pending() is Some ==> !self.spec_source().finished()
        &&& self.spec_pending() matches Some(p)
                ==> p.polls <= self.spec_transform().suspensions(p.input)
    }

    /// How many `Suspended` polls the stream answers before its next
    /// non-suspended outcome: what is left of the pending transformation's
    /// suspensions, or the source's suspensions plus those of the
    /// transformation of the next item.
    pub open spec fn suspensions_until_ready(&self) -> int {
        match self.spec_terminal() {
            Some(_) => 0,
            None => match self.spec_pending() {
                Some(p) => self.spec_transform().suspensions(p.input) - p.polls,
                None => {
                    let src = self.spec_source();
                    if src.finished() {
                        0
                    } else if src.remaining().len() == 0 {
                        src.suspensions() as int
                    } else {
                        src.suspensions() + self.spec_transform().suspensions(
                            src.remaining()[0],
                        )
                    }
                },
            },
        }
    }

    /// The first non-suspended outcome the stream reports from this state.
    pub open spec fn ready_outcome(&self) -> StreamPoll {
        match self.spec_terminal() {
            Some(t) => t.replayed(),
            None => match self.spec_pending() {
                Some(p) => if self.spec_transform().fails(p.input) {
                    StreamPoll::ErrorSignal(StreamError::TransformError)
                } else {
                    StreamPoll::ItemAvailable(self.spec_transform().output(p.input))
                },
                None => {
                    let src = self.spec_source();
                    if src.finished() || src.remaining().len() == 0 {
                        if src.failing() {
                            StreamPoll::ErrorSignal(StreamError::SourceError)
                        } else {
                            StreamPoll::Exhausted
                        }
                    } else if self.spec_transform().fails(src.remaining()[0]) {
                        StreamPoll::ErrorSignal(StreamError::TransformError)
                    } else {
                        StreamPoll::ItemAvailable(
                            self.spec_transform().output(src.remaining()[0]),
                        )
                    }
                },
            },
        }
    }

    /// The measure that shrinks with every poll of a live stream: pulling an
    /// item steps past two half-steps of the first summand, and in between,
    /// each suspension spends one unit of the second.
    pub open spec fn poll_budget(&self) -> int {
        match self.spec_pending() {
            Some(p) => self.spec_transform().suspensions(p.input) - p.polls,
            None => self.spec_source().suspensions() as int,
        }
    }

    /// Create a stream by taking ownership of a positioned source and a
    /// transform. The pending slot starts empty and no terminal outcome has
    /// been reached.
    pub fn new(source: S, transform: T) -> (s: Self)
        requires
            source.inv(),
        ensures
            s.wf(),
            s.spec_source() == source,
            s.spec_transform() == transform,
            s.spec_pending() is None,
            s.spec_terminal() is None,
    {
        TransformedStream { stream: source, transform: transform, pending: None, terminal: None }
    }

    /// Poll for the next transformed item.
    ///
    /// A terminal stream replays its stored outcome without touching the
    /// source. A stream with a pending transformation polls only that
    /// transformation. An idle stream polls the source and, on a fresh item,
    /// begins its transformation and polls it once immediately, so a
    /// synchronously completing transform costs no extra suspension
    /// round-trip. Every failure of either collaborator drives the stream
    /// into the sticky errored state.
    pub fn poll_next(&mut self) -> (r: StreamPoll)
        requires
            old(self).wf(),
        ensures
            final(self).wf(),
            final(self).spec_transform() == old(self).spec_transform(),
            // Sticky terminal: replay the stored outcome, touch nothing.
            old(self).spec_terminal() matches Some(t)
                ==> *final(self) == *old(self) && r == t.replayed(),
            // A terminal outcome, once set, is never cleared or changed.
            old(self).spec_terminal() is Some
                ==> final(self).spec_terminal() == old(self).spec_terminal(),
            // The reported outcome and the recorded terminal state agree, so
            // an observed `Exhausted` or `ErrorSignal` replays forever after.
            r == StreamPoll::Exhausted
                <==> final(self).spec_terminal() == Some(TerminalOutcome::Exhausted),
            forall|e: StreamError|
                r == StreamPoll::ErrorSignal(e)
                    <==> final(self).spec_terminal() == Some(TerminalOutcome::Errored(e)),
            // A pending transformation is polled; the source is untouched.
            old(self).spec_terminal() is None
                ==> (old(self).spec_pending() matches Some(p) ==> ({
                    let t = old(self).spec_transform();
                    &&& final(self).spec_source() == old(self).spec_source()
                    &&& if p.polls < t.suspensions(p.input) {
                            &&& r == StreamPoll::Suspended
                            &&& final(self).spec_terminal() is None
                            &&& final(self).spec_pending() == Some(
                                PendingTransformation { input: p.input, polls: (p.polls + 1) as u64 },
                            )
                        } else if t.fails(p.input) {
                            &&& r == StreamPoll::ErrorSignal(StreamError::TransformError)
                            &&& final(self).spec_terminal() == Some(
                                TerminalOutcome::Errored(StreamError::TransformError),
                            )
                            &&& final(self).spec_pending() is None
                        } else {
                            &&& r == StreamPoll::ItemAvailable(t.output(p.input))
                            &&& final(self).spec_terminal() is None
                            &&& final(self).spec_pending() is None
                        }
                })),
            // An idle stream pulls from the source.
            old(self).spec_terminal() is None && old(self).spec_pending() is None
                ==> ({
                    let src = old(self).spec_source();
                    let t = old(self).spec_transform();
                    if src.finished() {
                        &&& final(self).spec_source() == src
                        &&& final(self).spec_pending() is None
                        &&& r == (if src.failing() {
                                StreamPoll::ErrorSignal(StreamError::SourceError)
                            } else {
                                StreamPoll::Exhausted
                            })
                        &&& final(self).spec_terminal() == Some(
                            if src.failing() {
                                TerminalOutcome::Errored(StreamError::SourceError)
                            } else {
                                TerminalOutcome::Exhausted
                            },
                        )
                    } else if src.suspensions() > 0 {
                        &&& r == StreamPoll::Suspended
                        &&& final(self).spec_pending() is None
                        &&& final(self).spec_terminal() is None
                        &&& final(self).spec_source().remaining() == src.remaining()
                        &&& !final(self).spec_source().finished()
                        &&& final(self).spec_source().failing() == src.failing()
                        &&& final(self).spec_source().suspensions() as int == src.suspensions() - 1
                    } else if src.remaining().len() > 0 {
                        let x = src.remaining()[0];
                        let n = t.suspensions(x);
                        &&& final(self).spec_source().remaining() == src.remaining().drop_first()
                        &&& !final(self).spec_source().finished()
                        &&& final(self).spec_source().failing() == src.failing()
                        &&& if n > 0 {
                                &&& r == StreamPoll::Suspended
                                &&& final(self).spec_pending() == Some(
                                    PendingTransformation { input: x, polls: 1 },
                                )
                                &&& final(self).spec_terminal() is None
                            } else if t.fails(x) {
                                &&& r == StreamPoll::ErrorSignal(StreamError::TransformError)
                                &&& final(self).spec_terminal() == Some(
                                    TerminalOutcome::Errored(StreamError::TransformError),
                                )
                                &&& final(self).spec_pending() is None
                            } else {
                                &&& r == StreamPoll::ItemAvailable(t.output(x))
                                &&& final(self).spec_pending() is None
                                &&& final(self).spec_terminal() is None
                            }
                    } else {
                        &&& final(self).spec_pending() is None
                        &&& final(self).spec_source().finished()
                        &&& final(self).spec_source().failing() == src.failing()
                        &&& r == (if src.failing() {
                                StreamPoll::ErrorSignal(StreamError::SourceError)
                            } else {
                                StreamPoll::Exhausted
                            })
                        &&& final(self).spec_terminal() == Some(
                            if src.failing() {
                                TerminalOutcome::Errored(StreamError::SourceError)
                            } else {
                                TerminalOutcome::Exhausted
                            },
                        )
                    }
                }),
    {
        match self.terminal {
            Some(TerminalOutcome::Exhausted) => StreamPoll::Exhausted,
            Some(TerminalOutcome::Errored(e)) => StreamPoll::ErrorSignal(e),
            None => {
                match self.pending {
                    Some(p) => {
                        match self.transform.poll_pending(p.input, p.polls) {
                            TransformPoll::Suspended => {
                                self.pending = Some(
                                    PendingTransformation { input: p.input, polls: p.polls + 1 },
                                );
                                StreamPoll::Suspended
                            },
                            TransformPoll::Failed => {
                                self.pending = None;
                                self.terminal = Some(
                                    TerminalOutcome::Errored(StreamError::TransformError),
                                );
                                StreamPoll::ErrorSignal(StreamError::TransformError)
                            },
                            TransformPoll::Ready(v) => {
                                self.pending = None;
                                StreamPoll::ItemAvailable(v)
                            },
                        }
                    },
                    None => {
                        match self.stream.poll_next() {
                            SourcePoll::Suspended => StreamPoll::Suspended,
                            SourcePoll::Exhausted => {
                                self.terminal = Some(TerminalOutcome::Exhausted);
                                StreamPoll::Exhausted
                            },
                            SourcePoll::Failed => {
                                self.terminal = Some(
                                    TerminalOutcome::Errored(StreamError::SourceError),
                                );
                                StreamPoll::ErrorSignal(StreamError::SourceError)
                            },
                            SourcePoll::ItemAvailable(x) => {
                                match self.transform.poll_pending(x, 0) {
                                    TransformPoll::Suspended => {
                                        self.pending = Some(
                                            PendingTransformation { input: x, polls: 1 },
                                        );
                                        StreamPoll::Suspended
                                    },
                                    TransformPoll::Failed => {
                                        self.terminal = Some(
                                            TerminalOutcome::Errored(StreamError::TransformError),
                                        );
                                        StreamPoll::ErrorSignal(StreamError::TransformError)
                                    },
                                    TransformPoll::Ready(v) => StreamPoll::ItemAvailable(v),
                                }
                            },
                        }
                    },
                }
            },
        }
    }

    /// Poll repeatedly until a non-suspended outcome arrives, counting the
    /// `Suspended` polls answered on the way.
    ///
    /// Suspension transparency: the count is exactly the number of times the
    /// collaborators suspend before the outcome resolves. In particular, for
    /// an idle stream over a source that yields its next item immediately,
    /// a transform that suspends `k` times on that item makes `poll_next`
    /// return `Suspended` exactly `k` times before the item is available.
    #[verifier::loop_isolation(false)]
    pub fn next_ready(&mut self) -> (res: (u64, StreamPoll))
        requires
            old(self).wf(),
            old(self).suspensions_until_ready() <= u64::MAX,
        ensures
            final(self).wf(),
            res.0 == old(self).suspensions_until_ready(),
            res.1 == old(self).ready_outcome(),
            !(res.1 is Suspended),
            final(self).spec_transform() == old(self).spec_transform(),
            res.1 == StreamPoll::Exhausted
                <==> final(self).spec_terminal() == Some(TerminalOutcome::Exhausted),
            forall|e: StreamError|
                res.1 == StreamPoll::ErrorSignal(e)
                    <==> final(self).spec_terminal() == Some(TerminalOutcome::Errored(e)),
    {
        let mut count: u64 = 0;
        loop
            invariant
                self.wf(),
                self.spec_transform() == old(self).spec_transform(),
                self.ready_outcome() == old(self).ready_outcome(),
                count + self.suspensions_until_ready() == old(self).suspensions_until_ready(),
                0 <= self.suspensions_until_ready(),
            decreases self.suspensions_until_ready(),
        {
            let ghost pre = *self;
            let r = self.poll_next();
            match r {
                StreamPoll::Suspended => {
                    proof {
                        assert(pre.suspensions_until_ready() >= 1);
                    }
                    count = count + 1;
                },
                _ => {
                    return (count, r);
                },
            }
        }
    }

    /// Drain a fresh stream to exhaustion, collecting every transformed
    /// item.
    ///
    /// For a finite source of N items, none of which the transform fails on,
    /// the collected outputs are exactly the transformed source items: in
    /// source order, N in number, nothing dropped and nothing duplicated.
    /// The stream ends in the sticky exhausted state, so every later poll
    /// keeps returning `Exhausted`.
    #[verifier::loop_isolation(false)]
    pub fn collect_remaining(&mut self) -> (out: Vec<u64>)
        requires
            old(self).wf(),
            old(self).spec_terminal() is None,
            old(self).spec_pending() is None,
            !old(self).spec_source().finished(),
            !old(self).spec_source().failing(),
            forall|i: int|
                0 <= i < old(self).spec_source().remaining().len()
                    ==> !old(self).spec_transform().fails(
                        #[trigger] old(self).spec_source().remaining()[i],
                    ),
        ensures
            out@ == outputs_of(old(self).spec_transform(), old(self).spec_source().remaining()),
            final(self).wf(),
            final(self).spec_terminal() == Some(TerminalOutcome::Exhausted),
    {
        let ghost t = old(self).spec_transform();
        let ghost full = old(self).spec_source().remaining();
        let mut out: Vec<u64> = Vec::new();
        loop
            invariant
                self.wf(),
                self.spec_transform() == t,
                self.spec_terminal() is None,
                !self.spec_source().finished(),
                !self.spec_source().failing(),
                forall|i: int|
                    0 <= i < self.spec_source().remaining().len()
                        ==> !t.fails(#[trigger] self.spec_source().remaining()[i]),
                match self.spec_pending() {
                    Some(p) => !t.fails(p.input) && out@ + seq![t.output(p.input)]
                        + outputs_of(t, self.spec_source().remaining()) == outputs_of(t, full),
                    None => out@ + outputs_of(t, self.spec_source().remaining()) == outputs_of(
                        t,
                        full,
                    ),
                },
            decreases
                    2 * self.spec_source().remaining().len() + self.in_flight_count(),
                    self.poll_budget(),
        {
            let ghost pre = *self;
            let r = self.poll_next();
            proof {
                if pre.spec_pending() is None && pre.spec_source().suspensions() == 0
                    && pre.spec_source().remaining().len() > 0 {
                    // Pulling an item peels the head off the mapped remainder.
                    assert(outputs_of(t, pre.spec_source().remaining()) =~= seq![
                        t.output(pre.spec_source().remaining()[0]),
                    ] + outputs_of(t, pre.spec_source().remaining().drop_first()));
                }
            }
            match r {
                StreamPoll::Suspended => {},
                StreamPoll::ItemAvailable(v) => {
                    let ghost out_pre = out@;
                    out.push(v);
                    proof {
                        assert(out@ =~= out_pre + seq![v]);
                        assert(out@ + outputs_of(t, self.spec_source().remaining()) =~= outputs_of(
                            t,
                            full,
                        ));
                    }
                },
                StreamPoll::Exhausted => {
                    proof {
                        assert(pre.spec_source().remaining().len() == 0);
                        assert(outputs_of(t, pre.spec_source().remaining()).len() == 0);
                        assert(out@ =~= out@ + outputs_of(t, pre.spec_source().remaining()));
                        assert(out@ =~= outputs_of(t, full));
                    }
                    return out;
                },
                StreamPoll::ErrorSignal(_) => {
                    // Unreachable: the source does not fail and the transform
                    // fails on none of the remaining items.
                    return vstd::pervasive::unreached();
                },
            }
        }
    }
}

/// A transformed stream is itself a source sequence, so one can be the
/// source of another: the composite yields the transformed items up to the
/// first failure, suspends exactly as often as its collaborators do, and
/// ends in failure when either collaborator fails.
impl<S: SourceSequence, T: Transform> SourceSequence for TransformedStream<S, T> {
    open spec fn remaining(&self) -> Seq<u64> {
        match self.spec_terminal() {
            Some(_) => Seq::empty(),
            None => match self.spec_pending() {
                Some(p) => if self.spec_transform().fails(p.input) {
                    Seq::empty()
                } else {
                    seq![self.spec_transform().output(p.input)] + mapped_prefix(
                        self.spec_transform(),
                        self.spec_source().remaining(),
                    )
                },
                None => if self.spec_source().finished() {
                    Seq::empty()
                } else {
                    mapped_prefix(self.spec_transform(), self.spec_source().remaining())
                },
            },
        }
    }

    open spec fn suspensions(&self) -> nat {
        if self.suspensions_until_ready() >= 0 {
            self.suspensions_until_ready() as nat
        } else {
            0
        }
    }

    open spec fn finished(&self) -> bool {
        self.spec_terminal() is Some
    }

    open spec fn failing(&self) -> bool {
        match self.spec_terminal() {
            Some(TerminalOutcome::Exhausted) => false,
            Some(TerminalOutcome::Errored(_)) => true,
            None => match self.spec_pending() {
                Some(p) => self.spec_transform().fails(p.input) || fails_within(
                    self.spec_transform(),
                    self.spec_source().remaining(),
                ) || self.spec_source().failing(),
                None => if self.spec_source().finished() {
                    self.spec_source().failing()
                } else {
                    fails_within(self.spec_transform(), self.spec_source().remaining())
                        || self.spec_source().failing()
                },
            },
        }
    }

    open spec fn inv(&self) -> bool {
        self.wf()
    }

    fn poll_next(&mut self) -> (r: SourcePoll) {
        let ghost pre = *self;
        // The inherent poll does the work; this impl only renders the
        // outcome in the source vocabulary, where both error kinds surface
        // as a plain failure of the composite source.
        let out = self.poll_next();
        proof {
            let t = pre.spec_transform();
            let rem = pre.spec_source().remaining();
            if pre.spec_terminal() is None {
                match pre.spec_pending() {
                    Some(p) => {
                        if !t.fails(p.input) {
                            assert((seq![t.output(p.input)] + mapped_prefix(
                                t,
                                rem,
                            )).drop_first() =~= mapped_prefix(t, rem));
                        }
                    },
                    None => {
                        if !pre.spec_source().finished() && rem.len() > 0 && !t.fails(rem[0]) {
                            assert((seq![t.output(rem[0])] + mapped_prefix(
                                t,
                                rem.drop_first(),
                            )).drop_first() =~= mapped_prefix(t, rem.drop_first()));
                        }
                    },
                }
            }
        }
        match out {
            StreamPoll::Suspended => SourcePoll::Suspended,
            StreamPoll::ItemAvailable(v) => SourcePoll::ItemAvailable(v),
            StreamPoll::Exhausted => SourcePoll::Exhausted,
            StreamPoll::ErrorSignal(_) => SourcePoll::Failed,
        }
    }
}

/// On items the transform fails on nowhere, the delivered prefix is the
/// whole transformed sequence.
pub proof fn lemma_mapped_prefix_total<T: Transform>(t: T, items: Seq<u64>)
    requires
        forall|i: int| 0 <= i < items.len() ==> !t.fails(#[trigger] items[i]),
    ensures
        mapped_prefix(t, items) == outputs_of(t, items),
    decreases items.len(),
{
    if items.len() == 0 {
        assert(mapped_prefix(t, items) =~= outputs_of(t, items));
    } else {
        assert forall|i: int|
            0 <= i < items.drop_first().len() implies !t.fails(
            #[trigger] items.drop_first()[i],
        ) by {
            assert(items.drop_first()[i] == items[i + 1]);
        }
        lemma_mapped_prefix_total(t, items.drop_first());
        assert(mapped_prefix(t, items) =~= outputs_of(t, items));
    }
}

/// The transform fails within a sequence exactly when it fails on one of
/// its items.
pub proof fn lemma_fails_within_iff<T: Transform>(t: T, items: Seq<u64>)
    ensures
        fails_within(t, items) <==> exists|i: int|
            0 <= i < items.len() && t.fails(#[trigger] items[i]),
    decreases items.len(),
{
    if items.len() > 0 {
        lemma_fails_within_iff(t, items.drop_first());
        if t.fails(items[0]) {
            assert(0 <= 0 < items.len() && t.fails(items[0]));
        } else if fails_within(t, items.drop_first()) {
            let j = choose|j: int|
                0 <= j < items.drop_first().len() && t.fails(#[trigger] items.drop_first()[j]);
            assert(items[j + 1] == items.drop_first()[j]);
        } else {
            assert forall|i: int| 0 <= i < items.len() implies !t.fails(#[trigger] items[i]) by {
                if i > 0 {
                    assert(items[i] == items.drop_first()[i - 1]);
                }
            }
        }
    }
}

/// At-most-one invariant: a transformed stream never holds more than one
/// concurrently in-flight transformation.
pub proof fn lemma_at_most_one_in_flight<S: SourceSequence, T: Transform>(
    s: &TransformedStream<S, T>,
)
    ensures
        s.in_flight_count() <= 1,
{
}

} // verus!
