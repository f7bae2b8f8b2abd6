use vstd::prelude::*;

verus! {

/// One poll of a source sequence: no result yet, the next raw item,
/// the end of the sequence, or a failure of the source itself.
#[derive(Clone, Copy, PartialEq, Eq, Structural, Debug)]
pub enum SourcePoll {
    Suspended,
    ItemAvailable(u64),
    Exhausted,
    Failed,
}

/// One poll of an in-flight transformation: not resolved yet, the
/// transformed output, or a failure of the transform.
#[derive(Clone, Copy, PartialEq, Eq, Structural, Debug)]
pub enum TransformPoll {
    Suspended,
    Ready(u64),
    Failed,
}

/// Which collaborator an error came from. Both kinds are opaque: nothing
/// but their origin is recorded, and both are terminal for the stream.
#[derive(Clone, Copy, PartialEq, Eq, Structural, Debug)]
pub enum StreamError {
    SourceError,
    TransformError,
}

/// One poll of the transformed stream: no result yet, the next transformed
/// item, the end of the stream, or a sticky error signal.
#[derive(Clone, Copy, PartialEq, Eq, Structural, Debug)]
pub enum StreamPoll {
    Suspended,
    ItemAvailable(u64),
    Exhausted,
    ErrorSignal(StreamError),
}

/// The sticky terminal outcome of a transformed stream: once reached, every
/// later poll replays it and the source is never polled again.
#[derive(Clone, Copy, PartialEq, Eq, Structural, Debug)]
pub enum TerminalOutcome {
    Exhausted,
    Errored(StreamError),
}

impl TerminalOutcome {
    /// The poll result replayed on every poll once this outcome is reached.
    pub open spec fn replayed(self) -> StreamPoll {
        match self {
            TerminalOutcome::Exhausted => StreamPoll::Exhausted,
            TerminalOutcome::Errored(e) => StreamPoll::ErrorSignal(e),
        }
    }
}

} // verus!
