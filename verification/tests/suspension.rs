use transform_stream::fixtures::DelayedIncrement;
use transform_stream::fixtures::FailingTransform;
use transform_stream::fixtures::MultiplyTransform;
use transform_stream::fixtures::ScriptedSource;
use transform_stream::outcome::StreamError;
use transform_stream::outcome::StreamPoll;
use transform_stream::stream::TransformedStream;

#[test]
fn next_ready_counts_transform_suspensions() {
    let src = ScriptedSource::new(vec![5], 0, false);
    let mut s = TransformedStream::new(src, DelayedIncrement {});
    assert_eq!(s.next_ready(), (1, StreamPoll::ItemAvailable(6)));
    assert_eq!(s.next_ready(), (0, StreamPoll::Exhausted));
}

#[test]
fn next_ready_counts_source_and_transform_suspensions() {
    let src = ScriptedSource::new(vec![5, 9], 2, false);
    let mut s = TransformedStream::new(src, DelayedIncrement {});
    assert_eq!(s.next_ready(), (3, StreamPoll::ItemAvailable(6)));
    assert_eq!(s.next_ready(), (3, StreamPoll::ItemAvailable(10)));
    assert_eq!(s.next_ready(), (2, StreamPoll::Exhausted));
    assert_eq!(s.next_ready(), (0, StreamPoll::Exhausted));
}

#[test]
fn next_ready_reports_failure() {
    let src = ScriptedSource::new(vec![8], 0, false);
    let mut s = TransformedStream::new(src, FailingTransform { fail_on: 8 });
    assert_eq!(
        s.next_ready(),
        (0, StreamPoll::ErrorSignal(StreamError::TransformError))
    );
    assert_eq!(
        s.next_ready(),
        (0, StreamPoll::ErrorSignal(StreamError::TransformError))
    );
}

#[test]
fn immediate_transform_never_suspends() {
    let src = ScriptedSource::new(vec![1, 2, 3], 0, false);
    let mut s = TransformedStream::new(src, MultiplyTransform {});
    assert_eq!(s.next_ready(), (0, StreamPoll::ItemAvailable(100)));
    assert_eq!(s.next_ready(), (0, StreamPoll::ItemAvailable(200)));
    assert_eq!(s.next_ready(), (0, StreamPoll::ItemAvailable(300)));
    assert_eq!(s.next_ready(), (0, StreamPoll::Exhausted));
}

#[test]
fn multiply_saturates_at_max() {
    let src = ScriptedSource::new(vec![u64::MAX, 1], 0, false);
    let mut s = TransformedStream::new(src, MultiplyTransform {});
    assert_eq!(s.poll_next(), StreamPoll::ItemAvailable(u64::MAX));
    assert_eq!(s.poll_next(), StreamPoll::ItemAvailable(100));
    assert_eq!(s.poll_next(), StreamPoll::Exhausted);
}

#[test]
fn increment_saturates_at_max() {
    let src = ScriptedSource::new(vec![u64::MAX], 0, false);
    let mut s = TransformedStream::new(src, DelayedIncrement {});
    assert_eq!(s.poll_next(), StreamPoll::Suspended);
    assert_eq!(s.poll_next(), StreamPoll::ItemAvailable(u64::MAX));
    assert_eq!(s.poll_next(), StreamPoll::Exhausted);
}
