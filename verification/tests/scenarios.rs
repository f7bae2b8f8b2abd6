use transform_stream::fixtures::DelayedIncrement;
use transform_stream::fixtures::FailingTransform;
use transform_stream::fixtures::MultiplyTransform;
use transform_stream::fixtures::ScriptedSource;
use transform_stream::fixtures::TestStream;
use transform_stream::outcome::StreamError;
use transform_stream::outcome::StreamPoll;
use transform_stream::stream::TransformedStream;

#[test]
fn counting_source_times_hundred_in_order() {
    let mut s = TransformedStream::new(TestStream::new(), MultiplyTransform {});
    for i in 0..10u64 {
        assert_eq!(s.poll_next(), StreamPoll::ItemAvailable(i * 100));
    }
    for _ in 0..5 {
        assert_eq!(s.poll_next(), StreamPoll::Exhausted);
    }
}

#[test]
fn collect_remaining_counting_source() {
    let mut s = TransformedStream::new(TestStream::new(), MultiplyTransform {});
    let out = s.collect_remaining();
    assert_eq!(out, vec![0, 100, 200, 300, 400, 500, 600, 700, 800, 900]);
    assert_eq!(s.poll_next(), StreamPoll::Exhausted);
}

#[test]
fn collect_remaining_default_counting_source() {
    let mut s = TransformedStream::new(TestStream::default(), MultiplyTransform {});
    let out = s.collect_remaining();
    assert_eq!(out.len(), 10);
    assert_eq!(out[3], 300);
}

#[test]
fn single_suspension_transform_poll_sequence() {
    let src = ScriptedSource::new(vec![5, 7], 0, false);
    let mut s = TransformedStream::new(src, DelayedIncrement {});
    assert_eq!(s.poll_next(), StreamPoll::Suspended);
    assert_eq!(s.poll_next(), StreamPoll::ItemAvailable(6));
    assert_eq!(s.poll_next(), StreamPoll::Suspended);
    assert_eq!(s.poll_next(), StreamPoll::ItemAvailable(8));
    assert_eq!(s.poll_next(), StreamPoll::Exhausted);
}

#[test]
fn immediately_exhausted_source() {
    let src = ScriptedSource::new(vec![], 0, false);
    let mut s = TransformedStream::new(src, FailingTransform { fail_on: 0 });
    assert_eq!(s.poll_next(), StreamPoll::Exhausted);
    assert_eq!(s.poll_next(), StreamPoll::Exhausted);
}

#[test]
fn failing_transform_is_terminal_and_sticky() {
    let src = ScriptedSource::new(vec![1, 2, 3], 0, false);
    let mut s = TransformedStream::new(src, FailingTransform { fail_on: 2 });
    assert_eq!(s.poll_next(), StreamPoll::ItemAvailable(1));
    assert_eq!(
        s.poll_next(),
        StreamPoll::ErrorSignal(StreamError::TransformError)
    );
    for _ in 0..5 {
        assert_eq!(
            s.poll_next(),
            StreamPoll::ErrorSignal(StreamError::TransformError)
        );
    }
}

#[test]
fn failing_source_is_terminal_and_sticky() {
    let src = ScriptedSource::new(vec![], 0, true);
    let mut s = TransformedStream::new(src, MultiplyTransform {});
    assert_eq!(
        s.poll_next(),
        StreamPoll::ErrorSignal(StreamError::SourceError)
    );
    for _ in 0..5 {
        assert_eq!(
            s.poll_next(),
            StreamPoll::ErrorSignal(StreamError::SourceError)
        );
    }
}

#[test]
fn source_failure_after_items() {
    let src = ScriptedSource::new(vec![3], 0, true);
    let mut s = TransformedStream::new(src, MultiplyTransform {});
    assert_eq!(s.poll_next(), StreamPoll::ItemAvailable(300));
    assert_eq!(
        s.poll_next(),
        StreamPoll::ErrorSignal(StreamError::SourceError)
    );
    assert_eq!(
        s.poll_next(),
        StreamPoll::ErrorSignal(StreamError::SourceError)
    );
}

#[test]
fn suspending_source_is_transparent() {
    let src = ScriptedSource::new(vec![4], 1, false);
    let mut s = TransformedStream::new(src, MultiplyTransform {});
    assert_eq!(s.poll_next(), StreamPoll::Suspended);
    assert_eq!(s.poll_next(), StreamPoll::ItemAvailable(400));
    assert_eq!(s.poll_next(), StreamPoll::Suspended);
    assert_eq!(s.poll_next(), StreamPoll::Exhausted);
}

#[test]
fn exhaustion_is_sticky_after_counting_out() {
    let mut s = TransformedStream::new(TestStream::new(), MultiplyTransform {});
    let mut outputs = Vec::new();
    loop {
        match s.poll_next() {
            StreamPoll::ItemAvailable(v) => outputs.push(v),
            StreamPoll::Exhausted => break,
            StreamPoll::Suspended => {}
            StreamPoll::ErrorSignal(_) => panic!("unexpected error"),
        }
    }
    assert_eq!(outputs.len(), 10);
    for _ in 0..3 {
        assert_eq!(s.poll_next(), StreamPoll::Exhausted);
    }
}
