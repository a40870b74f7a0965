use tracing_service::EchoWorker;
use tracing_service::OfferOutcome;
use tracing_service::QueueSource;
use tracing_service::ResponseStream;
use tracing_service::ScriptedWorker;
use tracing_service::SendRefused;
use tracing_service::SequenceSource;
use tracing_service::ServiceLayer;
use tracing_service::StreamPoll;
use tracing_service::SyncSender;
use tracing_service::echo_all;
use tracing_service::CallPoll;
use tracing_service::ReadyPoll;
use tracing_service::Worker;

/// An instrumented worker that fails the test if it is ever asked to work
/// while a prior call is unresolved.
struct StrictWorker {
    busy: bool,
    slot: Option<u64>,
}

impl Worker<u64> for StrictWorker {
    type Response = u64;
    type Error = u64;

    fn poll_ready(&mut self) -> ReadyPoll<u64> {
        assert!(!self.busy, "readiness checked while a prior call is unresolved");
        ReadyPoll::Ready
    }

    fn call(&mut self, req: u64) {
        assert!(!self.busy, "called while a prior call is unresolved");
        self.busy = true;
        self.slot = Some(req);
    }

    fn poll_call(&mut self) -> CallPoll<u64, u64> {
        assert!(self.busy, "completion polled with nothing in flight");
        self.busy = false;
        CallPoll::Done(Ok(self.slot.take().unwrap()))
    }
}

#[test]
fn at_most_one_call_in_flight() {
    let mut source = SequenceSource::new(vec![1u64, 2, 3, 4]);
    let mut stream = ResponseStream::new(StrictWorker { busy: false, slot: None });
    let mut seen = Vec::new();
    loop {
        match stream.poll_next(&mut source) {
            StreamPoll::Yielded(Ok(v)) => seen.push(v),
            StreamPoll::Yielded(Err(_)) => panic!("the strict worker never fails a call"),
            StreamPoll::Finished => break,
            StreamPoll::Pending => panic!("the strict worker never stalls"),
        }
    }
    assert_eq!(seen, vec![1, 2, 3, 4]);
}

#[test]
fn echo_scenario_two_strings() {
    // Worker always ready and echoing; source yields "a", "b", then closes.
    let mut source = SequenceSource::new(vec!["a".to_string(), "b".to_string()]);
    let mut stream = ResponseStream::new(EchoWorker::new());

    match stream.poll_next(&mut source) {
        StreamPoll::Yielded(Ok(v)) => assert_eq!(v, "a"),
        _ => panic!("expected Ok(\"a\")"),
    }
    match stream.poll_next(&mut source) {
        StreamPoll::Yielded(Ok(v)) => assert_eq!(v, "b"),
        _ => panic!("expected Ok(\"b\")"),
    }
    assert!(matches!(stream.poll_next(&mut source), StreamPoll::Finished));
    // Closed is terminal: every later pull reports end-of-sequence.
    assert!(matches!(stream.poll_next(&mut source), StreamPoll::Finished));
}

#[test]
fn echo_all_preserves_order() {
    assert_eq!(echo_all(vec![3u64, 1, 4, 1, 5, 9, 2, 6]), vec![3, 1, 4, 1, 5, 9, 2, 6]);
}

#[test]
fn echo_all_empty_input() {
    assert_eq!(echo_all(Vec::<u64>::new()), Vec::<u64>::new());
}

#[test]
fn clean_exhaustion_counts() {
    // N items then exhaustion yields exactly N results then end-of-sequence.
    let mut source = SequenceSource::new(vec![7u64, 8, 9]);
    let mut stream = ResponseStream::new(EchoWorker::new());
    let mut results = Vec::new();
    loop {
        match stream.poll_next(&mut source) {
            StreamPoll::Yielded(Ok(v)) => results.push(v),
            StreamPoll::Yielded(Err(_)) => panic!("echo worker never fails"),
            StreamPoll::Finished => break,
            StreamPoll::Pending => panic!("echo worker never stalls"),
        }
    }
    assert_eq!(results, vec![7, 8, 9]);
}

#[test]
fn zero_length_input_closes_cleanly() {
    let mut source = SequenceSource::new(Vec::<u64>::new());
    let mut stream = ResponseStream::new(EchoWorker::new());
    assert!(matches!(stream.poll_next(&mut source), StreamPoll::Finished));
    assert!(matches!(stream.poll_next(&mut source), StreamPoll::Finished));
}

#[test]
fn call_failure_is_not_terminal() {
    // The call for the second item fails: a failure result emerges at its
    // position and the next item is still pulled and processed.
    let worker = ScriptedWorker::new(None, Some(1), 0);
    let mut source = SequenceSource::new(vec![10u64, 20, 30]);
    let mut stream = ResponseStream::new(worker);

    assert!(matches!(stream.poll_next(&mut source), StreamPoll::Yielded(Ok(10))));
    assert!(matches!(stream.poll_next(&mut source), StreamPoll::Yielded(Err(20))));
    assert!(matches!(stream.poll_next(&mut source), StreamPoll::Yielded(Ok(30))));
    assert!(matches!(stream.poll_next(&mut source), StreamPoll::Finished));
}

#[test]
fn readiness_failure_is_terminal() {
    // The readiness check while the second item is pending fails: exactly
    // one failure result, then end-of-sequence, and the third item is never
    // pulled from the queue.
    let worker = ScriptedWorker::new(Some(1), None, 0);
    let mut queue = QueueSource::bounded(8);
    assert!(matches!(queue.offer(1u64), OfferOutcome::Accepted));
    assert!(matches!(queue.offer(2), OfferOutcome::Accepted));
    assert!(matches!(queue.offer(3), OfferOutcome::Accepted));
    queue.close();
    let mut stream = ResponseStream::new(worker);

    assert!(matches!(stream.poll_next(&mut queue), StreamPoll::Yielded(Ok(1))));
    assert!(matches!(stream.poll_next(&mut queue), StreamPoll::Yielded(Err(_))));
    assert!(matches!(stream.poll_next(&mut queue), StreamPoll::Finished));
    assert!(matches!(stream.poll_next(&mut queue), StreamPoll::Finished));
    // Item 3 stayed in the queue: it was never pulled.
    assert_eq!(queue.len(), 1);
}

#[test]
fn stalling_worker_keeps_order() {
    // Each operation stays pending for two completion polls; the results
    // still emerge in acceptance order, one per request.
    let worker = ScriptedWorker::new(None, None, 2);
    let mut source = SequenceSource::new(vec![5u64, 6]);
    let mut stream = ResponseStream::new(worker);
    let mut results = Vec::new();
    let mut pulls = 0usize;
    loop {
        pulls += 1;
        assert!(pulls < 100, "pipeline must make progress");
        match stream.poll_next(&mut source) {
            StreamPoll::Yielded(Ok(v)) => results.push(v),
            StreamPoll::Yielded(Err(_)) => panic!("no call failure was scripted"),
            StreamPoll::Finished => break,
            StreamPoll::Pending => continue,
        }
    }
    assert_eq!(results, vec![5, 6]);
}

#[test]
fn empty_open_queue_suspends() {
    // An empty queue whose producers are still alive suspends the pull;
    // once a request is offered the next pull answers it.
    let mut queue = QueueSource::bounded(4);
    let mut stream = ResponseStream::new(EchoWorker::new());

    assert!(matches!(stream.poll_next(&mut queue), StreamPoll::Pending));
    assert!(matches!(queue.offer(11u64), OfferOutcome::Accepted));
    assert!(matches!(stream.poll_next(&mut queue), StreamPoll::Yielded(Ok(11))));
    assert!(matches!(stream.poll_next(&mut queue), StreamPoll::Pending));
    queue.close();
    assert!(matches!(stream.poll_next(&mut queue), StreamPoll::Finished));
}

#[test]
fn bounded_queue_backpressure() {
    // With capacity 2, the third offer before any pull is dropped as full;
    // after a pull frees capacity, offers succeed again.
    let (mut layer, mut stream) = ServiceLayer::new_with_buffer(EchoWorker::new(), (), 2);
    assert!(matches!(layer.sink.offer(1u64), OfferOutcome::Accepted));
    assert!(matches!(layer.sink.offer(2), OfferOutcome::Accepted));
    assert!(matches!(layer.sink.offer(3), OfferOutcome::DroppedFull));

    assert!(matches!(stream.poll_next(&mut layer.sink), StreamPoll::Yielded(Ok(1))));
    assert!(matches!(layer.sink.offer(4), OfferOutcome::Accepted));
    assert!(matches!(stream.poll_next(&mut layer.sink), StreamPoll::Yielded(Ok(2))));
    assert!(matches!(stream.poll_next(&mut layer.sink), StreamPoll::Yielded(Ok(4))));
}

#[test]
fn default_buffer_is_thirty_two() {
    let (mut layer, _stream) = ServiceLayer::new(EchoWorker::new(), ());
    for i in 0..32u64 {
        assert!(matches!(layer.sink.offer(i), OfferOutcome::Accepted));
    }
    assert!(matches!(layer.sink.offer(32), OfferOutcome::DroppedFull));
}

#[test]
fn unbounded_queue_never_fills() {
    let (mut layer, mut stream) = ServiceLayer::new_unbounded(EchoWorker::new(), ());
    for i in 0..100u64 {
        assert!(matches!(layer.sink.offer(i), OfferOutcome::Accepted));
    }
    assert!(matches!(stream.poll_next(&mut layer.sink), StreamPoll::Yielded(Ok(0))));
}

#[test]
fn drop_counter_counts_both_reasons() {
    let mut queue = QueueSource::bounded(1);
    assert_eq!(queue.dropped(), 0);
    assert!(matches!(queue.offer(1u64), OfferOutcome::Accepted));
    assert!(matches!(queue.offer(2), OfferOutcome::DroppedFull));
    assert_eq!(queue.dropped(), 1);
    queue.close();
    assert!(matches!(queue.offer(3), OfferOutcome::DroppedClosed));
    assert_eq!(queue.dropped(), 2);
    assert_eq!(queue.len(), 1);
}

#[test]
fn closed_queue_drops_offers() {
    let mut queue = QueueSource::<u64>::bounded(4);
    queue.close();
    assert!(matches!(queue.offer(1), OfferOutcome::DroppedClosed));
    assert!(matches!(queue.sink_send(2), Err(SendRefused::Closed)));
}

#[test]
fn sink_send_maps_outcomes() {
    let mut queue = QueueSource::bounded(1);
    assert!(queue.sink_send(1u64).is_ok());
    assert!(matches!(queue.sink_send(2), Err(SendRefused::Full)));
}

#[test]
fn on_request_feeds_the_pipeline() {
    let (mut layer, mut stream) = ServiceLayer::new(EchoWorker::new(), ());
    layer.on_request(7u64);
    assert!(matches!(stream.poll_next(&mut layer.sink), StreamPoll::Yielded(Ok(7))));
}
