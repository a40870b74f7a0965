//! A dispatch pipeline stage: requests queued by producers are pushed one at
//! a time through a readiness-gated worker, and the results come back to the
//! consumer as a lazily produced sequence in exactly the order the requests
//! were accepted.
//!
//! Failure policy, deliberately asymmetric: a call that resolves to a
//! failure is surfaced as an ordinary result and the pipeline continues,
//! while a failure of the readiness check itself is terminal — it is
//! surfaced once, the pending request is dropped, and the pipeline closes.

pub mod response_stream;
pub mod source;
pub mod worker;

pub use response_stream::DispatchState;
pub use response_stream::ResponseStream;
pub use response_stream::StreamPoll;
pub use response_stream::echo_all;
pub use response_stream::lemma_order_and_single_flight;

pub use source::OfferOutcome;
pub use source::QueueSource;
pub use source::SendRefused;
pub use source::SequenceSource;
pub use source::Source;
pub use source::SourcePoll;
pub use source::SyncSender;
pub use worker::CallPoll;
pub use worker::EchoWorker;
pub use worker::ReadyPoll;
pub use worker::ScriptedWorker;
pub use worker::Worker;

use vstd::prelude::*;

verus! {

/// The bounded queue capacity [`ServiceLayer::new`] uses when none is given.
pub const DEFAULT_BUFFER: usize = 32;

/// The producer-side adapter: it pairs the embedding's "build a request out
/// of an observed event's fields" strategy with the sink finished requests
/// are offered to. Converting events into requests is the embedding's
/// business; this type owns the strategy and the sink and performs the
/// offer, which must never block and never fail its caller.
pub struct ServiceLayer<MakeVisitor, Sink> {
    /// The pluggable strategy for recording an event's fields into a request.
    pub make_visitor: MakeVisitor,
    /// The producer half requests are offered to.
    pub sink: Sink,
}

impl<M, T> ServiceLayer<M, QueueSource<T>> {
    /// A layer whose unbounded queue is drained into `service`: no offer is
    /// ever refused as full, and the pipeline answers in acceptance order.
    pub fn new_unbounded<W: Worker<T>>(service: W, make_visitor: M) -> (r: (
        Self,
        ResponseStream<T, W>,
    ))
        requires
            !service.busy(),
        ensures
            r.0.sink.items() == Seq::<T>::empty(),
            !r.0.sink.is_bounded(),
            !r.0.sink.is_closed(),
            r.0.make_visitor == make_visitor,
            r.1.wf(),
            r.1.state() is AwaitingSource,
            r.1.accepted() == Seq::<T>::empty(),
            r.1.worker() == service,
    {
        let sink = QueueSource::unbounded();
        (ServiceLayer { make_visitor, sink }, ResponseStream::new(service))
    }

    /// A layer whose queue holds at most `buffer` waiting requests: while
    /// the pipeline is not pulled, offers beyond that capacity are dropped.
    pub fn new_with_buffer<W: Worker<T>>(service: W, make_visitor: M, buffer: usize) -> (r: (
        Self,
        ResponseStream<T, W>,
    ))
        requires
            buffer >= 1,
            !service.busy(),
        ensures
            r.0.sink.items() == Seq::<T>::empty(),
            r.0.sink.is_bounded(),
            r.0.sink.bound() == buffer,
            !r.0.sink.is_closed(),
            r.0.make_visitor == make_visitor,
            r.1.wf(),
            r.1.state() is AwaitingSource,
            r.1.accepted() == Seq::<T>::empty(),
            r.1.worker() == service,
    {
        let sink = QueueSource::bounded(buffer);
        (ServiceLayer { make_visitor, sink }, ResponseStream::new(service))
    }

    /// A layer with the default bounded capacity of [`DEFAULT_BUFFER`]
    /// waiting requests.
    pub fn new<W: Worker<T>>(service: W, visitor: M) -> (r: (Self, ResponseStream<T, W>))
        requires
            !service.busy(),
        ensures
            r.0.sink.items() == Seq::<T>::empty(),
            r.0.sink.is_bounded(),
            r.0.sink.bound() == DEFAULT_BUFFER,
            !r.0.sink.is_closed(),
            r.0.make_visitor == visitor,
            r.1.wf(),
            r.1.state() is AwaitingSource,
            r.1.accepted() == Seq::<T>::empty(),
            r.1.worker() == service,
    {
        Self::new_with_buffer(service, visitor, DEFAULT_BUFFER)
    }
}

impl<M, S> ServiceLayer<M, S> {
    /// Offer one finished request to the sink, the tail end of handling an
    /// observed event. A refusal — queue full, or consumer gone — drops the
    /// request silently: the capture path must never block or fail its
    /// caller.
    pub fn on_request<T>(&mut self, request: T) where S: SyncSender<T>
        ensures
            final(self).make_visitor == old(self).make_visitor,
            old(self).sink.accepts() ==> final(self).sink.queued() == old(self).sink.queued().push(
                request,
            ),
            !old(self).sink.accepts() ==> final(self).sink.queued() == old(self).sink.queued(),
    {
        let _ = self.sink.sink_send(request);
    }
}

} // verus!
