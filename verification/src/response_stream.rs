use vstd::prelude::*;

use crate::source::SequenceSource;
use crate::source::Source;
use crate::source::SourcePoll;
use crate::worker::CallPoll;
use crate::worker::EchoWorker;
use crate::worker::ReadyPoll;
use crate::worker::Worker;

verus! {

/// The four control states of the dispatch automaton. Exactly one value
/// exists per pipeline, owned by the [`ResponseStream`].
pub enum DispatchState<Req> {
    /// Nothing is pending: the next step asks the source for an item.
    AwaitingSource,
    /// An accepted request is waiting for the worker's readiness check.
    AwaitingWorkerReady { pending: Req },
    /// A request was submitted and its operation has not resolved yet; the
    /// operation handle itself lives with the worker.
    InFlight,
    /// Terminal: every later pull reports end-of-sequence.
    Closed,
}

/// What one pull of the result sequence produced.
pub enum StreamPoll<R, E> {
    /// One result: the outcome of a resolved call, or the single terminal
    /// readiness failure.
    Yielded(Result<R, E>),
    /// End-of-sequence: the pipeline is closed and nothing more will come.
    Finished,
    /// Progress is blocked on the source or on the worker; pull again once
    /// the underlying readiness source wakes the consumer.
    Pending,
}

/// The dispatch state machine: a lazily produced sequence of worker
/// outcomes, one per accepted request, in exactly acceptance order.
///
/// The automaton routes requests from a [`Source`] through a [`Worker`],
/// never more than one at a time, and advances only when the consumer pulls
/// via [`ResponseStream::poll_next`]. The worker is owned here for the
/// pipeline's lifetime; the source is lent to each pull, so the producer
/// side can keep filling it between pulls.
pub struct ResponseStream<Req, W> where W: Worker<Req> {
    service: W,
    inner: DispatchState<Req>,
    history: Ghost<Seq<Req>>,
    fault: Ghost<bool>,
}

impl<Req, W: Worker<Req>> ResponseStream<Req, W> {
    /// The automaton's control state.
    pub closed spec fn state(&self) -> DispatchState<Req> {
        self.inner
    }

    /// Every request accepted from the source so far, in acceptance order.
    pub closed spec fn accepted(&self) -> Seq<Req> {
        self.history@
    }

    /// Whether the pipeline was closed by a terminal readiness failure
    /// rather than by clean source exhaustion.
    pub closed spec fn failed(&self) -> bool {
        self.fault@
    }

    /// The worker handle.
    pub closed spec fn worker(&self) -> W {
        self.service
    }

    /// Whether the pipeline is closed: every later pull reports
    /// end-of-sequence.
    pub open spec fn is_closed(&self) -> bool {
        self.state() is Closed
    }

    /// How many accepted requests have been submitted to the worker.
    pub open spec fn submitted(&self) -> nat {
        match self.state() {
            DispatchState::AwaitingSource => self.accepted().len(),
            DispatchState::AwaitingWorkerReady { .. } => (self.accepted().len() - 1) as nat,
            DispatchState::InFlight => self.accepted().len(),
            DispatchState::Closed => if self.failed() {
                (self.accepted().len() - 1) as nat
            } else {
                self.accepted().len()
            },
        }
    }

    /// How many call outcomes have been yielded to the consumer.
    pub open spec fn yielded(&self) -> nat {
        match self.state() {
            DispatchState::InFlight => (self.accepted().len() - 1) as nat,
            _ => self.submitted(),
        }
    }

    /// The structural invariant: the worker holds a request exactly while
    /// the automaton records one in flight, that request is the most
    /// recently accepted one, a pending request is the most recently
    /// accepted one, and a fault implies the pipeline is closed.
    pub open spec fn wf(&self) -> bool {
        match self.state() {
            DispatchState::AwaitingSource => !self.worker().busy() && !self.failed(),
            DispatchState::AwaitingWorkerReady { pending } => !self.worker().busy()
                && !self.failed()
                && self.accepted().len() > 0
                && pending == self.accepted().last(),
            DispatchState::InFlight => self.worker().busy()
                && !self.failed()
                && self.accepted().len() > 0
                && self.worker().current() == self.accepted().last(),
            DispatchState::Closed => !self.worker().busy()
                && (self.failed() ==> self.accepted().len() > 0),
        }
    }

    /// A fresh pipeline around `service`: awaiting the source, nothing
    /// accepted, nothing in flight.
    pub fn new(service: W) -> (s: Self)
        requires
            !service.busy(),
        ensures
            s.wf(),
            s.state() is AwaitingSource,
            s.accepted() == Seq::<Req>::empty(),
            !s.failed(),
            s.worker() == service,
    {
        ResponseStream {
            service,
            inner: DispatchState::AwaitingSource,
            history: Ghost(Seq::empty()),
            fault: Ghost(false),
        }
    }

    /// Pull the next result. This is the sole way the pipeline advances:
    /// one pull performs every transition that needs no external wait, and
    /// returns on a result, on end-of-sequence, or on a genuine suspension
    /// point (empty open source, unready worker, unresolved operation).
    pub fn poll_next<Src: Source<Item = Req>>(&mut self, source: &mut Src) -> (r: StreamPoll<
        W::Response,
        W::Error,
    >)
        requires
            old(self).wf(),
        ensures
            final(self).wf(),
            // `Closed` is terminal: nothing moves, the source is not
            // touched, and the pull reports end-of-sequence.
            old(self).is_closed() ==> r is Finished
                && *final(self) == *old(self)
                && *final(source) == *old(source),
            // End-of-sequence is reported only while closed.
            r is Finished ==> final(self).is_closed(),
            // A fresh close on this pull is the clean one: it happens only
            // from `AwaitingSource` on an exhausted source, with every
            // accepted request already answered.
            !old(self).is_closed() && r is Finished ==> old(self).state() is AwaitingSource
                && !final(self).failed()
                && final(self).accepted() == old(self).accepted()
                && final(self).yielded() == final(self).accepted().len()
                && old(source).items().len() == 0
                && old(source).done()
                && *final(source) == *old(source),
            // Acceptance order is source order: at most one request is
            // pulled per poll, always the source's oldest.
            old(self).accepted().is_prefix_of(final(self).accepted()),
            (final(self).accepted() == old(self).accepted() && *final(source) == *old(source))
                || (old(source).items().len() > 0
                && final(self).accepted() == old(self).accepted().push(old(source).items()[0])
                && final(source).items() == old(source).items().drop_first()
                && final(source).done() == old(source).done()),
            // While the automaton waits on the worker, the source is not
            // touched: a request beyond the pending one is never pulled.
            old(self).state() is AwaitingWorkerReady || old(self).state() is InFlight
                ==> *final(source) == *old(source)
                && final(self).accepted() == old(self).accepted(),
            // Suspension yields no result and loses nothing.
            r is Pending ==> !final(self).is_closed()
                && final(self).yielded() == old(self).yielded()
                && !final(self).failed(),
            // Suspension happens only at a genuine wait: an empty source
            // that may still produce, or a worker that can stall.
            r is Pending ==> (old(self).state() is AwaitingSource
                && old(source).items().len() == 0
                && !old(source).done()) || old(self).worker().may_stall(),
            // An empty, still-open source suspends the pull untouched.
            old(self).state() is AwaitingSource && old(source).items().len() == 0
                && !old(source).done() ==> r is Pending
                && *final(self) == *old(self)
                && *final(source) == *old(source),
            // An exhausted source ends the sequence.
            old(self).state() is AwaitingSource && old(source).items().len() == 0
                && old(source).done() ==> r is Finished,
            // A result yielded with the pipeline still open is the resolved
            // outcome of the oldest unanswered request — the one the worker
            // was called with — and the automaton returns to
            // `AwaitingSource`: one failed call does not abort the pipeline.
            r matches StreamPoll::Yielded(o) ==> (!final(self).is_closed()
                ==> final(self).state() is AwaitingSource
                && !final(self).failed()
                && final(self).yielded() == old(self).yielded() + 1
                && final(self).accepted().len() > 0
                && (if old(self).state() is InFlight {
                    o == old(self).worker().outcome()
                } else {
                    o == old(self).worker().response_to(final(self).accepted().last())
                })),
            // A result yielded with the pipeline closed is the terminal
            // readiness failure: a failure outcome, surfaced once, with the
            // pending request never submitted.
            r matches StreamPoll::Yielded(o) ==> (final(self).is_closed() ==> o is Err
                && final(self).failed()
                && old(self).worker().may_refuse()
                && final(self).yielded() == old(self).yielded()
                && final(self).accepted().len() == final(self).submitted() + 1),
    {
        if matches!(self.inner, DispatchState::Closed) {
            return StreamPoll::Finished;
        }
        if matches!(self.inner, DispatchState::AwaitingSource) {
            match source.next_item() {
                SourcePoll::Pending => {
                    return StreamPoll::Pending;
                }
                SourcePoll::Exhausted => {
                    self.inner = DispatchState::Closed;
                    return StreamPoll::Finished;
                }
                SourcePoll::Item(x) => {
                    self.history = Ghost(self.history@.push(x));
                    self.inner = DispatchState::AwaitingWorkerReady { pending: x };
                }
            }
        }
        if matches!(self.inner, DispatchState::AwaitingWorkerReady { .. }) {
            match self.service.poll_ready() {
                ReadyPoll::Pending => {
                    return StreamPoll::Pending;
                }
                ReadyPoll::Failed(e) => {
                    self.inner = DispatchState::Closed;
                    self.fault = Ghost(true);
                    return StreamPoll::Yielded(Err(e));
                }
                ReadyPoll::Ready => {
                    let mut taken = DispatchState::InFlight;
                    core::mem::swap(&mut taken, &mut self.inner);
                    match taken {
                        DispatchState::AwaitingWorkerReady { pending } => {
                            self.service.call(pending);
                        }
                        _ => {
                            proof {
                                assert(false);
                            }
                        }
                    }
                }
            }
        }
        match self.service.poll_call() {
            CallPoll::Pending => StreamPoll::Pending,
            CallPoll::Done(o) => {
                self.inner = DispatchState::AwaitingSource;
                StreamPoll::Yielded(o)
            }
        }
    }
}

/// Order preservation and the single lane, as facts of every well-formed
/// pipeline: requests are submitted to the worker in exactly acceptance
/// order, the worker holds a request exactly while the automaton records
/// one in flight, and that request is the oldest unanswered one.
pub proof fn lemma_order_and_single_flight<Req, W: Worker<Req>>(s: &ResponseStream<Req, W>)
    requires
        s.wf(),
    ensures
        s.worker().busy() <==> s.state() is InFlight,
        s.state() is InFlight ==> s.worker().current() == s.accepted()[s.yielded() as int],
        s.yielded() <= s.submitted() <= s.accepted().len(),
        s.submitted() <= s.yielded() + 1,
{
}

/// Clean exhaustion and order preservation, end to end: a pipeline over an
/// always-ready echoing worker and a fixed request sequence yields exactly
/// the requests, in acceptance order, then ends.
pub fn echo_all<T>(requests: Vec<T>) -> (responses: Vec<T>)
    ensures
        responses@ == requests@,
{
    let ghost all = requests@;
    let mut source = SequenceSource::new(requests);
    let mut stream = ResponseStream::<T, EchoWorker<T>>::new(EchoWorker::new());
    let mut responses: Vec<T> = Vec::new();
    loop
        invariant
            all == requests@,
            stream.wf(),
            !stream.is_closed(),
            !stream.failed(),
            stream.accepted() == all.take(stream.accepted().len() as int),
            source.items() == all.skip(stream.accepted().len() as int),
            source.done(),
            responses@ == all.take(stream.yielded() as int),
            stream.yielded() <= stream.accepted().len() <= all.len(),
        decreases all.len() - stream.yielded(),
    {
        let ghost pre = stream;
        match stream.poll_next(&mut source) {
            StreamPoll::Finished => {
                proof {
                    assert(all.skip(stream.accepted().len() as int).len() == 0);
                    assert(stream.accepted().len() == all.len());
                    assert(responses@ =~= all);
                }
                return responses;
            }
            StreamPoll::Pending => {
                proof {
                    assert(false);
                }
            }
            StreamPoll::Yielded(o) => {
                proof {
                    assert(!stream.is_closed());
                    assert(stream.accepted() =~= all.take(stream.accepted().len() as int)) by {
                        if stream.accepted().len() > pre.accepted().len() {
                            assert(stream.accepted() == pre.accepted().push(
                                all.skip(pre.accepted().len() as int)[0],
                            ));
                        }
                    }
                }
                match o {
                    Ok(v) => {
                        proof {
                            assert(v == all[stream.yielded() - 1]);
                            assert(responses@.push(v) =~= all.take(stream.yielded() as int));
                        }
                        responses.push(v);
                    }
                    Err(_) => {
                        proof {
                            assert(false);
                        }
                    }
                }
            }
        }
    }
}

} // verus!

