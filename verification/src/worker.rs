use vstd::prelude::*;

verus! {

/// What the worker reports when asked whether it can accept a request.
pub enum ReadyPoll<E> {
    /// The worker has capacity: a request may be submitted now.
    Ready,
    /// The readiness check itself failed. This is terminal for the pipeline.
    Failed(E),
    /// The worker has no capacity yet; ask again later.
    Pending,
}

/// What the worker reports when asked whether the in-flight operation
/// has resolved.
pub enum CallPoll<R, E> {
    /// The operation resolved with this outcome.
    Done(Result<R, E>),
    /// The operation is still running; ask again later.
    Pending,
}

/// The downstream capability: an asynchronous worker that accepts one
/// request after a successful readiness check and later resolves it to an
/// outcome. Readiness and submission are two separate operations, so a
/// worker can apply admission control before committing to work.
///
/// The contracts enforce the single-lane discipline: a request may be
/// submitted only while no earlier operation is unresolved, so a conforming
/// caller never has two requests in flight.
pub trait Worker<Req>: Sized {
    type Response;

    type Error;

    /// Whether an operation is currently in flight. This and the spec
    /// functions below carry defaults for unverified embeddings only; every
    /// verified worker overrides them.
    open spec fn busy(&self) -> bool {
        arbitrary()
    }

    /// The request in flight, meaningful while `busy()`.
    open spec fn current(&self) -> Req {
        arbitrary()
    }

    /// The outcome the in-flight operation will resolve to, meaningful
    /// while `busy()`.
    open spec fn outcome(&self) -> Result<Self::Response, Self::Error> {
        arbitrary()
    }

    /// The outcome a request submitted in the worker's present state would
    /// resolve to.
    open spec fn response_to(&self, req: Req) -> Result<Self::Response, Self::Error> {
        arbitrary()
    }

    /// Whether the readiness check can ever fail.
    open spec fn may_refuse(&self) -> bool {
        arbitrary()
    }

    /// Whether a readiness check or a completion poll can ever report
    /// `Pending` instead of resolving at once.
    open spec fn may_stall(&self) -> bool {
        arbitrary()
    }

    /// Ask whether the worker can accept a request without unbounded delay.
    fn poll_ready(&mut self) -> (r: ReadyPoll<Self::Error>)
        requires
            !old(self).busy(),
        ensures
            !final(self).busy(),
            forall|q: Req| final(self).response_to(q) == old(self).response_to(q),
            final(self).may_stall() == old(self).may_stall(),
            r is Failed ==> old(self).may_refuse(),
            r is Pending ==> old(self).may_stall(),
    ;

    /// Submit a request, beginning an in-flight operation.
    fn call(&mut self, req: Req)
        requires
            !old(self).busy(),
        ensures
            final(self).busy(),
            final(self).current() == req,
            final(self).outcome() == old(self).response_to(req),
            final(self).may_stall() == old(self).may_stall(),
    ;

    /// Ask whether the in-flight operation has resolved.
    fn poll_call(&mut self) -> (r: CallPoll<Self::Response, Self::Error>)
        requires
            old(self).busy(),
        ensures
            final(self).may_stall() == old(self).may_stall(),
            r is Pending ==> final(self).busy()
                && final(self).current() == old(self).current()
                && final(self).outcome() == old(self).outcome()
                && old(self).may_stall(),
            r matches CallPoll::Done(o) ==> !final(self).busy() && o == old(self).outcome(),
    ;
}

/// A worker that is always ready, never fails, and resolves each request
/// immediately to the request itself.
pub struct EchoWorker<T> {
    /// The request in flight, if any.
    pub slot: Option<T>,
}

impl<T> EchoWorker<T> {
    /// A fresh echoing worker with nothing in flight.
    pub fn new() -> (w: Self)
        ensures
            !w.busy(),
    {
        EchoWorker { slot: None }
    }
}

impl<T> Worker<T> for EchoWorker<T> {
    type Response = T;

    type Error = ();

    open spec fn busy(&self) -> bool {
        self.slot is Some
    }

    open spec fn current(&self) -> T {
        self.slot.unwrap()
    }

    open spec fn outcome(&self) -> Result<T, ()> {
        Ok(self.slot.unwrap())
    }

    open spec fn response_to(&self, req: T) -> Result<T, ()> {
        Ok(req)
    }

    open spec fn may_refuse(&self) -> bool {
        false
    }

    open spec fn may_stall(&self) -> bool {
        false
    }

    fn poll_ready(&mut self) -> (r: ReadyPoll<()>) {
        ReadyPoll::Ready
    }

    fn call(&mut self, req: T) {
        self.slot = Some(req);
    }

    fn poll_call(&mut self) -> (r: CallPoll<T, ()>) {
        let taken = self.slot.take();
        match taken {
            Some(v) => CallPoll::Done(Ok(v)),
            None => vstd::pervasive::unreached(),
        }
    }
}

/// A worker for exercising the pipeline: it can be told to fail one
/// readiness check, to fail one call, and to stall each operation for a
/// number of completion polls before resolving it to the request itself.
pub struct ScriptedWorker {
    /// The readiness check, counted from zero, that fails.
    pub fail_ready_at: Option<usize>,
    /// The call, counted from zero, whose outcome is a failure.
    pub fail_call_at: Option<usize>,
    /// How many completion polls each operation stays pending.
    pub stall_rounds: usize,
    /// Readiness checks made so far.
    pub checks: usize,
    /// Calls begun so far.
    pub calls: usize,
    /// Pending completion polls on the current flight.
    pub waited: usize,
    /// The request in flight and whether it will succeed.
    pub slot: Option<(u64, bool)>,
}

impl ScriptedWorker {
    /// A fresh scripted worker. `fail_ready_at` names the readiness check
    /// (counted from zero) that fails, `fail_call_at` the call whose outcome
    /// is a failure, and `stall_rounds` how many completion polls each
    /// operation stays pending.
    pub fn new(fail_ready_at: Option<usize>, fail_call_at: Option<usize>, stall_rounds: usize) -> (w: Self)
        ensures
            !w.busy(),
            w.may_refuse() == (fail_ready_at is Some),
    {
        ScriptedWorker {
            fail_ready_at,
            fail_call_at,
            stall_rounds,
            checks: 0,
            calls: 0,
            waited: 0,
            slot: None,
        }
    }
}

impl Worker<u64> for ScriptedWorker {
    type Response = u64;

    type Error = u64;

    open spec fn busy(&self) -> bool {
        self.slot is Some
    }

    open spec fn current(&self) -> u64 {
        self.slot.unwrap().0
    }

    open spec fn outcome(&self) -> Result<u64, u64> {
        if self.slot.unwrap().1 {
            Ok(self.slot.unwrap().0)
        } else {
            Err(self.slot.unwrap().0)
        }
    }

    open spec fn response_to(&self, req: u64) -> Result<u64, u64> {
        if self.fail_call_at matches Some(n) && n == self.calls {
            Err(req)
        } else {
            Ok(req)
        }
    }

    open spec fn may_refuse(&self) -> bool {
        self.fail_ready_at is Some
    }

    open spec fn may_stall(&self) -> bool {
        self.stall_rounds > 0
    }

    fn poll_ready(&mut self) -> (r: ReadyPoll<u64>) {
        let fail = match self.fail_ready_at {
            Some(n) => n == self.checks,
            None => false,
        };
        if self.checks < usize::MAX {
            self.checks = self.checks + 1;
        }
        if fail {
            ReadyPoll::Failed(0)
        } else {
            ReadyPoll::Ready
        }
    }

    fn call(&mut self, req: u64) {
        let ok = match self.fail_call_at {
            Some(n) => n != self.calls,
            None => true,
        };
        self.slot = Some((req, ok));
        self.waited = 0;
        if self.calls < usize::MAX {
            self.calls = self.calls + 1;
        }
    }

    fn poll_call(&mut self) -> (r: CallPoll<u64, u64>) {
        if self.waited < self.stall_rounds {
            self.waited = self.waited + 1;
            CallPoll::Pending
        } else {
            match self.slot {
                Some((req, ok)) => {
                    self.slot = None;
                    if ok {
                        CallPoll::Done(Ok(req))
                    } else {
                        CallPoll::Done(Err(req))
                    }
                }
                None => vstd::pervasive::unreached(),
            }
        }
    }
}

} // verus!
