use vstd::prelude::*;

verus! {

/// What a source reports when the consumer asks for the next request.
pub enum SourcePoll<T> {
    /// A request is available and is handed over.
    Item(T),
    /// No request is available and none will ever come: the source is
    /// drained and every producer is gone.
    Exhausted,
    /// No request is available right now, but more may arrive later.
    Pending,
}

/// The producer-side verdict on one offered request.
///
/// A dropped request is dropped silently and is never retried: delivery on
/// the producer side is deliberately best-effort.
pub enum OfferOutcome {
    /// The request was placed in the queue.
    Accepted,
    /// The queue is bounded and currently full; the request was dropped.
    DroppedFull,
    /// The queue no longer has a consumer; the request was dropped.
    DroppedClosed,
}

/// Why a [`SyncSender::sink_send`] refused a request.
pub enum SendRefused {
    /// The bounded queue is at capacity.
    Full,
    /// The queue has been closed.
    Closed,
}

/// The uniform "next item / exhausted / not yet ready" contract that the
/// dispatch state machine requires of every request source.
pub trait Source: Sized {
    type Item;

    /// The requests currently queued, oldest first. The default stands for
    /// unverified embeddings only; every verified source overrides it.
    open spec fn items(&self) -> Seq<Self::Item> {
        arbitrary()
    }

    /// Whether no request beyond `items()` can ever arrive. The default
    /// stands for unverified embeddings only; every verified source
    /// overrides it.
    open spec fn done(&self) -> bool {
        arbitrary()
    }

    /// Pull the next request, report exhaustion, or ask the consumer to wait.
    fn next_item(&mut self) -> (r: SourcePoll<Self::Item>)
        ensures
            r matches SourcePoll::Item(x) ==> old(self).items().len() > 0
                && x == old(self).items()[0]
                && final(self).items() == old(self).items().drop_first()
                && final(self).done() == old(self).done(),
            r is Exhausted ==> old(self).items().len() == 0 && old(self).done()
                && *final(self) == *old(self),
            r is Pending ==> old(self).items().len() == 0 && !old(self).done()
                && *final(self) == *old(self),
    ;
}

/// Polymorphism over the producer handles of the queue variants: anything a
/// request can be pushed into without waiting.
pub trait SyncSender<T>: Sized {
    type Error;

    /// The requests waiting behind this handle, oldest first. The default
    /// stands for unverified embeddings only; every verified sender
    /// overrides it.
    open spec fn queued(&self) -> Seq<T> {
        arbitrary()
    }

    /// Whether the next offer will be taken. The default stands for
    /// unverified embeddings only; every verified sender overrides it.
    open spec fn accepts(&self) -> bool {
        arbitrary()
    }

    /// Offer one request: it is appended exactly when the sender accepts,
    /// and lost otherwise.
    fn sink_send(&mut self, value: T) -> (r: Result<(), Self::Error>)
        ensures
            r is Ok <==> old(self).accepts(),
            r is Ok ==> final(self).queued() == old(self).queued().push(value),
            r is Err ==> final(self).queued() == old(self).queued(),
    ;
}

/// The queue-backed source variant: a buffer with an optional capacity bound
/// and a closed flag, the single-owner model of a multi-producer
/// single-consumer queue.
pub struct QueueSource<T> {
    entries: Vec<T>,
    capacity: usize,
    bounded: bool,
    closed: bool,
    drops: usize,
}

impl<T> QueueSource<T> {
    /// Whether offers beyond the current contents are refused as full.
    pub closed spec fn is_bounded(&self) -> bool {
        self.bounded
    }

    /// The capacity bound; meaningful only when the queue is bounded.
    pub closed spec fn bound(&self) -> nat {
        self.capacity as nat
    }

    /// Whether the queue was closed: no further request is accepted and the
    /// consumer sees exhaustion once the buffer drains. This is exactly the
    /// source's `done()` condition.
    pub open spec fn is_closed(&self) -> bool {
        self.done()
    }

    /// How many offered requests have been dropped, full or closed alike;
    /// the count saturates.
    pub closed spec fn dropped_count(&self) -> nat {
        self.drops as nat
    }

    /// A queue that refuses requests offered while `capacity` are already
    /// waiting.
    pub fn bounded(capacity: usize) -> (q: Self)
        requires
            capacity >= 1,
        ensures
            q.items() == Seq::<T>::empty(),
            q.is_bounded(),
            q.bound() == capacity,
            !q.is_closed(),
            q.dropped_count() == 0,
    {
        QueueSource { entries: Vec::new(), capacity, bounded: true, closed: false, drops: 0 }
    }

    /// A queue that accepts every request while open.
    pub fn unbounded() -> (q: Self)
        ensures
            q.items() == Seq::<T>::empty(),
            !q.is_bounded(),
            !q.is_closed(),
            q.dropped_count() == 0,
    {
        QueueSource { entries: Vec::new(), capacity: 0, bounded: false, closed: false, drops: 0 }
    }

    /// Offer one request from the producer side. It is queued exactly when
    /// the queue is open and below any capacity bound; otherwise it is
    /// dropped, and the outcome says why.
    pub fn offer(&mut self, value: T) -> (r: OfferOutcome)
        ensures
            final(self).is_bounded() == old(self).is_bounded(),
            final(self).bound() == old(self).bound(),
            final(self).is_closed() == old(self).is_closed(),
            r is Accepted ==> final(self).dropped_count() == old(self).dropped_count(),
            !(r is Accepted) ==> final(self).dropped_count() == (if old(self).dropped_count()
                < usize::MAX { old(self).dropped_count() + 1 } else { old(self).dropped_count() }),
            old(self).is_closed() ==> r is DroppedClosed && final(self).items() == old(self).items(),
            !old(self).is_closed() && old(self).is_bounded() && old(self).items().len() >= old(self).bound()
                ==> r is DroppedFull && final(self).items() == old(self).items(),
            !old(self).is_closed() && (!old(self).is_bounded() || old(self).items().len() < old(self).bound())
                ==> r is Accepted && final(self).items() == old(self).items().push(value),
    {
        if self.closed {
            self.count_drop();
            OfferOutcome::DroppedClosed
        } else if self.bounded && self.entries.len() >= self.capacity {
            self.count_drop();
            OfferOutcome::DroppedFull
        } else {
            self.entries.push(value);
            OfferOutcome::Accepted
        }
    }

    fn count_drop(&mut self)
        ensures
            final(self).entries == old(self).entries,
            final(self).capacity == old(self).capacity,
            final(self).bounded == old(self).bounded,
            final(self).closed == old(self).closed,
            final(self).dropped_count() == (if old(self).dropped_count() < usize::MAX {
                old(self).dropped_count() + 1
            } else {
                old(self).dropped_count()
            }),
    {
        if self.drops < usize::MAX {
            self.drops = self.drops + 1;
        }
    }

    /// Release the producer side: the consumer drains what is queued and
    /// then sees exhaustion; later offers are dropped as closed.
    pub fn close(&mut self)
        ensures
            final(self).items() == old(self).items(),
            final(self).is_bounded() == old(self).is_bounded(),
            final(self).bound() == old(self).bound(),
            final(self).dropped_count() == old(self).dropped_count(),
            final(self).is_closed(),
    {
        self.closed = true;
    }

    /// How many requests are waiting.
    pub fn len(&self) -> (n: usize)
        ensures
            n == self.items().len(),
    {
        self.entries.len()
    }

    /// How many offered requests have been dropped so far.
    pub fn dropped(&self) -> (n: usize)
        ensures
            n == self.dropped_count(),
    {
        self.drops
    }
}

impl<T> Source for QueueSource<T> {
    type Item = T;

    closed spec fn items(&self) -> Seq<T> {
        self.entries@
    }

    closed spec fn done(&self) -> bool {
        self.closed
    }

    fn next_item(&mut self) -> (r: SourcePoll<T>) {
        if self.entries.len() > 0 {
            let x = self.entries.remove(0);
            proof {
                assert(old(self).entries@.remove(0) =~= old(self).entries@.drop_first());
            }
            SourcePoll::Item(x)
        } else if self.closed {
            SourcePoll::Exhausted
        } else {
            SourcePoll::Pending
        }
    }
}

impl<T> SyncSender<T> for QueueSource<T> {
    type Error = SendRefused;

    open spec fn queued(&self) -> Seq<T> {
        self.items()
    }

    open spec fn accepts(&self) -> bool {
        !self.is_closed() && (!self.is_bounded() || self.items().len() < self.bound())
    }

    fn sink_send(&mut self, value: T) -> (r: Result<(), SendRefused>) {
        match self.offer(value) {
            OfferOutcome::Accepted => Ok(()),
            OfferOutcome::DroppedFull => Err(SendRefused::Full),
            OfferOutcome::DroppedClosed => Err(SendRefused::Closed),
        }
    }
}

/// The lazily-produced source variant: a fixed sequence of requests handed
/// out front to back, exhausted once all are gone.
pub struct SequenceSource<T> {
    entries: Vec<T>,
}

impl<T> SequenceSource<T> {
    /// Wrap a produced sequence of requests.
    pub fn new(entries: Vec<T>) -> (s: Self)
        ensures
            s.items() == entries@,
            s.done(),
    {
        SequenceSource { entries }
    }
}

impl<T> Source for SequenceSource<T> {
    type Item = T;

    closed spec fn items(&self) -> Seq<T> {
        self.entries@
    }

    closed spec fn done(&self) -> bool {
        true
    }

    fn next_item(&mut self) -> (r: SourcePoll<T>) {
        if self.entries.len() > 0 {
            let x = self.entries.remove(0);
            proof {
                assert(old(self).entries@.remove(0) =~= old(self).entries@.drop_first());
            }
            SourcePoll::Item(x)
        } else {
            SourcePoll::Exhausted
        }
    }
}

} // verus!
