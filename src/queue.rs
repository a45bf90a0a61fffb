//! The bounded inbound queue in front of persistence: a full queue refuses
//! new events at once instead of making the producer wait.
use vstd::prelude::*;

verus! {

/// A first-in first-out queue that never holds more than its capacity.
pub struct BoundedQueue<T> {
    items: Vec<T>,
    capacity: usize,
    dropped: u64,
}

impl<T> BoundedQueue<T> {
    /// The queued events, oldest first.
    pub closed spec fn contents(&self) -> Seq<T> {
        self.items@
    }

    /// The configured capacity.
    pub closed spec fn cap(&self) -> nat {
        self.capacity as nat
    }

    /// How many events were refused because the queue was full (saturating).
    pub closed spec fn dropped_count(&self) -> nat {
        self.dropped as nat
    }

    /// The queue never holds more than its capacity, which is positive.
    pub open spec fn wf(&self) -> bool {
        &&& self.cap() >= 1
        &&& self.contents().len() <= self.cap()
    }

    /// An empty queue holding at most `capacity` events.
    pub fn new(capacity: usize) -> (r: Self)
        requires
            capacity >= 1,
        ensures
            r.wf(),
            r.cap() == capacity,
            r.contents().len() == 0,
            r.dropped_count() == 0,
    {
        BoundedQueue { items: Vec::new(), capacity, dropped: 0 }
    }

    /// Enqueues `x` without waiting. When the queue is full, `x` is handed
    /// back as the drop signal, the queue is unchanged and the drop counted.
    pub fn try_send(&mut self, x: T) -> (r: Result<(), T>)
        requires
            old(self).wf(),
        ensures
            final(self).wf(),
            final(self).cap() == old(self).cap(),
            old(self).contents().len() == old(self).cap() ==> {
                &&& r == Err::<(), T>(x)
                &&& final(self).contents() == old(self).contents()
                &&& final(self).dropped_count() == if old(self).dropped_count() < u64::MAX {
                    old(self).dropped_count() + 1
                } else {
                    old(self).dropped_count()
                }
            },
            old(self).contents().len() < old(self).cap() ==> {
                &&& r is Ok
                &&& final(self).contents() == old(self).contents().push(x)
                &&& final(self).dropped_count() == old(self).dropped_count()
            },
    {
        if self.items.len() >= self.capacity {
            self.dropped = self.dropped.saturating_add(1);
            Err(x)
        } else {
            self.items.push(x);
            Ok(())
        }
    }

    /// Takes the oldest queued event, if any.
    pub fn recv(&mut self) -> (r: Option<T>)
        requires
            old(self).wf(),
        ensures
            final(self).wf(),
            final(self).cap() == old(self).cap(),
            final(self).dropped_count() == old(self).dropped_count(),
            old(self).contents().len() == 0 ==> r is None && final(self).contents() == old(
                self,
            ).contents(),
            old(self).contents().len() > 0 ==> {
                &&& r == Some(old(self).contents()[0])
                &&& final(self).contents() == old(self).contents().drop_first()
            },
    {
        if self.items.len() == 0 {
            None
        } else {
            Some(self.items.remove(0))
        }
    }

    /// Number of queued events.
    pub fn len(&self) -> (r: usize)
        ensures
            r == self.contents().len(),
    {
        self.items.len()
    }

    /// Whether the queue holds no event.
    pub fn is_empty(&self) -> (r: bool)
        ensures
            r == (self.contents().len() == 0),
    {
        self.items.len() == 0
    }

    /// The configured capacity.
    pub fn capacity(&self) -> (r: usize)
        ensures
            r == self.cap(),
    {
        self.capacity
    }

    /// How many events were refused because the queue was full.
    pub fn dropped(&self) -> (r: u64)
        ensures
            r == self.dropped_count(),
    {
        self.dropped
    }
}

} // verus!
