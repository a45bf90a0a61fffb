//! The in-process fan-out bus: every subscriber has its own bounded mailbox,
//! publishing never waits, and a full mailbox loses its oldest entry.
use vstd::prelude::*;

verus! {

/// Mailbox `b` after one delivery of `x` with room for `cap` entries: `x` is
/// appended, and the oldest entry goes when the mailbox was already full.
pub open spec fn deliver<T>(b: Seq<T>, x: T, cap: nat) -> Seq<T> {
    if b.len() < cap {
        b.push(x)
    } else {
        b.push(x).drop_first()
    }
}

/// Mailbox `b` after the deliveries `xs`, in order.
pub open spec fn deliver_all<T>(b: Seq<T>, xs: Seq<T>, cap: nat) -> Seq<T>
    decreases xs.len(),
{
    if xs.len() == 0 {
        b
    } else {
        deliver(deliver_all(b, xs.drop_last(), cap), xs.last(), cap)
    }
}

/// The last `cap` entries of `s`, or all of them when there are no more.
pub open spec fn keep_newest<T>(s: Seq<T>, cap: nat) -> Seq<T> {
    if s.len() <= cap {
        s
    } else {
        s.subrange(s.len() - cap, s.len() as int)
    }
}

/// Whether `copies` holds, position by position, a copy of each of `events`.
pub open spec fn copies_of<T: Clone>(events: Seq<T>, copies: Seq<T>) -> bool {
    &&& copies.len() == events.len()
    &&& forall|i: int| 0 <= i < events.len() ==> cloned(events[i], #[trigger] copies[i])
}

/// A broadcast bus for one event type.
pub struct EventBus<T> {
    mailboxes: Vec<Vec<T>>,
    capacity: usize,
}

impl<T: Clone> EventBus<T> {
    /// Contents of each subscriber's mailbox, oldest first, by subscriber id.
    pub closed spec fn boxes(&self) -> Seq<Seq<T>> {
        self.mailboxes@.map_values(|b: Vec<T>| b@)
    }

    /// Capacity of every mailbox.
    pub closed spec fn cap(&self) -> nat {
        self.capacity as nat
    }

    /// No mailbox holds more than the capacity, which is positive.
    pub open spec fn wf(&self) -> bool {
        &&& self.cap() >= 1
        &&& forall|i: int| 0 <= i < self.boxes().len() ==> #[trigger] self.boxes()[i].len() <= self.cap()
    }

    /// A bus with no subscribers whose mailboxes hold `capacity` entries each.
    pub fn new(capacity: usize) -> (r: Self)
        requires
            capacity >= 1,
        ensures
            r.wf(),
            r.cap() == capacity,
            r.boxes().len() == 0,
    {
        let r = EventBus { mailboxes: Vec::new(), capacity };
        assert(r.boxes() =~= Seq::<Seq<T>>::empty());
        r
    }

    /// Registers a subscriber and returns its id. It sees only events
    /// published from now on.
    pub fn subscribe(&mut self) -> (id: usize)
        requires
            old(self).wf(),
            old(self).boxes().len() < usize::MAX,
        ensures
            final(self).wf(),
            final(self).cap() == old(self).cap(),
            id == old(self).boxes().len(),
            final(self).boxes() == old(self).boxes().push(Seq::<T>::empty()),
    {
        let id = self.mailboxes.len();
        self.mailboxes.push(Vec::new());
        assert(self.boxes() =~= old(self).boxes().push(Seq::<T>::empty()));
        id
    }

    /// Number of registered subscribers.
    pub fn receiver_count(&self) -> (r: usize)
        ensures
            r == self.boxes().len(),
    {
        self.mailboxes.len()
    }

    /// Delivers a copy of `ev` to every subscriber without waiting; a full
    /// mailbox drops its oldest entry. Each mailbox changes on its own.
    pub fn publish(&mut self, ev: &T)
        requires
            old(self).wf(),
        ensures
            final(self).wf(),
            final(self).cap() == old(self).cap(),
            final(self).boxes().len() == old(self).boxes().len(),
            forall|i: int|
                0 <= i < old(self).boxes().len() ==> {
                    &&& cloned(*ev, #[trigger] final(self).boxes()[i].last())
                    &&& final(self).boxes()[i] == deliver(
                        old(self).boxes()[i],
                        final(self).boxes()[i].last(),
                        old(self).cap(),
                    )
                },
    {
        let n = self.mailboxes.len();
        let mut i: usize = 0;
        while i < n
            invariant
                n == old(self).boxes().len(),
                self.capacity == old(self).capacity,
                self.wf(),
                self.boxes().len() == n,
                i <= n,
                forall|j: int|
                    0 <= j < i ==> {
                        &&& cloned(*ev, #[trigger] self.boxes()[j].last())
                        &&& self.boxes()[j] == deliver(
                            old(self).boxes()[j],
                            self.boxes()[j].last(),
                            old(self).cap(),
                        )
                    },
                forall|j: int| i <= j < n ==> #[trigger] self.boxes()[j] == old(self).boxes()[j],
            decreases n - i,
        {
            let copy = ev.clone();
            let ghost before = self.boxes();
            let mut b: Vec<T> = Vec::new();
            self.mailboxes.set_and_swap(i, &mut b);
            proof {
                assert(b@ == before[i as int]);
                assert(b@.len() <= self.capacity) by {
                    assert(before[i as int].len() <= old(self).cap());
                }
            }
            let ghost b0 = b@;
            if b.len() >= self.capacity {
                b.remove(0);
                b.push(copy);
                assert(b@ =~= b0.push(copy).drop_first());
            } else {
                b.push(copy);
            }
            let ghost nb = b@;
            self.mailboxes.set(i, b);
            proof {
                assert(self.boxes() =~= before.update(i as int, nb));
                assert(self.boxes()[i as int].last() == copy);
            }
            i = i + 1;
        }
    }

    /// Takes the oldest entry of subscriber `id`'s mailbox, if any.
    pub fn try_recv(&mut self, id: usize) -> (r: Option<T>)
        requires
            old(self).wf(),
            id < old(self).boxes().len(),
        ensures
            final(self).wf(),
            final(self).cap() == old(self).cap(),
            final(self).boxes().len() == old(self).boxes().len(),
            old(self).boxes()[id as int].len() == 0 ==> r is None && final(self).boxes() == old(
                self,
            ).boxes(),
            old(self).boxes()[id as int].len() > 0 ==> {
                &&& r == Some(old(self).boxes()[id as int][0])
                &&& final(self).boxes() == old(self).boxes().update(
                    id as int,
                    old(self).boxes()[id as int].drop_first(),
                )
            },
    {
        if self.mailboxes[id].len() == 0 {
            return None;
        }
        let ghost before = self.boxes();
        let mut b: Vec<T> = Vec::new();
        self.mailboxes.set_and_swap(id, &mut b);
        assert(b@ == before[id as int]);
        let x = b.remove(0);
        let ghost nb = b@;
        self.mailboxes.set(id, b);
        assert(self.boxes() =~= before.update(id as int, nb));
        Some(x)
    }
}

/// A full mailbox keeps the newest entries: whatever was delivered, a mailbox
/// that starts within its capacity holds exactly the last `cap` entries of
/// what it held followed by what was delivered; only the oldest excess is lost.
pub proof fn lemma_mailbox_keeps_newest<T>(b: Seq<T>, xs: Seq<T>, cap: nat)
    requires
        cap >= 1,
        b.len() <= cap,
    ensures
        deliver_all(b, xs, cap) == keep_newest(b + xs, cap),
    decreases xs.len(),
{
    if xs.len() > 0 {
        lemma_mailbox_keeps_newest(b, xs.drop_last(), cap);
        let prev = keep_newest(b + xs.drop_last(), cap);
        assert(b + xs =~= (b + xs.drop_last()).push(xs.last()));
        let s = b + xs.drop_last();
        if s.len() < cap {
            assert(deliver(prev, xs.last(), cap) =~= keep_newest(b + xs, cap));
        } else {
            assert(prev.len() == cap);
            assert(deliver(prev, xs.last(), cap) =~= keep_newest(b + xs, cap));
        }
    }
}

/// Without overflow a subscriber registered before the events sees all of
/// them, in publish order: copies of `events` delivered to an empty mailbox
/// with room for them all are exactly what the mailbox holds.
pub proof fn lemma_lossless_in_order<T: Clone>(events: Seq<T>, copies: Seq<T>, cap: nat)
    requires
        cap >= 1,
        events.len() <= cap,
        copies_of(events, copies),
    ensures
        deliver_all(Seq::<T>::empty(), copies, cap) == copies,
        copies_of(events, deliver_all(Seq::<T>::empty(), copies, cap)),
{
    lemma_mailbox_keeps_newest(Seq::<T>::empty(), copies, cap);
    assert(Seq::<T>::empty() + copies =~= copies);
}

} // verus!
