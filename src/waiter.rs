//! Event masks and the guest wait queue that fds wake.
use vstd::prelude::*;

verus! {

/// A set of readiness events, one bit per event.
pub type EventMask = u64;

pub const EVENT_IN: u64 = 0x01;
pub const EVENT_PRI: u64 = 0x02;
pub const EVENT_OUT: u64 = 0x04;
pub const EVENT_ERR: u64 = 0x08;
pub const EVENT_HUP: u64 = 0x10;
pub const EVENT_RD_NORM: u64 = 0x40;
pub const EVENT_WR_NORM: u64 = 0x100;

/// Every event that a host mask can carry into the guest.
pub const ALL_EVENTS: u64 = 0x15f;

pub const READABLE_EVENT: u64 = 0x01;
pub const WRITEABLE_EVENT: u64 = 0x04;

/// The guest events that a host (epoll) event mask stands for.
pub open spec fn from_linux(e: u32) -> u64 {
    (e as u64) & ALL_EVENTS
}

/// Translates a host event mask into the guest's event mask.
pub fn EventMaskFromLinux(e: u32) -> (r: EventMask)
    ensures
        r == from_linux(e),
{
    (e as u64) & ALL_EVENTS
}

/// One task blocked on a queue: the events it waits for and how many
/// times it has been woken.
#[derive(Clone, Copy, Debug, PartialEq, Eq)]
pub struct Waiter {
    pub mask: EventMask,
    pub wakes: u64,
}

/// The waiter after one notification of `ev`: woken once if it waits for
/// any of those events (the count stays at its largest value).
pub open spec fn notified(w: Waiter, ev: u64) -> Waiter {
    if w.mask & ev != 0 && w.wakes < u64::MAX {
        Waiter { mask: w.mask, wakes: (w.wakes + 1) as u64 }
    } else {
        w
    }
}

/// Every waiter of `s` after one notification of `ev`.
pub open spec fn notify_all(s: Seq<Waiter>, ev: u64) -> Seq<Waiter> {
    s.map_values(|w: Waiter| notified(w, ev))
}

/// The union of the events that the waiters of `s` wait for.
pub open spec fn events_of(s: Seq<Waiter>) -> u64
    decreases s.len(),
{
    if s.len() == 0 {
        0
    } else {
        events_of(s.drop_last()) | s.last().mask
    }
}

/// A guest wait queue: the waiters registered on it, in order.
#[derive(Debug)]
pub struct Queue {
    pub waiters: Vec<Waiter>,
}

impl View for Queue {
    type V = Seq<Waiter>;

    open spec fn view(&self) -> Seq<Waiter> {
        self.waiters@
    }
}

impl Clone for Queue {
    fn clone(&self) -> (r: Queue)
        ensures
            r@ == self@,
    {
        let mut waiters: Vec<Waiter> = Vec::new();
        let mut i: usize = 0;
        while i < self.waiters.len()
            invariant
                i <= self@.len(),
                waiters@ == self@.take(i as int),
            decreases self@.len() - i,
        {
            waiters.push(self.waiters[i]);
            i = i + 1;
            assert(waiters@ =~= self@.take(i as int));
        }
        assert(self@.take(i as int) =~= self@);
        Queue { waiters }
    }
}

impl Queue {
    /// A queue with no waiters.
    pub fn New() -> (r: Queue)
        ensures
            r@ == Seq::<Waiter>::empty(),
    {
        Queue { waiters: Vec::new() }
    }

    /// Registers a waiter for `mask`; returns its index in the queue.
    pub fn EventRegister(&mut self, mask: EventMask) -> (id: usize)
        requires
            old(self)@.len() < usize::MAX,
        ensures
            id == old(self)@.len(),
            final(self)@ == old(self)@.push(Waiter { mask, wakes: 0 }),
    {
        let id = self.waiters.len();
        self.waiters.push(Waiter { mask, wakes: 0 });
        id
    }

    /// How many times the waiter at `id` has been woken.
    pub fn Wakes(&self, id: usize) -> (r: u64)
        requires
            id < self@.len(),
        ensures
            r == self@[id as int].wakes,
    {
        self.waiters[id].wakes
    }

    /// The union of the events that the registered waiters wait for.
    pub fn Events(&self) -> (r: EventMask)
        ensures
            r == events_of(self@),
    {
        let mut r: u64 = 0;
        let mut i: usize = 0;
        while i < self.waiters.len()
            invariant
                i <= self@.len(),
                r == events_of(self@.take(i as int)),
            decreases self@.len() - i,
        {
            assert(self@.take(i as int + 1).drop_last() =~= self@.take(i as int));
            r = r | self.waiters[i].mask;
            i = i + 1;
        }
        assert(self@.take(i as int) =~= self@);
        r
    }

    /// Wakes every waiter that waits for one of the events of `mask`.
    pub fn Notify(&mut self, mask: EventMask)
        ensures
            final(self)@ == notify_all(old(self)@, mask),
    {
        let n = self.waiters.len();
        let mut i: usize = 0;
        while i < n
            invariant
                n == old(self)@.len(),
                i <= n,
                self@.len() == n,
                forall|k: int| 0 <= k < i ==> #[trigger] self@[k] == notified(old(self)@[k], mask),
                forall|k: int| i <= k < n ==> #[trigger] self@[k] == old(self)@[k],
            decreases n - i,
        {
            let w = self.waiters[i];
            if w.mask & mask != 0 && w.wakes < u64::MAX {
                self.waiters.set(i, Waiter { mask: w.mask, wakes: w.wakes + 1 });
            }
            i = i + 1;
        }
        assert(self@ =~= notify_all(old(self)@, mask));
    }
}

/// A waiter registered on a queue is woken exactly once by a notification
/// of an event it waits for, and not at all by one of disjoint events.
pub proof fn lemma_notify_round_trip(q: Seq<Waiter>, interest: u64, ev: u64)
    ensures
        ({
            let w = q.push(Waiter { mask: interest, wakes: 0 })[q.len() as int];
            &&& interest & ev != 0 ==> notified(w, ev).wakes == 1
            &&& interest & ev == 0 ==> notified(w, ev).wakes == 0
        }),
{
}

} // verus!
