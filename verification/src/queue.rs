use vstd::prelude::*;

use std::sync::Arc;
use std::sync::Mutex;

use crate::events::EventKind;

verus! {

/// An ordered, unbounded queue of lifecycle event kinds. The producer appends
/// at the tail; the consumer atomically drains everything in arrival order.
/// This is the verified sequential model of the queue the shared handle
/// [`SharedEventQueue`] guards with its lock: one step of that queue, between
/// taking and releasing the lock, is one method here.
pub struct EventQueue {
    items: Vec<EventKind>,
}

impl View for EventQueue {
    type V = Seq<EventKind>;

    closed spec fn view(&self) -> Seq<EventKind> {
        self.items@
    }
}

/// What one atomic drain yields from a queue holding `q`: all of `q` in
/// arrival order, and the queue it leaves behind, which is empty.
pub open spec fn drain_spec(q: Seq<EventKind>) -> (Seq<EventKind>, Seq<EventKind>) {
    (q, Seq::<EventKind>::empty())
}

/// The queue contents after the pushes of `arrivals`, in that arrival order,
/// have landed on a queue holding `q`.
pub open spec fn after_pushes(q: Seq<EventKind>, arrivals: Seq<EventKind>) -> Seq<EventKind>
    decreases arrivals.len(),
{
    if arrivals.len() == 0 {
        q
    } else {
        after_pushes(q.push(arrivals[0]), arrivals.skip(1))
    }
}

impl EventQueue {
    /// An empty queue.
    pub fn new() -> (q: Self)
        ensures
            q@ == Seq::<EventKind>::empty(),
    {
        let q = EventQueue { items: Vec::new() };
        proof {
            assert(q@ =~= Seq::<EventKind>::empty());
        }
        q
    }

    /// Appends one event kind at the tail.
    pub fn push(&mut self, kind: EventKind)
        ensures
            final(self)@ == old(self)@.push(kind),
    {
        self.items.push(kind);
    }

    /// Atomically removes and returns everything queued, in arrival order,
    /// leaving the queue empty.
    pub fn drain(&mut self) -> (drained: Vec<EventKind>)
        ensures
            (drained@, final(self)@) == drain_spec(old(self)@),
            drained@ == old(self)@,
            final(self)@ == Seq::<EventKind>::empty(),
    {
        let mut drained: Vec<EventKind> = Vec::new();
        let n = self.items.len();
        let mut i: usize = 0;
        while i < n
            invariant
                i <= n,
                n == self.items@.len(),
                self.items@ == old(self)@,
                drained@ =~= self.items@.subrange(0, i as int),
            decreases n - i,
        {
            drained.push(self.items[i]);
            i = i + 1;
        }
        self.items.clear();
        proof {
            assert(drained@ =~= old(self)@);
            assert(self@ =~= Seq::<EventKind>::empty());
        }
        drained
    }

    /// How many events are queued.
    pub fn len(&self) -> (n: usize)
        ensures
            n == self@.len(),
    {
        self.items.len()
    }
}

/// Law (queue order preservation): however many concurrent pushes there were,
/// once the lock has serialized them into a single global arrival order, a
/// drain yields exactly that order appended to what was already queued — no
/// reordering, no loss, no duplication — and leaves the queue empty.
pub proof fn lemma_queue_order_preservation(q: Seq<EventKind>, arrivals: Seq<EventKind>)
    ensures
        after_pushes(q, arrivals) == q + arrivals,
        drain_spec(after_pushes(q, arrivals)).0 == q + arrivals,
        drain_spec(after_pushes(q, arrivals)).1 == Seq::<EventKind>::empty(),
    decreases arrivals.len(),
{
    if arrivals.len() == 0 {
        assert(after_pushes(q, arrivals) =~= q + arrivals);
    } else {
        lemma_queue_order_preservation(q.push(arrivals[0]), arrivals.skip(1));
        assert(q.push(arrivals[0]) + arrivals.skip(1) =~= q + arrivals);
    }
}

/// Law (idempotent drain): draining a non-empty queue twice, with no push in
/// between, yields a non-empty sequence and then an empty one.
pub proof fn lemma_drain_idempotent(q: Seq<EventKind>)
    requires
        q.len() > 0,
    ensures
        drain_spec(q).0.len() > 0,
        drain_spec(drain_spec(q).1).0 == Seq::<EventKind>::empty(),
{
}

/// The shared handle to one event queue: an atomic reference count around a
/// mutual-exclusion lock around a verified [`EventQueue`]. One handle lives in
/// each callback the background connection runs (producer side, append only);
/// one lives with the foreground sync loop (consumer side, drain in order).
///
/// All pushes are serialized by the single lock, so the drained order is the
/// true arrival order. The verified [`EventQueue`] is the sequential model of
/// this queue: `push` here is the tail append that [`EventQueue::push`]
/// states, and `drain` here is the atomic take that [`EventQueue::drain`]
/// states. A poisoned lock — a prior panic in another execution context — is
/// fatal by design: the handle panics rather than lose lifecycle events.
#[verifier::external_body]
pub struct SharedEventQueue {
    inner: Arc<Mutex<Vec<EventKind>>>,
}

impl SharedEventQueue {
    /// Relies on std::sync::Arc::new and std::sync::Mutex::new around an empty
    /// std vector: a fresh handle to a new, empty queue.
    #[verifier::external_body]
    pub fn new() -> (q: Self) {
        SharedEventQueue { inner: Arc::new(Mutex::new(Vec::new())) }
    }

    /// Relies on std::sync::Arc::clone: a second handle to the same queue —
    /// the clone shares the one allocation, so as a value of this opaque
    /// type, which stands for the queue it reaches, it equals this one.
    #[verifier::external_body]
    pub fn handle(&self) -> (h: Self)
        ensures
            h == *self,
    {
        SharedEventQueue { inner: Arc::clone(&self.inner) }
    }

    /// Relies on std::sync::Mutex::lock for exclusion and std Vec::push for
    /// the tail append — the step [`EventQueue::push`] states. Another
    /// execution context may push through its own handle at any time, so
    /// nothing is promised of the shared contents.
    #[verifier::external_body]
    pub fn push(&self, kind: EventKind) {
        self.inner.lock().expect("event queue lock poisoned").push(kind);
    }

    /// Relies on std::sync::Mutex::lock for exclusion and std::mem::take for
    /// the removal — the atomic take [`EventQueue::drain`] states: everything
    /// queued at lock time, in arrival order, leaving the queue empty. Nothing
    /// is promised of the shared contents.
    #[verifier::external_body]
    pub fn drain(&self) -> (drained: Vec<EventKind>) {
        std::mem::take(&mut *self.inner.lock().expect("event queue lock poisoned"))
    }
}

} // verus!
