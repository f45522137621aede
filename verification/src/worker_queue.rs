//! A FIFO queue that hands out one lease at a time.
//!
//! A consumer leases the oldest payload, works on a copy of it, and then
//! either acknowledges the lease (the payload leaves the queue) or gives it
//! back (the payload stays at the head for the next consumer). While a lease
//! is out, no second one is granted.
//!
//! [`LeaseState`] is the mathematical picture of such a queue and
//! [`TaskQueue`] the executable one. The payloads of a [`TaskQueue`] live in
//! numbered slots; the order in which they arrived is kept by a queue of slot
//! numbers from the `queues` crate (see [`crate::trusted`]).

use crate::trusted::{fifo_add, fifo_new, fifo_peek, fifo_remove, fifo_size, fifo_slots};
use queues::Queue;
use vstd::prelude::*;

verus! {

/// What a queue is to its callers: the waiting payloads, oldest first, and
/// whether the oldest one is out on lease.
#[verifier::ext_equal]
pub struct LeaseState<T> {
    pub items: Seq<T>,
    pub leased: bool,
}

/// One call made on a queue, as recorded in a history of calls.
pub enum QueueOp<T> {
    Put(T),
    Lease,
    Ack,
    Nack,
}

impl<T> LeaseState<T> {
    /// The queue as `new` makes it.
    pub open spec fn empty() -> Self {
        LeaseState { items: Seq::empty(), leased: false }
    }

    /// A lease is only ever out on a payload that is still queued.
    pub open spec fn valid(self) -> bool {
        self.leased ==> self.items.len() > 0
    }

    /// Something waits, leased or not.
    pub open spec fn has_items(self) -> bool {
        self.items.len() > 0
    }

    /// A lease is granted exactly when something waits and no lease is out.
    pub open spec fn can_lease(self) -> bool {
        self.has_items() && !self.leased
    }

    /// The payload that the next lease covers.
    pub open spec fn head(self) -> T
        recommends
            self.has_items(),
    {
        self.items[0]
    }

    /// The queue after `item` was appended at the tail.
    pub open spec fn put(self, item: T) -> Self {
        LeaseState { items: self.items.push(item), leased: self.leased }
    }

    /// The queue after its head was leased: the head stays where it is.
    pub open spec fn lease(self) -> Self
        recommends
            self.can_lease(),
    {
        LeaseState { items: self.items, leased: true }
    }

    /// The queue after the lease was acknowledged: the head is gone.
    pub open spec fn ack(self) -> Self
        recommends
            self.leased,
            self.valid(),
    {
        LeaseState { items: self.items.drop_first(), leased: false }
    }

    /// The queue after the lease was given back: the head stays.
    pub open spec fn nack(self) -> Self {
        LeaseState { items: self.items, leased: false }
    }

    /// This call takes a lease out.
    pub open spec fn grants(self, op: QueueOp<T>) -> bool {
        op is Lease && self.can_lease()
    }

    /// This call ends the lease that is out.
    pub open spec fn releases(self, op: QueueOp<T>) -> bool {
        (op is Ack || op is Nack) && self.leased
    }

    /// The queue after one call. A lease that cannot be granted and an
    /// acknowledgement without a lease leave the queue as it was.
    pub open spec fn apply(self, op: QueueOp<T>) -> Self {
        match op {
            QueueOp::Put(item) => self.put(item),
            QueueOp::Lease => if self.can_lease() {
                self.lease()
            } else {
                self
            },
            QueueOp::Ack => if self.leased {
                self.ack()
            } else {
                self
            },
            QueueOp::Nack => self.nack(),
        }
    }

    /// The queue after a history of calls, made in order.
    pub open spec fn run(self, ops: Seq<QueueOp<T>>) -> Self
        decreases ops.len(),
    {
        if ops.len() == 0 {
            self
        } else {
            self.run(ops.drop_last()).apply(ops.last())
        }
    }

    /// The payloads that a history of calls acknowledged, in order.
    pub open spec fn acked(self, ops: Seq<QueueOp<T>>) -> Seq<T>
        decreases ops.len(),
    {
        if ops.len() == 0 {
            Seq::empty()
        } else {
            let before = self.run(ops.drop_last());
            let earlier = self.acked(ops.drop_last());
            if ops.last() is Ack && before.leased {
                earlier.push(before.head())
            } else {
                earlier
            }
        }
    }

    /// How many leases a history of calls took out.
    pub open spec fn granted(self, ops: Seq<QueueOp<T>>) -> nat
        decreases ops.len(),
    {
        if ops.len() == 0 {
            0
        } else if self.run(ops.drop_last()).grants(ops.last()) {
            self.granted(ops.drop_last()) + 1
        } else {
            self.granted(ops.drop_last())
        }
    }

    /// How many leases a history of calls ended.
    pub open spec fn released(self, ops: Seq<QueueOp<T>>) -> nat
        decreases ops.len(),
    {
        if ops.len() == 0 {
            0
        } else if self.run(ops.drop_last()).releases(ops.last()) {
            self.released(ops.drop_last()) + 1
        } else {
            self.released(ops.drop_last())
        }
    }
}

/// The payloads that a history of calls put, in order.
pub open spec fn puts_of<T>(ops: Seq<QueueOp<T>>) -> Seq<T>
    decreases ops.len(),
{
    if ops.len() == 0 {
        Seq::empty()
    } else {
        match ops.last() {
            QueueOp::Put(item) => puts_of(ops.drop_last()).push(item),
            _ => puts_of(ops.drop_last()),
        }
    }
}

/// No call breaks the rule that a lease covers a queued payload.
pub proof fn lemma_run_valid<T>(ops: Seq<QueueOp<T>>)
    ensures
        LeaseState::<T>::empty().run(ops).valid(),
    decreases ops.len(),
{
    if ops.len() > 0 {
        lemma_run_valid(ops.drop_last());
    }
}

/// First in, first out. After any history of calls on a new queue, the
/// payloads acknowledged so far followed by the payloads still waiting are
/// the payloads put so far, in the order in which they were put. So the lease
/// that would be granted next covers the oldest payload not yet acknowledged.
pub proof fn lemma_fifo<T>(ops: Seq<QueueOp<T>>)
    ensures
        ({
            let start = LeaseState::<T>::empty();
            &&& start.acked(ops) + start.run(ops).items == puts_of(ops)
            &&& start.run(ops).has_items() ==> start.run(ops).head() == puts_of(ops)[start.acked(
                ops,
            ).len() as int]
        }),
    decreases ops.len(),
{
    if ops.len() > 0 {
        lemma_fifo(ops.drop_last());
        lemma_run_valid(ops.drop_last());
    }
}

/// At most one lease is out at any time. After any history of calls on a new
/// queue, the leases taken out less the leases ended is 1 while a lease is
/// out and 0 otherwise; and while one is out, no further lease is granted.
pub proof fn lemma_single_lease<T>(ops: Seq<QueueOp<T>>)
    ensures
        ({
            let start = LeaseState::<T>::empty();
            &&& start.granted(ops) - start.released(ops) == if start.run(ops).leased {
                1int
            } else {
                0int
            }
            &&& start.run(ops).leased ==> !start.run(ops).grants(QueueOp::Lease)
        }),
    decreases ops.len(),
{
    if ops.len() > 0 {
        lemma_single_lease(ops.drop_last());
        lemma_run_valid(ops.drop_last());
    }
}

/// A put never touches what waits already: the head of a queue that has
/// items stays the head, a lease that is out stays out, and the new payload
/// comes last.
pub proof fn lemma_put_keeps_order<T>(q: LeaseState<T>, item: T)
    requires
        q.valid(),
    ensures
        q.put(item).valid(),
        q.put(item).items == q.items + seq![item],
        q.put(item).leased == q.leased,
        q.has_items() ==> q.put(item).head() == q.head(),
{
}

/// Giving a lease back and leasing again hands out the same payload, and the
/// queue is as long as it was.
pub proof fn lemma_nack_then_lease<T>(q: LeaseState<T>)
    requires
        q.valid(),
        q.leased,
    ensures
        q.nack().can_lease(),
        q.nack().head() == q.head(),
        q.nack().items == q.items,
        q.nack().lease() == q,
{
}

/// An acknowledgement takes out the head and nothing else, and the queue has
/// items afterwards exactly when more than one was waiting.
pub proof fn lemma_ack_removes_one<T>(q: LeaseState<T>)
    requires
        q.valid(),
        q.leased,
    ensures
        q.ack().items.len() == q.items.len() - 1,
        seq![q.head()] + q.ack().items == q.items,
        q.ack().has_items() <==> q.items.len() > 1,
        !q.ack().leased,
        q.ack().valid(),
{
}

/// A lease: a copy of the payload at the head of the queue that granted it.
/// Only a queue makes a lease, and a lease cannot be copied: it ends when it
/// is handed back to the queue, with [`TaskQueue::task_done`] or with
/// [`TaskQueue::task_incomplete`].
pub struct Work<T> {
    task: T,
}

impl<T> View for Work<T> {
    type V = T;

    /// The copy that the lease carries.
    closed spec fn view(&self) -> T {
        self.task
    }
}

impl<T: Clone> Work<T> {
    pub(crate) fn new(task: T) -> (work: Work<T>)
        ensures
            work@ == task,
    {
        Work { task }
    }

    /// A copy of the leased payload.
    pub fn get_task(&self) -> (task: T)
        ensures
            cloned(self@, task),
    {
        self.task.clone()
    }
}

/// A queue of payloads with at most one lease out.
pub struct TaskQueue<T: Clone> {
    /// Slot numbers of the waiting payloads, oldest first.
    order: Queue<usize>,
    /// The payloads, by slot number. A slot that holds nothing is free.
    slots: Vec<Option<T>>,
    /// Numbers of free slots, for reuse.
    free: Vec<usize>,
    working: bool,
    has_work: bool,
}

impl<T: Clone> View for TaskQueue<T> {
    type V = LeaseState<T>;

    closed spec fn view(&self) -> LeaseState<T> {
        let order = fifo_slots(self.order);
        LeaseState {
            items: Seq::new(order.len(), |i: int| self.slots@[order[i] as int].unwrap()),
            leased: self.working,
        }
    }
}

impl<T: Clone> TaskQueue<T> {
    /// Every queued number names a slot of its own that holds a payload,
    /// every free number a slot of its own that holds none, and the two flags
    /// agree with the queue.
    pub closed spec fn wf(&self) -> bool {
        let order = fifo_slots(self.order);
        &&& forall|i: int|
            0 <= i < order.len() ==> order[i] < self.slots@.len() && self.slots@[order[i] as int].is_some()
        &&& forall|i: int, j: int| 0 <= i < j < order.len() ==> order[i] != order[j]
        &&& forall|i: int|
            0 <= i < self.free@.len() ==> self.free@[i] < self.slots@.len()
                && self.slots@[self.free@[i] as int].is_none()
        &&& forall|i: int, j: int| 0 <= i < j < self.free@.len() ==> self.free@[i] != self.free@[j]
        &&& self.has_work == (order.len() > 0)
        &&& self.working ==> self.has_work
    }

    /// A well-formed queue never has a lease out on nothing.
    pub proof fn lemma_wf_valid(&self)
        requires
            self.wf(),
        ensures
            self@.valid(),
    {
    }

    /// A queue with nothing in it and no lease out.
    #[must_use]
    pub fn new() -> (q: TaskQueue<T>)
        ensures
            q.wf(),
            q@ == LeaseState::<T>::empty(),
    {
        TaskQueue {
            order: fifo_new(),
            slots: Vec::new(),
            free: Vec::new(),
            working: false,
            has_work: false,
        }
    }

    /// Leases the head if a lease can be granted, and says so with `None` if
    /// not: nothing waits, or a lease is out. The queue keeps the payload;
    /// the lease carries a copy.
    pub fn try_get(&mut self) -> (granted: Option<Work<T>>)
        requires
            old(self).wf(),
        ensures
            final(self).wf(),
            match granted {
                Some(work) => {
                    &&& old(self)@.can_lease()
                    &&& final(self)@ == old(self)@.lease()
                    &&& cloned(old(self)@.head(), work@)
                },
                None => !old(self)@.can_lease() && final(self)@ == old(self)@,
            },
    {
        if !self.has_work || self.working {
            return None;
        }
        match fifo_peek(&self.order) {
            Some(slot) => match &self.slots[slot] {
                Some(task) => {
                    let copy = task.clone();
                    self.working = true;
                    Some(Work::new(copy))
                },
                None => None,
            },
            None => None,
        }
    }

    /// Leases the head of a queue on which a lease can be granted. A caller
    /// that has to wait for that moment polls [`TaskQueue::try_get`].
    pub fn get(&mut self) -> (work: Work<T>)
        requires
            old(self).wf(),
            old(self)@.can_lease(),
        ensures
            final(self).wf(),
            final(self)@ == old(self)@.lease(),
            cloned(old(self)@.head(), work@),
    {
        match self.try_get() {
            Some(work) => work,
            None => unreached(),
        }
    }

    /// Appends a payload at the tail.
    pub fn put(&mut self, task: T)
        requires
            old(self).wf(),
        ensures
            final(self).wf(),
            final(self)@ == old(self)@.put(task),
    {
        let slot: usize = match self.free.pop() {
            Some(slot) => {
                self.slots.set(slot, Some(task));
                slot
            },
            None => {
                self.slots.push(Some(task));
                self.slots.len() - 1
            },
        };
        fifo_add(&mut self.order, slot);
        self.has_work = true;
    }

    /// Acknowledges the lease that is out: the head leaves the queue.
    pub fn task_done(&mut self, work: Work<T>)
        requires
            old(self).wf(),
            old(self)@.leased,
        ensures
            final(self).wf(),
            final(self)@ == old(self)@.ack(),
    {
        let _ = work;
        match fifo_remove(&mut self.order) {
            Some(slot) => {
                self.slots.set(slot, None);
                self.free.push(slot);
            },
            None => {},
        }
        if fifo_size(&self.order) == 0 {
            self.has_work = false;
        }
        self.working = false;
    }

    /// Gives the lease back: the payload stays at the head, for the next
    /// lease. Nothing limits how often the same payload is leased and given
    /// back, so a payload that no consumer can ever finish holds up all that
    /// wait behind it until a consumer acknowledges it.
    pub fn task_incomplete(&mut self, work: Work<T>)
        requires
            old(self).wf(),
        ensures
            final(self).wf(),
            final(self)@ == old(self)@.nack(),
    {
        let _ = work;
        self.working = false;
    }

    /// How many payloads wait, the leased one included.
    pub fn size(&self) -> (n: usize)
        ensures
            n == self@.items.len(),
    {
        fifo_size(&self.order)
    }

    /// Whether anything waits.
    pub fn has_work(&self) -> (b: bool)
        requires
            self.wf(),
        ensures
            b == self@.has_items(),
    {
        self.has_work
    }

    /// Whether a lease is out.
    pub fn is_working(&self) -> (b: bool)
        ensures
            b == self@.leased,
    {
        self.working
    }
}

impl<T: Clone> Default for TaskQueue<T> {
    fn default() -> (q: Self)
        ensures
            q.wf(),
            q@ == LeaseState::<T>::empty(),
    {
        Self::new()
    }
}

} // verus!
