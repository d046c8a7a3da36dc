//! The queue of events: what the readers of the debugger and of the terminal
//! have produced and the session has not yet taken.
//!
//! The queue is bounded. A producer that finds it full is told so and tries
//! again later, so that no event is dropped; the session takes the oldest
//! event, if there is one, and never waits for one.

use crate::gdb::QUEUE_CAPACITY;
use crate::options::OptionsGdbInterface;
use std::collections::VecDeque;
use vstd::prelude::*;

verus! {

/// One use of the queue.
pub enum QueueOp {
    /// A producer offers an event.
    Send(OptionsGdbInterface),
    /// The session asks for an event.
    Receive,
}

/// What a queue is, as mathematics.
pub struct QueueModel {
    /// The events that wait, oldest first.
    pub items: Seq<OptionsGdbInterface>,
    /// The number of events that may wait at one time.
    pub capacity: nat,
}

impl QueueModel {
    /// Whether the queue has room for one more event.
    pub open spec fn has_room(self) -> bool {
        self.items.len() < self.capacity
    }

    /// The queue after a producer offered `event`: the event waits behind all
    /// others if there was room, and nothing changes if there was none.
    pub open spec fn offered(self, event: OptionsGdbInterface) -> QueueModel {
        if self.has_room() {
            QueueModel { items: self.items.push(event), ..self }
        } else {
            self
        }
    }

    /// The queue after the session asked for an event: the oldest event is
    /// gone, if there was one.
    pub open spec fn asked(self) -> QueueModel {
        if self.items.len() > 0 {
            QueueModel { items: self.items.drop_first(), ..self }
        } else {
            self
        }
    }

    /// The queue after one use.
    pub open spec fn used(self, op: QueueOp) -> QueueModel {
        match op {
            QueueOp::Send(event) => self.offered(event),
            QueueOp::Receive => self.asked(),
        }
    }

    /// The queue after the uses of `ops`, first to last.
    pub open spec fn used_all(self, ops: Seq<QueueOp>) -> QueueModel
        decreases ops.len(),
    {
        if ops.len() == 0 {
            self
        } else {
            self.used_all(ops.drop_last()).used(ops.last())
        }
    }

    /// The events that the queue took in during the uses of `ops`, in the
    /// order in which it took them.
    pub open spec fn taken_in(self, ops: Seq<QueueOp>) -> Seq<OptionsGdbInterface>
        decreases ops.len(),
    {
        if ops.len() == 0 {
            Seq::empty()
        } else {
            let before = self.used_all(ops.drop_last());
            let earlier = self.taken_in(ops.drop_last());
            match ops.last() {
                QueueOp::Send(event) => if before.has_room() {
                    earlier.push(event)
                } else {
                    earlier
                },
                QueueOp::Receive => earlier,
            }
        }
    }

    /// The events that the queue handed out during the uses of `ops`, in the
    /// order in which it handed them out.
    pub open spec fn handed_out(self, ops: Seq<QueueOp>) -> Seq<OptionsGdbInterface>
        decreases ops.len(),
    {
        if ops.len() == 0 {
            Seq::empty()
        } else {
            let before = self.used_all(ops.drop_last());
            let earlier = self.handed_out(ops.drop_last());
            match ops.last() {
                QueueOp::Send(event) => earlier,
                QueueOp::Receive => if before.items.len() > 0 {
                    earlier.push(before.items[0])
                } else {
                    earlier
                },
            }
        }
    }
}

/// The bounded queue of events.
pub struct EventQueue {
    items: VecDeque<OptionsGdbInterface>,
    capacity: usize,
}

impl View for EventQueue {
    type V = QueueModel;

    closed spec fn view(&self) -> QueueModel {
        QueueModel { items: self.items@, capacity: self.capacity as nat }
    }
}

impl EventQueue {
    #[verifier::type_invariant]
    closed spec fn within_capacity(&self) -> bool {
        self.items@.len() <= self.capacity
    }

    /// An empty queue with the capacity that the session works with.
    pub fn new() -> (queue: EventQueue)
        ensures
            queue@ == (QueueModel { items: Seq::empty(), capacity: QUEUE_CAPACITY as nat }),
    {
        EventQueue { items: VecDeque::new(), capacity: QUEUE_CAPACITY }
    }

    /// The number of events that wait. It is never more than the capacity.
    pub fn len(&self) -> (n: usize)
        ensures
            n == self@.items.len(),
            n <= self@.capacity,
    {
        proof {
            use_type_invariant(&*self);
        }
        self.items.len()
    }

    /// The number of events that may wait at one time.
    pub fn capacity(&self) -> (n: usize)
        ensures
            n == self@.capacity,
    {
        self.capacity
    }

    /// Whether no event waits.
    pub fn is_empty(&self) -> (b: bool)
        ensures
            b == (self@.items.len() == 0),
    {
        self.items.len() == 0
    }

    /// Whether the queue has no room for one more event.
    pub fn is_full(&self) -> (b: bool)
        ensures
            b == !self@.has_room(),
    {
        self.items.len() >= self.capacity
    }

    /// The oldest event, if there is one. It stays in the queue.
    pub fn front(&self) -> (event: Option<OptionsGdbInterface>)
        ensures
            event == (if self@.items.len() > 0 {
                Some(self@.items[0])
            } else {
                None
            }),
    {
        if self.items.len() > 0 {
            Some(self.items[0])
        } else {
            None
        }
    }

    /// Offers an event. Returns whether the queue took it in: it does so
    /// whenever it has room, and then the event waits behind all others. An
    /// event that is not taken in is not lost: the producer still has it, and
    /// offers it again once the session has made room.
    pub fn try_send(&mut self, event: OptionsGdbInterface) -> (taken: bool)
        ensures
            taken == old(self)@.has_room(),
            final(self)@ == old(self)@.offered(event),
    {
        proof {
            use_type_invariant(&*self);
        }
        if self.items.len() < self.capacity {
            let mut items: VecDeque<OptionsGdbInterface> = VecDeque::new();
            std::mem::swap(&mut items, &mut self.items);
            items.push_back(event);
            self.items = items;
            true
        } else {
            false
        }
    }

    /// Takes the oldest event, if there is one, and never waits for one.
    pub fn try_recv(&mut self) -> (event: Option<OptionsGdbInterface>)
        ensures
            event == (if old(self)@.items.len() > 0 {
                Some(old(self)@.items[0])
            } else {
                None
            }),
            final(self)@ == old(self)@.asked(),
    {
        proof {
            use_type_invariant(&*self);
        }
        let mut items: VecDeque<OptionsGdbInterface> = VecDeque::new();
        std::mem::swap(&mut items, &mut self.items);
        let event = items.pop_front();
        self.items = items;
        event
    }
}

/// The queue neither drops nor reorders: through any uses, the events that
/// waited at first, followed by those that the queue took in, are the events
/// that it handed out, followed by those that still wait. And the queue never
/// holds more than its capacity, if it did not at first.
pub proof fn lemma_queue_keeps_order(queue: QueueModel, ops: Seq<QueueOp>)
    requires
        queue.items.len() <= queue.capacity,
    ensures
        queue.items + queue.taken_in(ops) == queue.handed_out(ops) + queue.used_all(ops).items,
        queue.used_all(ops).items.len() <= queue.capacity,
        queue.used_all(ops).capacity == queue.capacity,
    decreases ops.len(),
{
    if ops.len() > 0 {
        let earlier = ops.drop_last();
        lemma_queue_keeps_order(queue, earlier);
        let before = queue.used_all(earlier);
        let all = queue.items + queue.taken_in(earlier);
        if let QueueOp::Send(event) = ops.last() {
            if before.has_room() {
                assert(queue.handed_out(ops) + queue.used_all(ops).items =~= all.push(event));
            }
        }
    }
}

} // verus!
