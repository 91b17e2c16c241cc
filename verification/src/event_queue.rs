use vstd::prelude::*;
use std::collections::VecDeque;
use crate::state::Event;

verus! {

/// The events that the controlling process has sent and the hooks have not
/// yet applied, oldest first. The hooks keep it behind a lock, beside an
/// operating-system event that is set exactly while the queue is not empty.
pub struct EventQueue {
    queue: VecDeque<Event>,
}

impl View for EventQueue {
    type V = Seq<Event>;

    closed spec fn view(&self) -> Seq<Event> {
        self.queue@
    }
}

impl EventQueue {
    /// An empty queue.
    pub fn new() -> (queue: Self)
        ensures
            queue@ == Seq::<Event>::empty(),
    {
        EventQueue { queue: VecDeque::new() }
    }

    /// Whether no event waits.
    pub fn is_empty(&self) -> (empty: bool)
        ensures
            empty == (self@.len() == 0),
    {
        self.queue.len() == 0
    }

    /// Adds an event behind those already waiting.
    pub fn enqueue(&mut self, event: Event)
        ensures
            final(self)@ == old(self)@.push(event),
    {
        self.queue.push_back(event);
    }

    /// Takes the oldest waiting event, if there is one, together with whether
    /// the queue is empty afterwards (the moment to reset the pending signal).
    pub fn dequeue(&mut self) -> (dequeued: Option<(Event, bool)>)
        ensures
            old(self)@.len() == 0 ==> dequeued is None && final(self)@ == old(self)@,
            old(self)@.len() > 0 ==> dequeued == Some((old(self)@[0], old(self)@.len() == 1))
                && final(self)@ == old(self)@.drop_first(),
    {
        match self.queue.pop_front() {
            Some(event) => {
                let now_empty = self.queue.len() == 0;
                Some((event, now_empty))
            },
            None => None,
        }
    }
}

impl Default for EventQueue {
    fn default() -> (queue: Self)
        ensures
            queue@ == Seq::<Event>::empty(),
    {
        Self::new()
    }
}

/// The events that a run of dequeues takes from a queue holding `queue`,
/// as many as there are.
pub open spec fn dequeue_all(queue: Seq<Event>) -> Seq<Event>
    decreases queue.len(),
{
    if queue.len() == 0 {
        Seq::empty()
    } else {
        seq![queue[0]] + dequeue_all(queue.drop_first())
    }
}

/// Events leave the queue in the order in which they entered it: an event
/// enqueued behind the events of `queue` is dequeued after all of them, and
/// dequeuing until the queue is empty gives back the enqueued events, oldest
/// first.
pub proof fn lemma_queue_is_fifo(queue: Seq<Event>, event: Event)
    ensures
        dequeue_all(queue.push(event)) == dequeue_all(queue).push(event),
        dequeue_all(queue) == queue,
    decreases queue.len(),
{
    if queue.len() > 0 {
        lemma_queue_is_fifo(queue.drop_first(), event);
        assert(queue.push(event).drop_first() =~= queue.drop_first().push(event));
        assert(seq![queue[0]] + queue.drop_first() =~= queue);
        assert(seq![queue[0]] + dequeue_all(queue.drop_first()).push(event) =~= (seq![queue[0]]
            + dequeue_all(queue.drop_first())).push(event));
    } else {
        assert(queue =~= Seq::<Event>::empty());
        assert(queue.push(event).drop_first() =~= Seq::<Event>::empty());
        assert(dequeue_all(queue.push(event).drop_first()) =~= Seq::<Event>::empty());
        assert(seq![event] + Seq::<Event>::empty() =~= Seq::<Event>::empty().push(event));
    }
}

} // verus!
