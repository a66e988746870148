//! Button gestures and the bounded queue that carries them from the edge
//! detector to the dispatcher.

use heapless::mpmc::Q8;
use vstd::prelude::*;

verus! {

/// A gesture recognised on the button.
#[derive(Clone, Copy, Debug, PartialEq, Eq, Structural)]
pub enum ButtonEvents {
    Click,
    Hold,
    DoubleClick,
}

/// Number of events the queue holds at most.
pub const EVENT_QUEUE_CAPACITY: usize = 8;

/// `heapless::mpmc::Q8`, the lock-free queue of eight slots, carried as a
/// value that only the functions below look into.
#[verifier::external_type_specification]
#[verifier::external_body]
#[verifier::reject_recursive_types(T)]
pub struct ExQ8<T>(Q8<T>);

/// The events waiting in a `heapless::mpmc::Q8`, oldest first.
pub uninterp spec fn queued(q: Q8<ButtonEvents>) -> Seq<ButtonEvents>;

/// `heapless::mpmc::Q8::new`: a queue with nothing in it.
#[verifier::external_body]
fn queue_new() -> (q: Q8<ButtonEvents>)
    ensures
        queued(q) == Seq::<ButtonEvents>::empty(),
{
    Q8::new()
}

/// `heapless::mpmc::Q8::enqueue` on a queue with a free slot: the event goes
/// to the back and the call reports success.
///
/// A full queue is left out, because the call does not always return on
/// one.  It tells a full slot from a free one by the difference of two 8-bit
/// sequence numbers, taken without regard to their wrapping; on a full queue
/// that has taken a multiple of 256 events so far, or up to six more, the
/// difference comes out positive and the call retries for ever instead of
/// handing the event back.
#[verifier::external_body]
fn queue_enqueue(q: &mut Q8<ButtonEvents>, event: ButtonEvents) -> (accepted: bool)
    requires
        queued(*old(q)).len() < 8,
    ensures
        accepted,
        queued(*final(q)) == queued(*old(q)).push(event),
{
    q.enqueue(event).is_ok()
}

/// `heapless::mpmc::Q8::dequeue`: takes the oldest event out, or returns
/// `None` and changes nothing when the queue is empty.
#[verifier::external_body]
fn queue_dequeue(q: &mut Q8<ButtonEvents>) -> (front: Option<ButtonEvents>)
    ensures
        queued(*old(q)).len() == 0 ==> front is None && queued(*final(q)) == queued(*old(q)),
        queued(*old(q)).len() > 0 ==> front == Some(queued(*old(q))[0]) && queued(*final(q))
            == queued(*old(q)).subrange(1, queued(*old(q)).len() as int),
{
    q.dequeue()
}

/// What the queue holds after `event` is offered to it: the event joins at
/// the back while there is room, and is dropped otherwise.
pub open spec fn offered(waiting: Seq<ButtonEvents>, event: ButtonEvents) -> Seq<ButtonEvents> {
    if waiting.len() < EVENT_QUEUE_CAPACITY {
        waiting.push(event)
    } else {
        waiting
    }
}

/// The event that leaves the queue next, if any.
pub open spec fn front_of(waiting: Seq<ButtonEvents>) -> Option<ButtonEvents> {
    if waiting.len() > 0 {
        Some(waiting[0])
    } else {
        None
    }
}

/// What the queue holds after its front event, if any, was taken.
pub open spec fn without_front(waiting: Seq<ButtonEvents>) -> Seq<ButtonEvents> {
    if waiting.len() > 0 {
        waiting.subrange(1, waiting.len() as int)
    } else {
        waiting
    }
}

/// First-in, first-out queue of at most [`EVENT_QUEUE_CAPACITY`] events.
///
/// It never blocks: an event offered to a full queue is dropped, and taking
/// from an empty queue yields nothing.  The queue counts what it holds and
/// does not hand an event to full slots.
pub struct EventQueue {
    slots: Q8<ButtonEvents>,
    held: usize,
}

impl View for EventQueue {
    type V = Seq<ButtonEvents>;

    closed spec fn view(&self) -> Seq<ButtonEvents> {
        queued(self.slots)
    }
}

impl EventQueue {
    /// The count kept beside the slots agrees with them and is within capacity.
    pub closed spec fn wf(&self) -> bool {
        &&& self.held == queued(self.slots).len()
        &&& self.held <= EVENT_QUEUE_CAPACITY
    }

    pub fn new() -> (q: Self)
        ensures
            q.wf(),
            q@ == Seq::<ButtonEvents>::empty(),
    {
        EventQueue { slots: queue_new(), held: 0 }
    }

    /// Offers `event` to the queue and tells whether it was taken.
    pub fn enqueue(&mut self, event: ButtonEvents) -> (accepted: bool)
        requires
            old(self).wf(),
        ensures
            final(self).wf(),
            accepted == (old(self)@.len() < EVENT_QUEUE_CAPACITY),
            final(self)@ == offered(old(self)@, event),
            final(self)@.len() <= EVENT_QUEUE_CAPACITY,
    {
        if self.held < EVENT_QUEUE_CAPACITY {
            let accepted: bool = queue_enqueue(&mut self.slots, event);
            self.held = self.held + 1;
            accepted
        } else {
            false
        }
    }

    /// Takes the oldest event out of the queue.
    pub fn dequeue(&mut self) -> (front: Option<ButtonEvents>)
        requires
            old(self).wf(),
        ensures
            final(self).wf(),
            front == front_of(old(self)@),
            final(self)@ == without_front(old(self)@),
    {
        let front: Option<ButtonEvents> = queue_dequeue(&mut self.slots);
        if front.is_some() {
            self.held = self.held - 1;
        }
        front
    }

    pub fn len(&self) -> (n: usize)
        requires
            self.wf(),
        ensures
            n == self@.len(),
            n <= EVENT_QUEUE_CAPACITY,
    {
        self.held
    }

    pub fn is_empty(&self) -> (empty: bool)
        requires
            self.wf(),
        ensures
            empty == (self@.len() == 0),
    {
        self.held == 0
    }

    pub fn is_full(&self) -> (full: bool)
        requires
            self.wf(),
        ensures
            full == (self@.len() == EVENT_QUEUE_CAPACITY),
    {
        self.held == EVENT_QUEUE_CAPACITY
    }
}

/// A well-formed queue holds no more than its capacity.
pub proof fn lemma_queue_within_capacity(q: &EventQueue)
    requires
        q.wf(),
    ensures
        q@.len() <= EVENT_QUEUE_CAPACITY,
{
}

/// Offering an event never takes the queue past its capacity, and past
/// capacity it changes nothing.
pub proof fn lemma_offer_bounded(waiting: Seq<ButtonEvents>, event: ButtonEvents)
    requires
        waiting.len() <= EVENT_QUEUE_CAPACITY,
    ensures
        offered(waiting, event).len() <= EVENT_QUEUE_CAPACITY,
        waiting.len() == EVENT_QUEUE_CAPACITY ==> offered(waiting, event) == waiting,
        waiting.len() < EVENT_QUEUE_CAPACITY ==> offered(waiting, event).len() == waiting.len() + 1,
{
}

/// Events leave in the order in which they were accepted: what was offered
/// to a queue with room comes out once everything before it has.
pub proof fn lemma_first_in_first_out(waiting: Seq<ButtonEvents>, event: ButtonEvents)
    requires
        waiting.len() < EVENT_QUEUE_CAPACITY,
    ensures
        waiting.len() == 0 ==> front_of(offered(waiting, event)) == Some(event)
            && without_front(offered(waiting, event)) == waiting,
        waiting.len() > 0 ==> front_of(offered(waiting, event)) == front_of(waiting)
            && without_front(offered(waiting, event)) == offered(without_front(waiting), event),
{
    if waiting.len() == 0 {
        assert(without_front(offered(waiting, event)) =~= waiting);
    } else {
        assert(without_front(offered(waiting, event)) =~= offered(without_front(waiting), event));
    }
}

} // verus!
