//! The queue that carries lifecycle events from whoever produces them (the
//! platform's callbacks, the mock backend's countdowns) to the one consumer
//! that drains it once per tick.

use vstd::prelude::*;
use crossbeam::queue::SegQueue;
use crate::message::{message_views, AdMessage, AdMessageView};

verus! {

/// `crossbeam::queue::SegQueue`, an unbounded queue of segments. Nothing is
/// known of what is inside a value but what the functions below say of it.
#[verifier::external_type_specification]
#[verifier::external_body]
#[verifier::reject_recursive_types(T)]
pub struct ExSegQueue<T>(SegQueue<T>);

/// The messages that a `SegQueue` holds, oldest first.
pub uninterp spec fn queued_messages(queue: SegQueue<AdMessage>) -> Seq<AdMessage>;

/// `SegQueue::new`: the new queue holds nothing.
#[verifier::external_body]
fn seg_queue_new() -> (queue: SegQueue<AdMessage>)
    ensures
        queued_messages(queue) == Seq::<AdMessage>::empty(),
{
    SegQueue::new()
}

/// `SegQueue::push`, called by the queue's only holder: the message goes
/// behind those already queued, which stay as they are.
#[verifier::external_body]
fn seg_queue_push(queue: &mut SegQueue<AdMessage>, message: AdMessage)
    ensures
        queued_messages(*final(queue)) == queued_messages(*old(queue)).push(message),
{
    queue.push(message)
}

/// `SegQueue::pop`, called by the queue's only holder: `None` from an empty
/// queue, which stays empty; otherwise the oldest message, which leaves the
/// queue while the others keep their order.
#[verifier::external_body]
fn seg_queue_pop(queue: &mut SegQueue<AdMessage>) -> (head: Option<AdMessage>)
    ensures
        match head {
            Some(message) => {
                &&& queued_messages(*old(queue)).len() > 0
                &&& message == queued_messages(*old(queue)).first()
                &&& queued_messages(*final(queue)) == queued_messages(*old(queue)).drop_first()
            },
            None => {
                &&& queued_messages(*old(queue)).len() == 0
                &&& queued_messages(*final(queue)) == queued_messages(*old(queue))
            },
        },
{
    queue.pop()
}

/// An unbounded first-in, first-out queue of lifecycle events. Its view is
/// what it holds, oldest first.
pub struct EventQueue {
    queue: SegQueue<AdMessage>,
}

impl View for EventQueue {
    type V = Seq<AdMessageView>;

    closed spec fn view(&self) -> Seq<AdMessageView> {
        message_views(queued_messages(self.queue))
    }
}

impl EventQueue {
    /// An empty queue.
    pub fn new() -> (queue: EventQueue)
        ensures
            queue@ == Seq::<AdMessageView>::empty(),
    {
        EventQueue { queue: seg_queue_new() }
    }

    /// Appends `event` to the logical end of the queue.
    pub fn push(&mut self, event: AdMessage)
        ensures
            final(self)@ == old(self)@.push(event@),
    {
        seg_queue_push(&mut self.queue, event);
    }

    /// Removes and returns everything that is queued, oldest first.
    pub fn drain_all(&mut self) -> (events: Vec<AdMessage>)
        ensures
            message_views(events@) == old(self)@,
            final(self)@ == Seq::<AdMessageView>::empty(),
    {
        let mut events: Vec<AdMessage> = Vec::new();
        loop
            invariant
                message_views(events@) + self@ == old(self)@,
            ensures
                message_views(events@) == old(self)@,
                self@ == Seq::<AdMessageView>::empty(),
            decreases self@.len(),
        {
            match seg_queue_pop(&mut self.queue) {
                Some(event) => {
                    events.push(event);
                },
                None => {
                    break ;
                },
            }
        }
        events
    }
}

/// Appends `event` to the logical end of `queue`.
pub fn write_event_to_queue(queue: &mut EventQueue, event: AdMessage)
    ensures
        final(queue)@ == old(queue)@.push(event@),
{
    queue.push(event);
}

/// What a queue that holds `queued` comes to hold when `events` are pushed
/// one by one, in their order of arrival.
pub open spec fn after_pushes(queued: Seq<AdMessageView>, events: Seq<AdMessageView>) -> Seq<
    AdMessageView,
>
    decreases events.len(),
{
    if events.len() == 0 {
        queued
    } else {
        after_pushes(queued.push(events.first()), events.drop_first())
    }
}

/// Whatever the order in which the producers' pushes arrive, nothing is lost,
/// nothing is duplicated and nothing overtakes: after the pushes the queue
/// holds what it held before, followed by the pushed events in their order of
/// arrival, and this is what one drain returns.
pub proof fn lemma_pushes_arrive_in_order(queued: Seq<AdMessageView>, events: Seq<AdMessageView>)
    ensures
        after_pushes(queued, events) == queued + events,
        after_pushes(queued, events).to_multiset() == queued.to_multiset().add(
            events.to_multiset(),
        ),
    decreases events.len(),
{
    if events.len() > 0 {
        lemma_pushes_arrive_in_order(queued.push(events.first()), events.drop_first());
    }
    vstd::seq_lib::lemma_multiset_commutative(queued, events);
}

/// The events of any one producer, picked out by `mine`, pass through the
/// queue in the order in which that producer pushed them, whatever the other
/// producers pushed in between: a drain after the pushes returns, of that
/// producer, what was queued before and then what it pushed, each event once.
pub proof fn lemma_each_producer_keeps_its_order(
    queued: Seq<AdMessageView>,
    events: Seq<AdMessageView>,
    mine: spec_fn(AdMessageView) -> bool,
)
    ensures
        after_pushes(queued, events).filter(mine) == queued.filter(mine) + events.filter(mine),
{
    lemma_pushes_arrive_in_order(queued, events);
    Seq::filter_distributes_over_add(queued, events, mine);
}

} // verus!
