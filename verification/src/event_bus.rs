//! Events that flow between capabilities, and the bus that fans them out.

use vstd::prelude::*;
use crate::model::{ChannelMessage, MessageView};

verus! {

/// Events that flow between capabilities.
#[derive(Debug)]
pub enum FeishuEvent {
    /// A new inbound message was received.
    MessageReceived(ChannelMessage),
    /// The tenant access token was refreshed.
    TokenRefreshed { expires_in_secs: u64 },
    /// The inbound connection came up or went down.
    ConnectionStateChanged { connected: bool },
}

/// A `FeishuEvent` as plain values.
pub enum EventView {
    MessageReceived(MessageView),
    TokenRefreshed { expires_in_secs: u64 },
    ConnectionStateChanged { connected: bool },
}

impl View for FeishuEvent {
    type V = EventView;

    open spec fn view(&self) -> EventView {
        match self {
            FeishuEvent::MessageReceived(m) => EventView::MessageReceived(m@),
            FeishuEvent::TokenRefreshed { expires_in_secs } => EventView::TokenRefreshed {
                expires_in_secs: *expires_in_secs,
            },
            FeishuEvent::ConnectionStateChanged { connected } => EventView::ConnectionStateChanged {
                connected: *connected,
            },
        }
    }
}

impl Clone for FeishuEvent {
    fn clone(&self) -> (copy: FeishuEvent)
        ensures
            copy@ == self@,
    {
        match self {
            FeishuEvent::MessageReceived(m) => FeishuEvent::MessageReceived(m.clone()),
            FeishuEvent::TokenRefreshed { expires_in_secs } => FeishuEvent::TokenRefreshed {
                expires_in_secs: *expires_in_secs,
            },
            FeishuEvent::ConnectionStateChanged { connected } => FeishuEvent::ConnectionStateChanged {
                connected: *connected,
            },
        }
    }
}

/// The views of a queue of events, oldest first.
pub open spec fn event_views(queue: Seq<FeishuEvent>) -> Seq<EventView> {
    queue.map_values(|e: FeishuEvent| e@)
}

/// A bus as plain values: the bound on each subscriber's queue, and the
/// queues, in the order in which their subscribers joined.
pub struct BusView {
    pub capacity: nat,
    pub queues: Seq<Seq<EventView>>,
}

impl BusView {
    /// A subscriber's queue after `event` was published: the event is added
    /// at the end unless the queue is full, in which case it is dropped for
    /// this subscriber.
    pub open spec fn delivered(self, queue: Seq<EventView>, event: EventView) -> Seq<EventView> {
        if queue.len() < self.capacity {
            queue.push(event)
        } else {
            queue
        }
    }

    /// The bus after `event` was published to everyone subscribed.
    pub open spec fn published(self, event: EventView) -> BusView {
        BusView {
            capacity: self.capacity,
            queues: Seq::new(self.queues.len(), |i: int| self.delivered(self.queues[i], event)),
        }
    }

    /// The bus after one more subscriber joined, with nothing pending.
    pub open spec fn subscribed(self) -> BusView {
        BusView { capacity: self.capacity, queues: self.queues.push(Seq::empty()) }
    }

    /// The bus after the subscriber at `slot` took its oldest pending event.
    pub open spec fn received(self, slot: int) -> BusView {
        if 0 <= slot < self.queues.len() && self.queues[slot].len() > 0 {
            BusView {
                capacity: self.capacity,
                queues: self.queues.update(slot, self.queues[slot].drop_first()),
            }
        } else {
            self
        }
    }

    /// The oldest event pending for the subscriber at `slot`.
    pub open spec fn oldest(self, slot: int) -> Option<EventView> {
        if 0 <= slot < self.queues.len() && self.queues[slot].len() > 0 {
            Some(self.queues[slot][0])
        } else {
            None
        }
    }
}

/// A subscriber's handle: it names the subscriber's queue on the bus.
#[derive(Debug, Clone, Copy, PartialEq, Eq, Structural)]
pub struct Subscription {
    slot: usize,
}

impl Subscription {
    /// The position of this subscriber among the subscribers of its bus.
    pub closed spec fn slot(self) -> int {
        self.slot as int
    }
}

/// Fan-out bus. Each subscriber has a bounded queue of its own; the bus keeps
/// no history, so a subscriber sees only what is published after it joined.
#[derive(Debug)]
pub struct EventBus {
    capacity: usize,
    queues: Vec<Vec<FeishuEvent>>,
}

impl View for EventBus {
    type V = BusView;

    closed spec fn view(&self) -> BusView {
        BusView {
            capacity: self.capacity as nat,
            queues: Seq::new(self.queues@.len(), |i: int| event_views(self.queues@[i]@)),
        }
    }
}

impl Default for EventBus {
    /// A bus whose subscribers may each have 256 events pending.
    fn default() -> (bus: EventBus)
        ensures
            bus@ == (BusView { capacity: 256, queues: Seq::empty() }),
    {
        EventBus::new(256)
    }
}

impl EventBus {
    /// A bus without subscribers, on which each subscriber may have up to
    /// `capacity` events pending.
    pub fn new(capacity: usize) -> (bus: EventBus)
        ensures
            bus@ == (BusView { capacity: capacity as nat, queues: Seq::empty() }),
    {
        let bus = EventBus { capacity, queues: Vec::new() };
        assert(bus@.queues =~= Seq::empty());
        bus
    }

    /// The bound on each subscriber's queue.
    pub fn capacity(&self) -> (capacity: usize)
        ensures
            capacity == self@.capacity,
    {
        self.capacity
    }

    /// How many subscribers have joined.
    pub fn subscriber_count(&self) -> (count: usize)
        ensures
            count == self@.queues.len(),
    {
        self.queues.len()
    }

    /// Publishes an event to all subscribers. A subscriber whose queue is
    /// full misses the event; the others are not held up.
    pub fn publish(&mut self, event: FeishuEvent)
        ensures
            final(self)@ == old(self)@.published(event@),
    {
        let mut i: usize = 0;
        while i < self.queues.len()
            invariant
                i <= self.queues.len(),
                self.capacity == old(self).capacity,
                self.queues@.len() == old(self).queues@.len(),
                forall|j: int|
                    0 <= j < i ==> event_views(#[trigger] self.queues@[j]@) == old(self)@.delivered(
                        event_views(old(self).queues@[j]@),
                        event@,
                    ),
                forall|j: int|
                    i <= j < self.queues.len() ==> #[trigger] self.queues@[j] == old(self).queues@[j],
            decreases self.queues.len() - i,
        {
            if self.queues[i].len() < self.capacity {
                let copy = event.clone();
                let ghost before = self.queues@[i as int]@;
                self.queues[i].push(copy);
                assert(event_views(self.queues@[i as int]@) =~= event_views(before).push(event@));
            }
            i += 1;
        }
        assert(self@.queues =~= old(self)@.published(event@).queues);
    }

    /// Joins the bus. The new subscriber has nothing pending: what was
    /// published before is not replayed.
    pub fn subscribe(&mut self) -> (handle: Subscription)
        ensures
            final(self)@ == old(self)@.subscribed(),
            handle.slot() == old(self)@.queues.len(),
    {
        let slot = self.queues.len();
        self.queues.push(Vec::new());
        assert(event_views(self.queues@[slot as int]@) =~= Seq::empty());
        assert(self@.queues =~= old(self)@.subscribed().queues);
        Subscription { slot }
    }

    /// How many events are pending for a subscriber; 0 for a handle that is
    /// not of this bus.
    pub fn pending(&self, handle: &Subscription) -> (count: usize)
        ensures
            0 <= handle.slot() < self@.queues.len() ==> count == self@.queues[handle.slot()].len(),
            !(0 <= handle.slot() < self@.queues.len()) ==> count == 0,
    {
        if handle.slot < self.queues.len() {
            self.queues[handle.slot].len()
        } else {
            0
        }
    }

    /// Takes the oldest event pending for a subscriber, if there is one.
    pub fn receive(&mut self, handle: &Subscription) -> (event: Option<FeishuEvent>)
        ensures
            final(self)@ == old(self)@.received(handle.slot()),
            match event {
                Some(e) => old(self)@.oldest(handle.slot()) == Some(e@),
                None => old(self)@.oldest(handle.slot()) is None,
            },
    {
        if handle.slot < self.queues.len() && self.queues[handle.slot].len() > 0 {
            let ghost before = self.queues@[handle.slot as int]@;
            let event = self.queues[handle.slot].remove(0);
            assert(event_views(self.queues@[handle.slot as int]@) =~= event_views(
                before,
            ).drop_first());
            assert(self@.queues =~= old(self)@.received(handle.slot()).queues);
            Some(event)
        } else {
            assert(self@.queues =~= old(self)@.received(handle.slot()).queues);
            None
        }
    }
}

/// A published event reaches every subscriber who joined before it was
/// published and has room: it becomes that subscriber's newest pending
/// event, behind what was pending already.
pub proof fn lemma_publish_reaches_subscribers(bus: BusView, event: EventView, slot: int)
    requires
        0 <= slot < bus.queues.len(),
        bus.queues[slot].len() < bus.capacity,
    ensures
        bus.published(event).queues[slot] == bus.queues[slot].push(event),
        bus.published(event).queues[slot].last() == event,
        bus.queues[slot].len() == 0 ==> bus.published(event).oldest(slot) == Some(event),
{
}

/// Events reach a subscriber in the order in which they were published: of
/// two events published to a subscriber with nothing pending and room for
/// both, the first is received first and the second after it.
pub proof fn lemma_received_in_published_order(
    bus: BusView,
    first: EventView,
    second: EventView,
    slot: int,
)
    requires
        0 <= slot < bus.queues.len(),
        bus.queues[slot].len() == 0,
        bus.capacity >= 2,
    ensures
        bus.published(first).published(second).oldest(slot) == Some(first),
        bus.published(first).published(second).received(slot).oldest(slot) == Some(second),
{
}

/// A subscriber whose queue is full misses the event, and nobody else is
/// affected by that.
pub proof fn lemma_full_queue_drops(bus: BusView, event: EventView, slot: int)
    requires
        0 <= slot < bus.queues.len(),
        bus.queues[slot].len() >= bus.capacity,
    ensures
        bus.published(event).queues[slot] == bus.queues[slot],
        bus.published(event).queues.len() == bus.queues.len(),
{
}

/// A subscriber who joins after an event was published never receives it:
/// the newcomer starts with nothing pending, whatever was published before.
pub proof fn lemma_late_subscriber_misses(bus: BusView, event: EventView)
    ensures
        bus.published(event).subscribed().queues.last() == Seq::<EventView>::empty(),
        bus.published(event).subscribed().oldest(bus.queues.len() as int) is None,
        bus.published(event).subscribed().queues.len() == bus.queues.len() + 1,
{
}

} // verus!
