//! The broadcast hub: who is listening, and who is owed a copy of a write.
//!
//! The hub keeps no history. A write that is published goes to the sessions
//! that are subscribed at that moment, one copy each, and to nobody else.
//! The copies travel in queues that the sessions own; the hub only names the
//! sessions that are to get one.

use crate::point::Point;
use vstd::prelude::*;

verus! {

/// What the hub knows: the subscriptions that are open, oldest first, and the
/// number that the next subscription will get.
pub struct HubView {
    pub subscribers: Seq<u64>,
    pub next: nat,
}

impl HubView {
    /// No subscription is listed twice, and each was handed out before.
    pub open spec fn wf(self) -> bool {
        &&& self.subscribers.no_duplicates()
        &&& forall|i: int| 0 <= i < self.subscribers.len() ==> #[trigger] self.subscribers[i]
            < self.next
        &&& self.next <= u64::MAX
    }

    /// A hub that nobody has subscribed to yet.
    pub open spec fn empty() -> HubView {
        HubView { subscribers: Seq::empty(), next: 0 }
    }

    /// The hub after one more subscription. When the numbers have run out the
    /// hub takes no subscription and stays as it is.
    pub open spec fn subscribe(self) -> HubView {
        if self.next < u64::MAX {
            HubView { subscribers: self.subscribers.push(self.next as u64), next: self.next + 1 }
        } else {
            self
        }
    }

    /// The hub after the subscription `id` is given up. Giving up a
    /// subscription that is not open changes nothing.
    pub open spec fn unsubscribe(self, id: u64) -> HubView {
        if self.subscribers.contains(id) {
            HubView {
                subscribers: self.subscribers.remove(self.subscribers.index_of(id)),
                next: self.next,
            }
        } else {
            self
        }
    }
}

/// Something that happens at the hub.
pub enum HubEvent {
    /// A session subscribes.
    Subscribe,
    /// The session with this subscription leaves.
    Unsubscribe(u64),
    /// A committed write is published.
    Publish(Point),
}

/// The hub after an event.
pub open spec fn hub_step(hub: HubView, event: HubEvent) -> HubView {
    match event {
        HubEvent::Subscribe => hub.subscribe(),
        HubEvent::Unsubscribe(id) => hub.unsubscribe(id),
        HubEvent::Publish(_) => hub,
    }
}

/// The hub after a run of events, first to last.
pub open spec fn hub_run(hub: HubView, events: Seq<HubEvent>) -> HubView
    decreases events.len(),
{
    if events.len() == 0 {
        hub
    } else {
        hub_step(hub_run(hub, events.drop_last()), events.last())
    }
}

/// The writes that an event delivers to the subscription `id`.
pub open spec fn delivered(hub: HubView, event: HubEvent, id: u64) -> Seq<Point> {
    match event {
        HubEvent::Publish(write) => if hub.subscribers.contains(id) {
            seq![write]
        } else {
            Seq::empty()
        },
        _ => Seq::empty(),
    }
}

/// All the writes that a run of events delivers to the subscription `id`, in
/// the order in which they were published.
pub open spec fn inbox(hub: HubView, events: Seq<HubEvent>, id: u64) -> Seq<Point>
    decreases events.len(),
{
    if events.len() == 0 {
        Seq::empty()
    } else {
        inbox(hub, events.drop_last(), id) + delivered(
            hub_run(hub, events.drop_last()),
            events.last(),
            id,
        )
    }
}

/// The writes that a run of events publishes, in order.
pub open spec fn published(events: Seq<HubEvent>) -> Seq<Point>
    decreases events.len(),
{
    if events.len() == 0 {
        Seq::empty()
    } else {
        match events.last() {
            HubEvent::Publish(write) => published(events.drop_last()).push(write),
            _ => published(events.drop_last()),
        }
    }
}

/// The broadcast hub.
pub struct Hub {
    subscribers: Vec<u64>,
    next: u64,
}

impl View for Hub {
    type V = HubView;

    closed spec fn view(&self) -> HubView {
        HubView { subscribers: self.subscribers@, next: self.next as nat }
    }
}

impl Hub {
    /// Every hub is in order: see [`HubView::wf`].
    #[verifier::type_invariant]
    spec fn inv(self) -> bool {
        self@.wf()
    }

    /// A hub that nobody has subscribed to yet.
    pub fn new() -> (hub: Hub)
        ensures
            hub@.wf(),
            hub@ == HubView::empty(),
    {
        Hub { subscribers: Vec::new(), next: 0 }
    }

    /// Opens a subscription and returns its number, which no subscription of
    /// this hub had before. Returns `None`, and changes nothing, when the
    /// numbers have run out.
    pub fn subscribe(&mut self) -> (id: Option<u64>)
        ensures
            final(self)@.wf(),
            final(self)@ == old(self)@.subscribe(),
            id == if old(self)@.next < u64::MAX {
                Some(old(self)@.next as u64)
            } else {
                None
            },
    {
        proof {
            use_type_invariant(&*self);
        }
        if self.next == u64::MAX {
            return None;
        }
        let id: u64 = self.next;
        let mut listed: Vec<u64> = Vec::new();
        core::mem::swap(&mut self.subscribers, &mut listed);
        let ghost before = listed@;
        listed.push(id);
        proof {
            assert forall|i: int, j: int|
                0 <= i < listed@.len() && 0 <= j < listed@.len() && i != j implies listed@[i]
                != listed@[j] by {
                if i < before.len() {
                    assert(before[i] < id);
                }
                if j < before.len() {
                    assert(before[j] < id);
                }
            }
        }
        self.next = id + 1;
        self.subscribers = listed;
        Some(id)
    }

    /// Gives up the subscription `id` and tells whether it was open.
    pub fn unsubscribe(&mut self, id: u64) -> (was_open: bool)
        ensures
            final(self)@.wf(),
            final(self)@ == old(self)@.unsubscribe(id),
            was_open == old(self)@.subscribers.contains(id),
            !final(self)@.subscribers.contains(id),
    {
        proof {
            use_type_invariant(&*self);
            lemma_unsubscribe_wf(self@, id);
        }
        let mut i: usize = 0;
        while i < self.subscribers.len()
            invariant
                i <= self.subscribers.len(),
                *self == *old(self),
                self@.wf(),
                forall|k: int| 0 <= k < i ==> self.subscribers@[k] != id,
            decreases self.subscribers.len() - i,
        {
            if self.subscribers[i] == id {
                let mut listed: Vec<u64> = Vec::new();
                core::mem::swap(&mut self.subscribers, &mut listed);
                proof {
                    assert(listed@[i as int] == id);
                    let chosen = listed@.index_of(id);
                    assert(0 <= chosen < listed@.len() && listed@[chosen] == id);
                    assert(chosen == i);
                }
                listed.remove(i);
                self.subscribers = listed;
                return true;
            }
            i += 1;
        }
        false
    }

    /// Tells whether the subscription `id` is open.
    pub fn is_subscribed(&self, id: u64) -> (open: bool)
        ensures
            open == self@.subscribers.contains(id),
    {
        let mut i: usize = 0;
        while i < self.subscribers.len()
            invariant
                i <= self.subscribers.len(),
                forall|k: int| 0 <= k < i ==> self.subscribers@[k] != id,
            decreases self.subscribers.len() - i,
        {
            if self.subscribers[i] == id {
                return true;
            }
            i += 1;
        }
        false
    }

    /// Publishes a committed write: names the sessions that are to get a
    /// copy. These are the subscriptions open now, oldest first, each named
    /// once. The hub itself keeps nothing of the write.
    pub fn publish(&self, write: &Point) -> (recipients: Vec<u64>)
        ensures
            recipients@ == self@.subscribers,
            recipients@.no_duplicates(),
            forall|id: u64|
                delivered(self@, HubEvent::Publish(*write), id) == if recipients@.contains(id) {
                    seq![*write]
                } else {
                    Seq::empty()
                },
    {
        proof {
            use_type_invariant(self);
        }
        self.subscribers.clone()
    }
}

/// Whatever happens at a hub, no subscription is ever listed twice and every
/// open subscription was handed out before.
pub proof fn lemma_hub_stays_wf(hub: HubView, events: Seq<HubEvent>)
    requires
        hub.wf(),
    ensures
        hub_run(hub, events).wf(),
        hub_run(hub, events).next >= hub.next,
    decreases events.len(),
{
    if events.len() > 0 {
        lemma_hub_stays_wf(hub, events.drop_last());
        let before = hub_run(hub, events.drop_last());
        match events.last() {
            HubEvent::Subscribe => {
                lemma_subscribe_wf(before);
            },
            HubEvent::Unsubscribe(id) => {
                lemma_unsubscribe_wf(before, id);
            },
            HubEvent::Publish(_) => {},
        }
    }
}

/// Subscribing keeps the hub in order.
pub proof fn lemma_subscribe_wf(hub: HubView)
    requires
        hub.wf(),
    ensures
        hub.subscribe().wf(),
        hub.next < u64::MAX ==> hub.subscribe().subscribers.contains(hub.next as u64),
        hub.next < u64::MAX ==> !hub.subscribers.contains(hub.next as u64),
{
    if hub.next < u64::MAX {
        let id = hub.next as u64;
        let after = hub.subscribers.push(id);
        assert(after[hub.subscribers.len() as int] == id);
        assert forall|i: int, j: int|
            0 <= i < after.len() && 0 <= j < after.len() && i != j implies after[i]
            != after[j] by {
            if i < hub.subscribers.len() {
                assert(hub.subscribers[i] < id);
            }
            if j < hub.subscribers.len() {
                assert(hub.subscribers[j] < id);
            }
        }
    }
}

/// Unsubscribing keeps the hub in order, takes the subscription off the list
/// and leaves every other subscription on it.
pub proof fn lemma_unsubscribe_wf(hub: HubView, id: u64)
    requires
        hub.wf(),
    ensures
        hub.unsubscribe(id).wf(),
        !hub.unsubscribe(id).subscribers.contains(id),
        forall|other: u64|
            other != id ==> (hub.unsubscribe(id).subscribers.contains(other)
                <==> hub.subscribers.contains(other)),
{
    if hub.subscribers.contains(id) {
        let before = hub.subscribers;
        let at = before.index_of(id);
        let after = before.remove(at);
        assert(before[at] == id);
        assert forall|k: int| 0 <= k < after.len() implies #[trigger] after[k] < hub.next
            && after[k] != id by {
            if k < at {
                assert(after[k] == before[k]);
            } else {
                assert(after[k] == before[k + 1]);
            }
        }
        assert forall|a: int, b: int|
            0 <= a < after.len() && 0 <= b < after.len() && a != b implies after[a]
            != after[b] by {
            let a0 = if a < at {
                a
            } else {
                a + 1
            };
            let b0 = if b < at {
                b
            } else {
                b + 1
            };
            assert(after[a] == before[a0] && after[b] == before[b0]);
        }
        assert forall|other: u64| other != id implies (after.contains(other) <==> before.contains(
            other,
        )) by {
            if after.contains(other) {
                let k = choose|k: int| 0 <= k < after.len() && after[k] == other;
                if k < at {
                    assert(before[k] == other);
                } else {
                    assert(before[k + 1] == other);
                }
            }
            if before.contains(other) {
                let k = choose|k: int| 0 <= k < before.len() && before[k] == other;
                if k < at {
                    assert(after[k] == other);
                } else {
                    assert(after[k - 1] == other);
                }
            }
        }
    }
}

/// A session that subscribes after a write was published does not receive
/// that write: the number that the next subscription will get has received
/// nothing of what was published so far.
pub proof fn lemma_late_subscriber_missed(hub: HubView, events: Seq<HubEvent>, id: u64)
    requires
        hub.wf(),
        id >= hub_run(hub, events).next,
    ensures
        inbox(hub, events, id) == Seq::<Point>::empty(),
    decreases events.len(),
{
    if events.len() > 0 {
        let earlier = events.drop_last();
        lemma_hub_stays_wf(hub, earlier);
        let before = hub_run(hub, earlier);
        assert(before.next <= hub_run(hub, events).next);
        lemma_late_subscriber_missed(hub, earlier, id);
        if before.subscribers.contains(id) {
            let k = choose|k: int| 0 <= k < before.subscribers.len() && before.subscribers[k] == id;
            assert(before.subscribers[k] < before.next);
        }
    }
}

/// A session that is subscribed when a write is published receives it
/// exactly once: as long as it does not leave, its inbox is the run of the
/// writes that were published, each one time and in order.
pub proof fn lemma_subscriber_receives_each_once(hub: HubView, events: Seq<HubEvent>, id: u64)
    requires
        hub.wf(),
        hub.subscribers.contains(id),
        forall|i: int| 0 <= i < events.len() ==> #[trigger] events[i] != HubEvent::Unsubscribe(id),
    ensures
        hub_run(hub, events).subscribers.contains(id),
        inbox(hub, events, id) == published(events),
    decreases events.len(),
{
    if events.len() > 0 {
        let earlier = events.drop_last();
        assert forall|i: int| 0 <= i < earlier.len() implies #[trigger] earlier[i]
            != HubEvent::Unsubscribe(id) by {
            assert(earlier[i] == events[i]);
        }
        lemma_subscriber_receives_each_once(hub, earlier, id);
        lemma_hub_stays_wf(hub, earlier);
        let before = hub_run(hub, earlier);
        match events.last() {
            HubEvent::Subscribe => {
                if before.next < u64::MAX {
                    let k = choose|k: int|
                        0 <= k < before.subscribers.len() && before.subscribers[k] == id;
                    assert(before.subscribers.push(before.next as u64)[k] == id);
                }
            },
            HubEvent::Unsubscribe(gone) => {
                assert(events[events.len() - 1] != HubEvent::Unsubscribe(id));
                lemma_unsubscribe_wf(before, gone);
            },
            HubEvent::Publish(write) => {
                assert(inbox(hub, events, id) == inbox(hub, earlier, id) + seq![write]);
                assert(published(earlier).push(write) == published(earlier) + seq![write]);
            },
        }
    }
}

/// Running two runs of events one after the other is running them as one.
pub proof fn lemma_run_split(hub: HubView, first: Seq<HubEvent>, second: Seq<HubEvent>)
    ensures
        hub_run(hub, first + second) == hub_run(hub_run(hub, first), second),
    decreases second.len(),
{
    if second.len() == 0 {
        assert(first + second == first);
    } else {
        assert((first + second).drop_last() == first + second.drop_last());
        lemma_run_split(hub, first, second.drop_last());
    }
}

/// What a subscription receives over two runs of events is what it receives
/// over the first and then what it receives over the second.
pub proof fn lemma_inbox_split(
    hub: HubView,
    first: Seq<HubEvent>,
    second: Seq<HubEvent>,
    id: u64,
)
    ensures
        inbox(hub, first + second, id) == inbox(hub, first, id) + inbox(
            hub_run(hub, first),
            second,
            id,
        ),
    decreases second.len(),
{
    if second.len() == 0 {
        assert(first + second == first);
    } else {
        assert((first + second).drop_last() == first + second.drop_last());
        lemma_inbox_split(hub, first, second.drop_last(), id);
        lemma_run_split(hub, first, second.drop_last());
    }
}

/// A session receives the writes that are published while it is subscribed,
/// and no others. Take any run of events, then a subscription, then any run
/// of events in which that subscription is not given up: what the new
/// subscription receives over all of it is the writes published after it was
/// opened, each one time and in order, and none of those published before.
pub proof fn lemma_broadcast_isolation(
    hub: HubView,
    earlier: Seq<HubEvent>,
    later: Seq<HubEvent>,
)
    requires
        hub.wf(),
        hub_run(hub, earlier).next < u64::MAX,
        forall|i: int|
            0 <= i < later.len() ==> #[trigger] later[i] != HubEvent::Unsubscribe(
                hub_run(hub, earlier).next as u64,
            ),
    ensures
        inbox(
            hub,
            earlier.push(HubEvent::Subscribe) + later,
            hub_run(hub, earlier).next as u64,
        ) == published(later),
{
    let id = hub_run(hub, earlier).next as u64;
    let joined = earlier.push(HubEvent::Subscribe);
    assert(joined.drop_last() == earlier);
    lemma_hub_stays_wf(hub, earlier);
    lemma_subscribe_wf(hub_run(hub, earlier));
    lemma_late_subscriber_missed(hub, earlier, id);
    assert(inbox(hub, joined, id) == Seq::<Point>::empty());
    lemma_inbox_split(hub, joined, later, id);
    lemma_subscriber_receives_each_once(hub_run(hub, joined), later, id);
}

} // verus!
