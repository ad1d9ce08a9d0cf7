//! Listener events: one order-preserving channel per subscriber, and the
//! hub that broadcasts to all of them.
//!
//! The hub owns every channel; a subscriber's two handles name their channel
//! by its index, which the hub checks on use. A driver that shares the hub
//! between threads keeps it behind a lock and blocks a reader while its
//! channel is empty.

use vstd::prelude::*;
use std::collections::VecDeque;
use crate::address::PeerAddr;

verus! {

/// Issued when the set of listeners of an acceptor has changed.
#[derive(Clone, Copy, Debug, PartialEq, Eq, Structural)]
pub enum ListenerEvent {
    /// The acceptor has started listening on an address.
    StartListening(PeerAddr),
}

/// The mathematical content of one subscriber's channel.
pub struct ChannelView {
    /// What was sent and not yet received, oldest first. `None` is the
    /// termination marker.
    pub queue: Seq<Option<ListenerEvent>>,
    /// Whether the receiving side still exists.
    pub receiving: bool,
}

/// What a subscriber gets when it asks for its next event.
#[derive(Clone, Copy, Debug, PartialEq, Eq, Structural)]
pub enum Received {
    /// The oldest undelivered event.
    Event(ListenerEvent),
    /// Nothing has been sent yet: a blocking reader waits.
    Pending,
    /// The subscription has ended.
    Finished,
}

/// The mathematical content of a [`ListenerEventsHub`].
pub struct HubView {
    /// Every channel ever created; the index is the channel's name.
    pub channels: Seq<ChannelView>,
    /// The channels that a broadcast is sent to.
    pub subscribers: Set<int>,
}

impl ChannelView {
    /// A channel as a new subscription has it.
    pub open spec fn fresh() -> ChannelView {
        ChannelView { queue: Seq::empty(), receiving: true }
    }

    /// The channel after a send. A send to a channel whose receiving side is
    /// gone is lost.
    pub open spec fn sent(self, item: Option<ListenerEvent>) -> ChannelView {
        if self.receiving {
            ChannelView { queue: self.queue.push(item), receiving: true }
        } else {
            self
        }
    }

    /// The channel after its receiving side has gone: what was queued is
    /// dropped with it.
    pub open spec fn dropped() -> ChannelView {
        ChannelView { queue: Seq::empty(), receiving: false }
    }

    /// What the receiving side gets next.
    pub open spec fn head(self) -> Received {
        if !self.receiving {
            Received::Finished
        } else if self.queue.len() == 0 {
            Received::Pending
        } else {
            match self.queue[0] {
                Some(event) => Received::Event(event),
                None => Received::Finished,
            }
        }
    }

    /// The channel after the receiving side has taken `head()`. Taking the
    /// termination marker uses the receiving side up.
    pub open spec fn received(self) -> ChannelView {
        match self.head() {
            Received::Event(_) => ChannelView { queue: self.queue.drop_first(), receiving: true },
            Received::Pending => self,
            Received::Finished => ChannelView::dropped(),
        }
    }
}

impl HubView {
    /// A hub without channels.
    pub open spec fn empty() -> HubView {
        HubView { channels: Seq::empty(), subscribers: Set::empty() }
    }

    /// Whether `channel` names a channel of this hub.
    pub open spec fn has_channel(self, channel: int) -> bool {
        0 <= channel < self.channels.len()
    }

    /// Every subscriber is a channel of this hub.
    pub open spec fn wf(self) -> bool {
        forall|c: int| #[trigger] self.subscribers.contains(c) ==> self.has_channel(c)
    }

    /// The hub with `channel` replaced, if it is one of the hub's.
    pub open spec fn with_channel(self, channel: int, to: ChannelView) -> HubView {
        if self.has_channel(channel) {
            HubView { channels: self.channels.update(channel, to), subscribers: self.subscribers }
        } else {
            self
        }
    }

    /// The hub after a new subscription. Its channel is named by the number
    /// of channels before.
    pub open spec fn subscribe(self) -> HubView {
        HubView {
            channels: self.channels.push(ChannelView::fresh()),
            subscribers: self.subscribers.insert(self.channels.len() as int),
        }
    }

    /// Whether a broadcast reaches `channel`: it is subscribed and its
    /// receiving side exists.
    pub open spec fn reaches(self, channel: int) -> bool {
        self.has_channel(channel) && self.subscribers.contains(channel)
            && self.channels[channel].receiving
    }

    /// The hub after a broadcast of `event`: every channel that the
    /// broadcast reaches has the event appended, once; a subscriber whose
    /// receiving side is gone is no longer a subscriber.
    pub open spec fn publish(self, event: ListenerEvent) -> HubView {
        HubView {
            channels: Seq::new(
                self.channels.len(),
                |c: int|
                    if self.reaches(c) {
                        self.channels[c].sent(Some(event))
                    } else {
                        self.channels[c]
                    },
            ),
            subscribers: self.subscribers.filter(|c: int| self.reaches(c)),
        }
    }

    /// The hub after the sending side of `channel` has been given up: the
    /// termination marker is sent.
    pub open spec fn close(self, channel: int) -> HubView {
        if self.has_channel(channel) {
            self.with_channel(channel, self.channels[channel].sent(None))
        } else {
            self
        }
    }

    /// What the receiving side of `channel` gets next. A name that is not
    /// one of the hub's channels has nothing to wait for.
    pub open spec fn next(self, channel: int) -> Received {
        if self.has_channel(channel) {
            self.channels[channel].head()
        } else {
            Received::Finished
        }
    }

    /// The hub after the receiving side of `channel` has taken `next()`.
    pub open spec fn receive(self, channel: int) -> HubView {
        if self.has_channel(channel) {
            self.with_channel(channel, self.channels[channel].received())
        } else {
            self
        }
    }

    /// The hub after the receiving side of `channel` has been given up.
    pub open spec fn unsubscribe(self, channel: int) -> HubView {
        self.with_channel(channel, ChannelView::dropped())
    }
}

#[derive(Debug)]
struct Channel {
    queue: VecDeque<Option<ListenerEvent>>,
    receiving: bool,
}

impl View for Channel {
    type V = ChannelView;

    closed spec fn view(&self) -> ChannelView {
        ChannelView { queue: self.queue@, receiving: self.receiving }
    }
}

impl Channel {
    fn send(&mut self, item: Option<ListenerEvent>)
        ensures
            final(self)@ == old(self)@.sent(item),
    {
        if self.receiving {
            self.queue.push_back(item);
        }
    }

    fn take(&mut self) -> (got: Received)
        ensures
            got == old(self)@.head(),
            final(self)@ == old(self)@.received(),
    {
        if !self.receiving {
            self.queue.clear();
            return Received::Finished;
        }
        match self.queue.pop_front() {
            None => Received::Pending,
            Some(Some(event)) => {
                Received::Event(event)
            },
            Some(None) => {
                self.queue.clear();
                self.receiving = false;
                Received::Finished
            },
        }
    }

    fn drop_receiver(&mut self)
        ensures
            final(self)@ == ChannelView::dropped(),
    {
        self.queue.clear();
        self.receiving = false;
    }
}

/// The channels that stand in a list of subscribers.
spec fn listed(subscribers: Seq<usize>) -> Set<int> {
    Set::new(|c: int| exists|j: int| 0 <= j < subscribers.len() && #[trigger] subscribers[j] == c)
}

/// The channels of a hub, and the list of those that a broadcast goes to.
/// Its operations are stated for lists that are well-formed; the hub keeps
/// its own well-formed at all times.
#[derive(Debug)]
struct Subscriptions {
    channels: Vec<Channel>,
    subscribers: Vec<usize>,
}

impl View for Subscriptions {
    type V = HubView;

    closed spec fn view(&self) -> HubView {
        HubView {
            channels: Seq::new(self.channels@.len(), |c: int| self.channels@[c]@),
            subscribers: listed(self.subscribers@),
        }
    }
}

impl Subscriptions {
    /// Every listed subscriber is one of the channels, and none is listed
    /// twice.
    spec fn wf(&self) -> bool {
        &&& forall|j: int|
            0 <= j < self.subscribers@.len() ==> #[trigger] self.subscribers@[j]
                < self.channels@.len()
        &&& forall|i: int, j: int|
            0 <= i < j < self.subscribers@.len() ==> self.subscribers@[i] != self.subscribers@[j]
    }

    /// No channel and no subscriber.
    fn new() -> (hub: Subscriptions)
        ensures
            hub.wf(),
            hub@ == HubView::empty(),
    {
        let hub = Subscriptions { channels: Vec::new(), subscribers: Vec::new() };
        assert(hub@.channels =~= Seq::empty());
        assert(hub@.subscribers =~= Set::empty());
        hub
    }

    /// In a well-formed list every subscriber is one of the channels.
    proof fn lemma_subscribers_are_channels(&self)
        requires
            self.wf(),
        ensures
            self@.wf(),
    {
        assert forall|c: int| self@.subscribers.contains(c) implies self@.has_channel(c) by {
            let j = choose|j: int|
                0 <= j < self.subscribers@.len() && #[trigger] self.subscribers@[j] == c;
        }
    }

    /// How many channels there are.
    fn channels(&self) -> (n: usize)
        ensures
            n == self@.channels.len(),
    {
        self.channels.len()
    }

    /// Creates a channel and subscribes it. The result is the channel's
    /// name.
    fn subscribe(&mut self) -> (channel: usize)
        requires
            old(self).wf(),
        ensures
            final(self).wf(),
            final(self)@ == old(self)@.subscribe(),
            channel == old(self)@.channels.len(),
    {
        let channel = self.channels.len();
        self.channels.push(Channel { queue: VecDeque::new(), receiving: true });
        self.subscribers.push(channel);
        proof {
            let before = old(self)@;
            let after = self@;
            assert(after.channels =~= before.subscribe().channels);
            assert forall|c: int| after.subscribers.contains(c) == before.subscribe().subscribers.contains(c) by {
                if before.subscribers.contains(c) {
                    let j = choose|j: int|
                        0 <= j < old(self).subscribers@.len() && #[trigger] old(
                            self,
                        ).subscribers@[j] == c;
                    assert(self.subscribers@[j] == c);
                }
                if c == channel {
                    assert(self.subscribers@[self.subscribers@.len() - 1] == c);
                }
            }
            assert(after.subscribers =~= before.subscribe().subscribers);
        }
        channel
    }

    /// Sends the termination marker on `channel`.
    fn close(&mut self, channel: usize)
        requires
            old(self).wf(),
        ensures
            final(self).wf(),
            final(self)@ == old(self)@.close(channel as int),
    {
        if channel < self.channels.len() {
            self.channels[channel].send(None);
            assert(self@.channels =~= old(self)@.close(channel as int).channels);
        }
    }

    /// Takes what the receiving side of `channel` gets next.
    fn receive(&mut self, channel: usize) -> (got: Received)
        requires
            old(self).wf(),
        ensures
            final(self).wf(),
            got == old(self)@.next(channel as int),
            final(self)@ == old(self)@.receive(channel as int),
    {
        if channel < self.channels.len() {
            let got = self.channels[channel].take();
            assert(self@.channels =~= old(self)@.receive(channel as int).channels);
            got
        } else {
            Received::Finished
        }
    }

    /// Gives up the receiving side of `channel`.
    fn unsubscribe(&mut self, channel: usize)
        requires
            old(self).wf(),
        ensures
            final(self).wf(),
            final(self)@ == old(self)@.unsubscribe(channel as int),
    {
        if channel < self.channels.len() {
            self.channels[channel].drop_receiver();
            assert(self@.channels =~= old(self)@.unsubscribe(channel as int).channels);
        }
    }

    /// Sends `event` to every subscriber, in turn. A subscriber whose
    /// receiving side is gone cannot be sent to: it is taken off the list,
    /// and the last of the list takes its place.
    fn publish(&mut self, event: ListenerEvent)
        requires
            old(self).wf(),
        ensures
            final(self).wf(),
            final(self)@ == old(self)@.publish(event),
    {
        let ghost before = old(self)@;
        let ghost listed_before = listed(old(self).subscribers@);
        let mut index: usize = 0;
        while index < self.subscribers.len()
            invariant
                self.wf(),
                old(self).wf(),
                before == old(self)@,
                listed_before == listed(old(self).subscribers@),
                index <= self.subscribers@.len(),
                self.channels@.len() == old(self).channels@.len(),
                forall|j: int|
                    0 <= j < self.subscribers@.len() ==> listed_before.contains(
                        #[trigger] self.subscribers@[j] as int,
                    ),
                forall|j: int|
                    0 <= j < index ==> before.channels[#[trigger] self.subscribers@[j] as int].receiving,
                forall|c: int|
                    listed_before.contains(c) && before.has_channel(c) && before.channels[c].receiving
                        ==> #[trigger] listed(self.subscribers@).contains(c),
                forall|c: int|
                    0 <= c < self.channels@.len() ==> #[trigger] self.channels@[c]@ == if listed(
                        self.subscribers@.take(index as int),
                    ).contains(c) {
                        before.channels[c].sent(Some(event))
                    } else {
                        before.channels[c]
                    },
            decreases self.subscribers@.len() - index,
        {
            let ghost subs = self.subscribers@;
            let ghost chans = self.channels@;
            let channel = self.subscribers[index];
            assert(!listed(subs.take(index as int)).contains(channel as int)) by {
                if listed(subs.take(index as int)).contains(channel as int) {
                    let j = choose|j: int|
                        0 <= j < subs.take(index as int).len() && #[trigger] subs.take(
                            index as int,
                        )[j] == channel as int;
                    assert(subs[j] == subs[index as int]);
                }
            }
            assert(chans[channel as int]@ == before.channels[channel as int]);
            if self.channels[channel].receiving {
                self.channels[channel].send(Some(event));
                index += 1;
                proof {
                    assert(subs.take(index as int) =~= subs.take(index - 1).push(channel));
                    assert forall|c: int| 0 <= c < self.channels@.len() implies #[trigger] self.channels@[c]@
                        == if listed(subs.take(index as int)).contains(c) {
                        before.channels[c].sent(Some(event))
                    } else {
                        before.channels[c]
                    } by {
                        let now = subs.take(index as int);
                        let was = subs.take(index - 1);
                        if c == channel as int {
                            assert(now[index - 1] == c);
                        } else {
                            if listed(now).contains(c) {
                                let j = choose|j: int| 0 <= j < now.len() && #[trigger] now[j] == c;
                                assert(was[j] == c);
                            }
                            if listed(was).contains(c) {
                                let j = choose|j: int| 0 <= j < was.len() && #[trigger] was[j] == c;
                                assert(now[j] == c);
                            }
                        }
                    }
                }
            } else {
                self.subscribers.swap_remove(index);
                proof {
                    let after = self.subscribers@;
                    assert(after.take(index as int) =~= subs.take(index as int));
                    assert forall|c: int|
                        listed_before.contains(c) && before.has_channel(c)
                            && before.channels[c].receiving implies #[trigger] listed(after).contains(
                        c,
                    ) by {
                        assert(listed(subs).contains(c));
                        let j = choose|j: int| 0 <= j < subs.len() && #[trigger] subs[j] == c;
                        assert(j != index);
                        if j == subs.len() - 1 {
                            assert(after[index as int] == c);
                        } else {
                            assert(after[j] == c);
                        }
                    }
                }
            }
        }
        proof {
            let subs = self.subscribers@;
            assert(subs.take(index as int) =~= subs);
            assert forall|c: int| before.has_channel(c) implies (listed(subs).contains(c)
                <==> before.reaches(c)) by {
                if listed(subs).contains(c) {
                    let j = choose|j: int| 0 <= j < subs.len() && #[trigger] subs[j] == c;
                    assert(listed_before.contains(subs[j] as int));
                }
            }
            assert(self@.channels =~= before.publish(event).channels);
            assert forall|c: int| listed(subs).contains(c) implies before.has_channel(c) by {
                let j = choose|j: int| 0 <= j < subs.len() && #[trigger] subs[j] == c;
            }
            assert(self@.subscribers =~= before.publish(event).subscribers);
        }
    }
}

/// Every subscriber's channel, and the list of those a broadcast goes to.
/// Every listed subscriber is one of the hub's channels, and none is listed
/// twice.
#[derive(Debug)]
pub struct ListenerEventsHub {
    inner: Subscriptions,
}

impl View for ListenerEventsHub {
    type V = HubView;

    closed spec fn view(&self) -> HubView {
        self.inner@
    }
}

impl ListenerEventsHub {
    #[verifier::type_invariant]
    spec fn inv(self) -> bool {
        self.inner.wf()
    }

    /// A hub without channels.
    pub fn new() -> (hub: ListenerEventsHub)
        ensures
            hub@ == HubView::empty(),
    {
        ListenerEventsHub { inner: Subscriptions::new() }
    }

    /// Takes the subscriptions out to work on them, leaving none behind.
    fn take(&mut self) -> (inner: Subscriptions)
        ensures
            inner.wf(),
            inner@ == old(self)@,
            final(self)@ == HubView::empty(),
    {
        proof {
            use_type_invariant(&*self);
        }
        let mut inner = Subscriptions::new();
        core::mem::swap(&mut self.inner, &mut inner);
        inner
    }

    /// Puts subscriptions back.
    fn put(&mut self, inner: Subscriptions)
        requires
            inner.wf(),
        ensures
            final(self)@ == inner@,
            final(self)@.wf(),
    {
        proof {
            inner.lemma_subscribers_are_channels();
        }
        self.inner = inner;
    }

    /// How many channels were ever created.
    pub fn channels(&self) -> (n: usize)
        ensures
            n == self@.channels.len(),
    {
        self.inner.channels()
    }

    /// Sends `event` to every subscriber, in turn. A subscriber whose
    /// receiving side is gone cannot be sent to: it is taken off the list,
    /// and the last of the list takes its place.
    pub fn publish(&mut self, event: ListenerEvent)
        ensures
            final(self)@ == old(self)@.publish(event),
            final(self)@.wf(),
    {
        let mut inner = self.take();
        inner.publish(event);
        self.put(inner);
    }

    /// Opens a subscription: a new channel, registered for broadcasts, and
    /// its two sides.
    pub fn listener_events(&mut self) -> (pair: (ListenerEventsReactor, ListenerEventsController))
        ensures
            final(self)@ == old(self)@.subscribe(),
            final(self)@.wf(),
            pair.0.channel() == old(self)@.channels.len(),
            pair.1.channel() == old(self)@.channels.len(),
    {
        let mut inner = self.take();
        let channel = inner.subscribe();
        self.put(inner);
        (ListenerEventsReactor { channel }, ListenerEventsController { channel })
    }

    /// Sends the termination marker on `channel`.
    fn close(&mut self, channel: usize)
        ensures
            final(self)@ == old(self)@.close(channel as int),
            final(self)@.wf(),
    {
        let mut inner = self.take();
        inner.close(channel);
        self.put(inner);
    }

    /// Takes what the receiving side of `channel` gets next.
    fn receive(&mut self, channel: usize) -> (got: Received)
        ensures
            got == old(self)@.next(channel as int),
            final(self)@ == old(self)@.receive(channel as int),
            final(self)@.wf(),
    {
        let mut inner = self.take();
        let got = inner.receive(channel);
        self.put(inner);
        got
    }

    /// Gives up the receiving side of `channel`.
    fn unsubscribe(&mut self, channel: usize)
        ensures
            final(self)@ == old(self)@.unsubscribe(channel as int),
            final(self)@.wf(),
    {
        let mut inner = self.take();
        inner.unsubscribe(channel);
        self.put(inner);
    }
}

/// The receiving side of one subscription. It is consumed by each request
/// for an event and handed back while the subscription lasts.
#[derive(Debug)]
pub struct ListenerEventsReactor {
    channel: usize,
}

/// The sending side of one subscription. Giving it up ends the
/// subscription.
#[derive(Debug)]
pub struct ListenerEventsController {
    channel: usize,
}

/// The answer to a request for the next event.
#[derive(Debug)]
pub enum NextEvent {
    /// An event, and the reactor for the next request.
    Event(ListenerEventsReactor, ListenerEvent),
    /// Nothing has arrived yet. A blocking reader waits until the hub has
    /// changed and asks again.
    Pending(ListenerEventsReactor),
    /// The subscription has ended; the reactor is used up.
    Finished,
}

impl ListenerEventsReactor {
    /// The name of this subscription's channel.
    pub closed spec fn channel(&self) -> int {
        self.channel as int
    }

    /// Asks for the next event of this subscription.
    ///
    /// Events come in the order of their broadcasts. Once the sending side
    /// has been given up and all events before that are delivered, the
    /// answer is `Finished`.
    pub fn next_event(self, hub: &mut ListenerEventsHub) -> (r: NextEvent)
        ensures
            final(hub)@.wf(),
            final(hub)@ == old(hub)@.receive(self.channel()),
            r == match old(hub)@.next(self.channel()) {
                Received::Event(event) => NextEvent::Event(self, event),
                Received::Pending => NextEvent::Pending(self),
                Received::Finished => NextEvent::Finished,
            },
    {
        match hub.receive(self.channel) {
            Received::Event(event) => NextEvent::Event(self, event),
            Received::Pending => NextEvent::Pending(self),
            Received::Finished => NextEvent::Finished,
        }
    }

    /// Gives up the receiving side. The next broadcast takes the
    /// subscription off the hub's list.
    pub fn unsubscribe(self, hub: &mut ListenerEventsHub)
        ensures
            final(hub)@.wf(),
            final(hub)@ == old(hub)@.unsubscribe(self.channel()),
    {
        hub.unsubscribe(self.channel);
    }

    /// The events of this subscription as a forward-only sequence.
    pub fn into_iter(self) -> (iter: ListenerEventsIter)
        ensures
            iter@ == Some(self.channel()),
    {
        ListenerEventsIter { listener_events_reactor: Some(self) }
    }
}

impl ListenerEventsController {
    /// The name of this subscription's channel.
    pub closed spec fn channel(&self) -> int {
        self.channel as int
    }

    /// Gives up the sending side: the termination marker is sent after
    /// everything broadcast so far.
    pub fn close(self, hub: &mut ListenerEventsHub)
        ensures
            final(hub)@.wf(),
            final(hub)@ == old(hub)@.close(self.channel()),
    {
        hub.close(self.channel);
    }
}

/// Iterates over the events of one subscription.
#[derive(Debug)]
pub struct ListenerEventsIter {
    listener_events_reactor: Option<ListenerEventsReactor>,
}

impl View for ListenerEventsIter {
    type V = Option<int>;

    /// The channel that is read, or `None` once the subscription has ended.
    closed spec fn view(&self) -> Option<int> {
        match self.listener_events_reactor {
            Some(reactor) => Some(reactor.channel()),
            None => None,
        }
    }
}

impl ListenerEventsIter {
    /// The next event of the sequence. After `Finished` the answer is
    /// `Finished` for ever, and the hub is left alone.
    pub fn next(&mut self, hub: &mut ListenerEventsHub) -> (got: Received)
        ensures
            final(hub)@.wf(),
            match old(self)@ {
                Some(channel) => {
                    &&& got == old(hub)@.next(channel)
                    &&& final(hub)@ == old(hub)@.receive(channel)
                    &&& final(self)@ == if got == Received::Finished {
                        None
                    } else {
                        Some(channel)
                    }
                },
                None => {
                    &&& got == Received::Finished
                    &&& final(hub)@ == old(hub)@
                    &&& final(self)@ is None
                },
            },
    {
        proof {
            use_type_invariant(&*hub);
            hub.inner.lemma_subscribers_are_channels();
        }
        match self.listener_events_reactor.take() {
            None => Received::Finished,
            Some(reactor) => match reactor.next_event(hub) {
                NextEvent::Event(reactor, event) => {
                    self.listener_events_reactor = Some(reactor);
                    Received::Event(event)
                },
                NextEvent::Pending(reactor) => {
                    self.listener_events_reactor = Some(reactor);
                    Received::Pending
                },
                NextEvent::Finished => Received::Finished,
            },
        }
    }
}

/// The operations of a hub keep every subscriber among its channels.
pub proof fn lemma_hub_stays_well_formed(hub: HubView, channel: int, event: ListenerEvent)
    requires
        hub.wf(),
    ensures
        HubView::empty().wf(),
        hub.subscribe().wf(),
        hub.publish(event).wf(),
        hub.close(channel).wf(),
        hub.receive(channel).wf(),
        hub.unsubscribe(channel).wf(),
{
}

/// A new subscription is reached by broadcasts, has nothing queued, and
/// leaves every other channel and subscription as it was.
pub proof fn lemma_subscription_starts_empty(hub: HubView)
    requires
        hub.wf(),
    ensures
        hub.subscribe().reaches(hub.channels.len() as int),
        hub.subscribe().channels[hub.channels.len() as int] == ChannelView::fresh(),
        hub.subscribe().next(hub.channels.len() as int) == Received::Pending,
        forall|c: int|
            hub.has_channel(c) ==> hub.subscribe().channels[c] == hub.channels[c] && (
            hub.subscribe().reaches(c) <==> hub.reaches(c)),
{
}

/// A broadcast gives the event to every subscription it reaches exactly
/// once, at the end of what is queued there, and changes no other channel.
/// Subscriptions that it reaches are reached by the next broadcast too.
pub proof fn lemma_publish_reaches_each_once(hub: HubView, event: ListenerEvent, channel: int)
    requires
        hub.has_channel(channel),
    ensures
        hub.reaches(channel) ==> hub.publish(event).channels[channel].queue
            == hub.channels[channel].queue.push(Some(event)) && hub.publish(event).reaches(
            channel,
        ),
        !hub.reaches(channel) ==> hub.publish(event).channels[channel] == hub.channels[channel]
            && !hub.publish(event).reaches(channel),
{
}

/// Two subscriptions that broadcasts reach both get every event, each
/// exactly once and in the order of the broadcasts.
pub proof fn lemma_subscribers_see_the_same_events(
    hub: HubView,
    a: int,
    b: int,
    first: ListenerEvent,
    second: ListenerEvent,
)
    requires
        hub.reaches(a),
        hub.reaches(b),
        a != b,
    ensures
        hub.publish(first).publish(second).channels[a].queue == hub.channels[a].queue.push(
            Some(first),
        ).push(Some(second)),
        hub.publish(first).publish(second).channels[b].queue == hub.channels[b].queue.push(
            Some(first),
        ).push(Some(second)),
{
    lemma_publish_reaches_each_once(hub, first, a);
    lemma_publish_reaches_each_once(hub, first, b);
    lemma_publish_reaches_each_once(hub.publish(first), second, a);
    lemma_publish_reaches_each_once(hub.publish(first), second, b);
}

/// Two new subscriptions and two broadcasts: each subscriber receives the
/// first event, the second event, and nothing more.
pub proof fn lemma_new_subscribers_receive_in_order(
    hub: HubView,
    first: ListenerEvent,
    second: ListenerEvent,
)
    requires
        hub.wf(),
    ensures
        ({
            let a = hub.channels.len() as int;
            let b = a + 1;
            let told = hub.subscribe().subscribe().publish(first).publish(second);
            &&& told.next(a) == Received::Event(first)
            &&& told.receive(a).next(a) == Received::Event(second)
            &&& told.receive(a).receive(a).next(a) == Received::Pending
            &&& told.next(b) == Received::Event(first)
            &&& told.receive(b).next(b) == Received::Event(second)
            &&& told.receive(b).receive(b).next(b) == Received::Pending
        }),
{
    let a = hub.channels.len() as int;
    let b = a + 1;
    let open = hub.subscribe().subscribe();
    lemma_hub_stays_well_formed(hub, a, first);
    lemma_subscription_starts_empty(hub);
    lemma_subscription_starts_empty(hub.subscribe());
    lemma_subscribers_see_the_same_events(open, a, b, first, second);
    lemma_publish_reaches_each_once(open, first, a);
    lemma_publish_reaches_each_once(open, first, b);
    lemma_publish_reaches_each_once(open.publish(first), second, a);
    lemma_publish_reaches_each_once(open.publish(first), second, b);
}

/// Giving up the sending side puts the termination marker behind what is
/// queued, and touches no other channel.
pub proof fn lemma_close_sends_the_marker(hub: HubView, channel: int)
    requires
        hub.has_channel(channel),
        hub.channels[channel].receiving,
    ensures
        hub.close(channel).channels[channel].queue == hub.channels[channel].queue.push(None),
        hub.close(channel).subscribers == hub.subscribers,
        forall|c: int|
            hub.has_channel(c) && c != channel ==> hub.close(channel).channels[c] == hub.channels[c],
{
}

/// Once the sending side is given up, with nothing queued, the receiving
/// side's next request finds the subscription finished: no event is made
/// up. The receiving side is used up by that, and the next broadcast takes
/// the subscription off the list.
pub proof fn lemma_close_finishes_the_subscription(hub: HubView, channel: int, event: ListenerEvent)
    requires
        hub.has_channel(channel),
        hub.channels[channel].receiving,
        hub.channels[channel].queue.len() == 0,
    ensures
        hub.close(channel).next(channel) == Received::Finished,
        hub.close(channel).receive(channel).channels[channel] == ChannelView::dropped(),
        !hub.close(channel).receive(channel).publish(event).subscribers.contains(channel),
{
}

/// What is queued when the sending side is given up still arrives: the
/// receiving side gets each queued event, oldest first, and the
/// subscription is finished after the last.
pub proof fn lemma_close_delivers_what_was_sent(hub: HubView, channel: int)
    requires
        hub.has_channel(channel),
        hub.channels[channel].receiving,
        forall|i: int| 0 <= i < hub.channels[channel].queue.len() ==> hub.channels[channel].queue[i] is Some,
    ensures
        forall|i: int|
            0 <= i < hub.channels[channel].queue.len() ==> #[trigger] received_times(
                hub.close(channel),
                channel,
                i as nat,
            ).next(channel) == Received::Event(hub.channels[channel].queue[i]->0),
        received_times(hub.close(channel), channel, hub.channels[channel].queue.len()).next(channel)
            == Received::Finished,
{
    let queue = hub.channels[channel].queue;
    let closed = hub.close(channel);
    assert forall|i: int| 0 <= i <= queue.len() implies {
        let at = #[trigger] received_times(closed, channel, i as nat);
        at.has_channel(channel) && at.channels[channel].receiving && at.channels[channel].queue
            == queue.push(None).skip(i)
    } by {
        lemma_receiving_skips(closed, channel, i as nat);
    }
    lemma_receiving_skips(closed, channel, queue.len());
}

/// The hub after the receiving side of `channel` has asked `n` times.
pub open spec fn received_times(hub: HubView, channel: int, n: nat) -> HubView
    decreases n,
{
    if n == 0 {
        hub
    } else {
        received_times(hub, channel, (n - 1) as nat).receive(channel)
    }
}

/// While events are at the head of a channel, each request takes one off.
proof fn lemma_receiving_skips(hub: HubView, channel: int, n: nat)
    requires
        hub.has_channel(channel),
        hub.channels[channel].receiving,
        n <= hub.channels[channel].queue.len(),
        forall|i: int| 0 <= i < n ==> hub.channels[channel].queue[i] is Some,
    ensures
        received_times(hub, channel, n).has_channel(channel),
        received_times(hub, channel, n).channels[channel].receiving,
        received_times(hub, channel, n).channels[channel].queue == hub.channels[channel].queue.skip(
            n as int,
        ),
    decreases n,
{
    if n > 0 {
        lemma_receiving_skips(hub, channel, (n - 1) as nat);
    }
}

} // verus!
