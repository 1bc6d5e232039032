//! The signaling relay: two roles, each forwarding what it receives to the
//! subscribers of the other, through a broadcast channel with a bounded
//! backlog for each subscriber. The channel is `tokio::sync::broadcast`,
//! held with all its receivers in one place and read without waiting.
//!
//! The relay does not look into a message: it forwards text as it came.

use crate::signals::text_of;
use tokio::sync::broadcast::error::TryRecvError;
use tokio::sync::broadcast::Receiver;
use tokio::sync::broadcast::Sender;
use vstd::prelude::*;

verus! {

/// How many unread messages a subscriber of the relay may hold.
pub const BACKLOG_CAPACITY: usize = 16;

/// One of the two fixed endpoints of the relay.
#[derive(Clone, Copy, Debug, PartialEq, Eq, Structural)]
pub enum Role {
    Backend,
    Frontend,
}

impl Role {
    /// The role on the other side of the relay.
    pub open spec fn spec_peer(self) -> Role {
        match self {
            Role::Backend => Role::Frontend,
            Role::Frontend => Role::Backend,
        }
    }

    /// The role on the other side of the relay.
    #[verifier::when_used_as_spec(spec_peer)]
    pub fn peer(self) -> (r: Role)
        ensures
            r == self.spec_peer(),
    {
        match self {
            Role::Backend => Role::Frontend,
            Role::Frontend => Role::Backend,
        }
    }
}

/// A frame that arrived on a socket, as far as the relay tells frames apart.
#[derive(Clone, Debug, PartialEq, Eq)]
pub enum Frame {
    Text(String),
    /// Any frame that is not text.
    Other,
}

/// What a [`Frame`] holds.
pub ghost enum FrameView {
    Text(Seq<char>),
    Other,
}

impl View for Frame {
    type V = FrameView;

    open spec fn view(&self) -> FrameView {
        match self {
            Frame::Text(text) => FrameView::Text(text@),
            Frame::Other => FrameView::Other,
        }
    }
}

/// What a subscriber gets when it reads.
#[derive(Clone, Debug, PartialEq, Eq)]
pub enum Delivery {
    /// The oldest unread message.
    Message(String),
    /// This many messages were dropped, unread, since the last read.
    Lagged(u64),
    /// Nothing is unread.
    Empty,
}

/// What a [`Delivery`] holds.
pub ghost enum DeliveryView {
    Message(Seq<char>),
    Lagged(nat),
    Empty,
}

impl View for Delivery {
    type V = DeliveryView;

    open spec fn view(&self) -> DeliveryView {
        match self {
            Delivery::Message(text) => DeliveryView::Message(text@),
            Delivery::Lagged(missed) => DeliveryView::Lagged(*missed as nat),
            Delivery::Empty => DeliveryView::Empty,
        }
    }
}

/// The capacity that a channel has when it is asked for `capacity`: the
/// smallest power of two that is not less.
pub open spec fn rounded_capacity(capacity: nat) -> nat
    decreases capacity,
{
    if capacity <= 1 {
        1
    } else {
        2 * rounded_capacity((capacity + 1) / 2)
    }
}

/// What a subscriber holds: its capacity, the unread messages, oldest
/// first, and how many were dropped since the last read.
pub ghost struct SubscriberView {
    pub capacity: nat,
    pub backlog: Seq<Seq<char>>,
    pub missed: nat,
}

impl SubscriberView {
    /// A subscriber that has nothing to read.
    pub open spec fn fresh(capacity: nat) -> SubscriberView {
        SubscriberView { capacity, backlog: Seq::empty(), missed: 0 }
    }

    /// The backlog never exceeds the capacity, which is not 0.
    pub open spec fn wf(self) -> bool {
        0 < self.capacity && self.backlog.len() <= self.capacity
    }

    /// The subscriber after `text` was published: the message joins the
    /// backlog, and where the backlog was full, its oldest message is dropped
    /// and counted.
    pub open spec fn deliver(self, text: Seq<char>) -> SubscriberView {
        if self.backlog.len() < self.capacity {
            SubscriberView { backlog: self.backlog.push(text), ..self }
        } else {
            SubscriberView {
                backlog: self.backlog.drop_first().push(text),
                missed: self.missed + 1,
                ..self
            }
        }
    }

    /// The subscriber after each of `texts` was published, in that order.
    pub open spec fn deliver_all(self, texts: Seq<Seq<char>>) -> SubscriberView
        decreases texts.len(),
    {
        if texts.len() == 0 {
            self
        } else {
            self.deliver_all(texts.drop_last()).deliver(texts.last())
        }
    }

    /// What the next read gives: first the report of what was dropped, then
    /// the unread messages, oldest first.
    pub open spec fn next_delivery(self) -> DeliveryView {
        if self.missed > 0 {
            DeliveryView::Lagged(self.missed)
        } else if self.backlog.len() > 0 {
            DeliveryView::Message(self.backlog[0])
        } else {
            DeliveryView::Empty
        }
    }

    /// Whether `delivery` is what a read gives: the next delivery, where a
    /// report of dropped messages gives their number as far as it fits a
    /// `u64`.
    pub open spec fn reads(self, delivery: DeliveryView) -> bool {
        match self.next_delivery() {
            DeliveryView::Lagged(missed) => delivery is Lagged && (missed <= u64::MAX
                ==> delivery == DeliveryView::Lagged(missed)),
            next => delivery == next,
        }
    }

    /// The message that the subscriber reads next, if it passes over the
    /// report of what was dropped.
    pub open spec fn next_text(self) -> Option<Seq<char>> {
        if self.backlog.len() > 0 {
            Some(self.backlog[0])
        } else {
            None
        }
    }

    /// The subscriber after it has passed over the report of what was
    /// dropped and read the next message.
    pub open spec fn after_text(self) -> SubscriberView {
        SubscriberView {
            backlog: if self.backlog.len() > 0 {
                self.backlog.drop_first()
            } else {
                self.backlog
            },
            missed: 0,
            ..self
        }
    }

    /// The subscriber after a read.
    pub open spec fn after_receive(self) -> SubscriberView {
        if self.missed > 0 {
            SubscriberView { missed: 0, ..self }
        } else if self.backlog.len() > 0 {
            SubscriberView { backlog: self.backlog.drop_first(), ..self }
        } else {
            self
        }
    }
}

/// How many of `total` messages a backlog of `capacity` cannot hold.
pub open spec fn overflow(capacity: nat, total: nat) -> nat {
    if total <= capacity {
        0
    } else {
        (total - capacity) as nat
    }
}

/// A subscriber observes what was published in the order of publication:
/// after any number of messages its backlog is the newest part of what it
/// held and what was published since, in that order, as much as the capacity
/// holds. What did not fit was dropped from the old end, and is counted.
pub proof fn lemma_delivery_keeps_order(subscriber: SubscriberView, texts: Seq<Seq<char>>)
    requires
        subscriber.wf(),
    ensures
        ({
            let all = subscriber.backlog + texts;
            let dropped = overflow(subscriber.capacity, all.len());
            let after = subscriber.deliver_all(texts);
            &&& after.wf()
            &&& after.capacity == subscriber.capacity
            &&& after.backlog == all.skip(dropped as int)
            &&& after.missed == subscriber.missed + dropped
        }),
    decreases texts.len(),
{
    let all = subscriber.backlog + texts;
    if texts.len() == 0 {
        assert(all =~= subscriber.backlog);
        assert(all.skip(0) =~= all);
    } else {
        let earlier = texts.drop_last();
        let before = subscriber.deliver_all(earlier);
        let all_before = subscriber.backlog + earlier;
        let dropped_before = overflow(subscriber.capacity, all_before.len());
        lemma_delivery_keeps_order(subscriber, earlier);
        assert(all =~= all_before.push(texts.last()));
        if before.backlog.len() < before.capacity {
            assert(all_before.push(texts.last()).skip(0) =~= all_before.skip(0).push(
                texts.last(),
            ));
        } else {
            assert(all_before.skip(dropped_before as int).drop_first().push(texts.last())
                =~= all.skip((dropped_before + 1) as int));
        }
    }
}

/// A subscriber that has read everything and then falls behind by one
/// message more than its capacity loses exactly the oldest: its next read
/// reports one dropped message, and the rest is unread, in order.
pub proof fn lemma_one_too_many(capacity: nat, texts: Seq<Seq<char>>)
    requires
        0 < capacity,
        texts.len() == capacity + 1,
    ensures
        ({
            let after = SubscriberView::fresh(capacity).deliver_all(texts);
            &&& after.next_delivery() == DeliveryView::Lagged(1)
            &&& after.after_receive().backlog == texts.skip(1)
            &&& after.after_receive().missed == 0
        }),
{
    let fresh = SubscriberView::fresh(capacity);
    lemma_delivery_keeps_order(fresh, texts);
    assert(fresh.backlog + texts =~= texts);
}

/// One step in the life of a subscriber: a message is published to it, or
/// it reads.
pub ghost enum Traffic {
    Published(Seq<char>),
    Read,
}

/// What has happened to a subscriber: what was published to it, which
/// messages it has read, how many it was told it had lost, and what it holds
/// now.
pub ghost struct Run {
    pub subscriber: SubscriberView,
    pub published: Seq<Seq<char>>,
    pub read: Seq<Seq<char>>,
    pub reported: nat,
}

/// What has happened to `subscriber` after the steps of `traffic`.
pub open spec fn run(subscriber: SubscriberView, traffic: Seq<Traffic>) -> Run
    decreases traffic.len(),
{
    if traffic.len() == 0 {
        Run { subscriber, published: Seq::empty(), read: Seq::empty(), reported: 0 }
    } else {
        let before = run(subscriber, traffic.drop_last());
        match traffic.last() {
            Traffic::Published(text) => Run {
                subscriber: before.subscriber.deliver(text),
                published: before.published.push(text),
                ..before
            },
            Traffic::Read => match before.subscriber.next_delivery() {
                DeliveryView::Message(text) => Run {
                    subscriber: before.subscriber.after_receive(),
                    read: before.read.push(text),
                    ..before
                },
                DeliveryView::Lagged(missed) => Run {
                    subscriber: before.subscriber.after_receive(),
                    reported: before.reported + missed,
                    ..before
                },
                DeliveryView::Empty => before,
            },
        }
    }
}

/// A subscriber gets each message at most once, and in the order of
/// publication, however its reads fall between the publications. The
/// messages that it has read are messages that were published, picked in
/// rising order: `indices` says which. What it holds unread is the newest
/// part of what was published, and everything that it has read came before
/// that. And every message is accounted for: it was read, or it is unread, or
/// it was dropped, and then it is counted in a report of lost messages that
/// was read or is still to come.
pub proof fn lemma_delivery_is_in_order_and_at_most_once(
    capacity: nat,
    traffic: Seq<Traffic>,
) -> (indices: Seq<int>)
    requires
        0 < capacity,
    ensures
        ({
            let after = run(SubscriberView::fresh(capacity), traffic);
            let unread = after.subscriber.backlog;
            &&& after.subscriber.wf()
            &&& after.subscriber.capacity == capacity
            &&& unread.len() <= after.published.len()
            &&& unread == after.published.skip(after.published.len() - unread.len())
            &&& indices.len() == after.read.len()
            &&& forall|k: int|
                0 <= k < indices.len() ==> 0 <= #[trigger] indices[k] < after.published.len()
                    - unread.len() && after.read[k] == after.published[indices[k]]
            &&& forall|j: int, k: int|
                0 <= j < k < indices.len() ==> #[trigger] indices[j] < #[trigger] indices[k]
            &&& after.read.len() + after.reported + after.subscriber.missed + unread.len()
                == after.published.len()
        }),
    decreases traffic.len(),
{
    let fresh = SubscriberView::fresh(capacity);
    if traffic.len() == 0 {
        assert(fresh.backlog =~= Seq::<Seq<char>>::empty().skip(0));
        Seq::empty()
    } else {
        let earlier = lemma_delivery_is_in_order_and_at_most_once(capacity, traffic.drop_last());
        let before = run(fresh, traffic.drop_last());
        let after = run(fresh, traffic);
        let held = before.subscriber.backlog;
        let start = before.published.len() - held.len();
        match traffic.last() {
            Traffic::Published(text) => {
                if held.len() < capacity {
                    assert(after.subscriber.backlog =~= after.published.skip(start));
                } else {
                    assert(after.subscriber.backlog =~= after.published.skip(start + 1));
                }
                earlier
            },
            Traffic::Read => match before.subscriber.next_delivery() {
                DeliveryView::Message(text) => {
                    assert(after.subscriber.backlog =~= after.published.skip(start + 1));
                    let indices = earlier.push(start);
                    assert forall|j: int, k: int| 0 <= j < k < indices.len() implies #[trigger] indices[j]
                        < #[trigger] indices[k] by {
                        if k < earlier.len() {
                            assert(earlier[j] < earlier[k]);
                        } else {
                            assert(earlier[j] < start);
                        }
                    }
                    indices
                },
                DeliveryView::Lagged(missed) => earlier,
                DeliveryView::Empty => earlier,
            },
        }
    }
}

/// A slot of a channel after each of `texts` was published on it, in that
/// order.
pub open spec fn delivered_all(slot: Option<SubscriberView>, texts: Seq<Seq<char>>) -> Option<
    SubscriberView,
> {
    match slot {
        Some(subscriber) => Some(subscriber.deliver_all(texts)),
        None => None,
    }
}

/// A slot of a channel after `text` was published on it.
pub open spec fn delivered(slot: Option<SubscriberView>, text: Seq<char>) -> Option<
    SubscriberView,
> {
    match slot {
        Some(subscriber) => Some(subscriber.deliver(text)),
        None => None,
    }
}

/// What a channel holds: a slot for each subscriber that it ever had, in the
/// order in which they subscribed, empty once the subscriber has left.
pub ghost struct ChannelView {
    pub capacity: nat,
    pub subscribers: Seq<Option<SubscriberView>>,
}

impl ChannelView {
    /// A channel without subscribers.
    pub open spec fn fresh(capacity: nat) -> ChannelView {
        ChannelView { capacity, subscribers: Seq::empty() }
    }

    /// Every subscriber has the channel's capacity, and keeps to it.
    pub open spec fn wf(self) -> bool {
        &&& 0 < self.capacity
        &&& forall|i: int|
            0 <= i < self.subscribers.len() ==> match #[trigger] self.subscribers[i] {
                Some(subscriber) => subscriber.wf() && subscriber.capacity == self.capacity,
                None => true,
            }
    }

    /// Whether `id` is a subscriber of the channel.
    pub open spec fn subscribed(self, id: int) -> bool {
        0 <= id < self.subscribers.len() && self.subscribers[id] is Some
    }

    /// The channel with one subscriber more, which has nothing to read yet.
    pub open spec fn subscribe(self) -> ChannelView {
        ChannelView {
            subscribers: self.subscribers.push(Some(SubscriberView::fresh(self.capacity))),
            ..self
        }
    }

    /// The channel without the subscriber `id`.
    pub open spec fn unsubscribe(self, id: int) -> ChannelView {
        if self.subscribed(id) {
            ChannelView { subscribers: self.subscribers.update(id, None), ..self }
        } else {
            self
        }
    }

    /// The channel after `text` was published: every subscriber got it.
    pub open spec fn publish(self, text: Seq<char>) -> ChannelView {
        ChannelView {
            subscribers: Seq::new(
                self.subscribers.len(),
                |i: int| delivered(self.subscribers[i], text),
            ),
            ..self
        }
    }

    /// The channel after each of `texts` was published, in that order.
    pub open spec fn publish_all(self, texts: Seq<Seq<char>>) -> ChannelView
        decreases texts.len(),
    {
        if texts.len() == 0 {
            self
        } else {
            self.publish_all(texts.drop_last()).publish(texts.last())
        }
    }

    /// What the next read of the subscriber `id` gives; `None` where `id` is
    /// no subscriber.
    pub open spec fn next_delivery(self, id: int) -> Option<DeliveryView> {
        if self.subscribed(id) {
            Some(self.subscribers[id].unwrap().next_delivery())
        } else {
            None
        }
    }

    /// Whether `delivery` is what a read of the subscriber `id` gives: `None`
    /// where `id` is no subscriber, else its next delivery, where a report of
    /// dropped messages gives their number as far as it fits a `u64`.
    pub open spec fn reads(self, id: int, delivery: Option<DeliveryView>) -> bool {
        if self.subscribed(id) {
            delivery is Some && self.subscribers[id].unwrap().reads(delivery.unwrap())
        } else {
            delivery is None
        }
    }

    /// The channel after the subscriber `id` has read.
    pub open spec fn receive(self, id: int) -> ChannelView {
        if self.subscribed(id) {
            ChannelView {
                subscribers: self.subscribers.update(
                    id,
                    Some(self.subscribers[id].unwrap().after_receive()),
                ),
                ..self
            }
        } else {
            self
        }
    }
}

/// A broadcast channel of tokio with all its receivers: the sender, and a
/// slot for each receiver that ever subscribed, empty once it has left.
/// Nothing else holds a receiver of this sender, so what the receivers
/// hold changes through this value alone.
#[verifier::external_body]
#[derive(Debug)]
pub struct Broadcast {
    sender: Sender<String>,
    receivers: Vec<Option<Receiver<String>>>,
}

/// What a broadcast channel holds: its capacity, and for each slot what the
/// receiver in it has not read yet of what was sent since it subscribed.
pub uninterp spec fn broadcast_content(broadcast: Broadcast) -> ChannelView;

/// Calls `Sender::new`: a channel without receivers. tokio refuses a
/// capacity of 0 and one above `usize::MAX / 2`, and rounds any other up to a
/// power of two.
#[verifier::external_body]
fn new_broadcast(capacity: usize) -> (broadcast: Broadcast)
    requires
        0 < capacity <= usize::MAX / 2,
    ensures
        broadcast_content(broadcast) == ChannelView::fresh(rounded_capacity(capacity as nat)),
{
    Broadcast { sender: Sender::new(capacity), receivers: Vec::new() }
}

/// Calls `Sender::subscribe` and keeps the receiver in a new slot: it gets
/// what is sent after this call. (tokio refuses a receiver more when there
/// are `usize::MAX / 4`, which do not fit in memory.)
#[verifier::external_body]
fn add_receiver(broadcast: &mut Broadcast)
    ensures
        broadcast_content(*final(broadcast)) == broadcast_content(*old(broadcast)).subscribe(),
{
    broadcast.receivers.push(Some(broadcast.sender.subscribe()));
}

/// Drops the receiver in the slot `id`; the slot stays, empty. The other
/// receivers hold what they held.
#[verifier::external_body]
fn drop_receiver(broadcast: &mut Broadcast, id: usize)
    requires
        id < broadcast_content(*old(broadcast)).subscribers.len(),
    ensures
        broadcast_content(*final(broadcast)) == broadcast_content(*old(broadcast)).unsubscribe(
            id as int,
        ),
{
    broadcast.receivers[id] = None;
}

/// Calls `Sender::send`: every receiver of the channel gets the text at the
/// end of its backlog, and a receiver whose backlog is full loses its oldest
/// message, which it counts. The result of `send`, the number of receivers,
/// is not used.
#[verifier::external_body]
fn send_text(broadcast: &mut Broadcast, text: String)
    ensures
        broadcast_content(*final(broadcast)) == broadcast_content(*old(broadcast)).publish(text@),
{
    let _ = broadcast.sender.send(text);
}

/// Calls `Receiver::try_recv` on the receiver in the slot `id`: the report
/// of dropped messages if there is one, else the oldest unread message, else
/// `Empty`. tokio counts messages in `u64`, so the number in a report is
/// exact as far as it fits. The other receivers hold what they held.
#[verifier::external_body]
fn receive_at(broadcast: &mut Broadcast, id: usize) -> (delivery: Delivery)
    requires
        broadcast_content(*old(broadcast)).subscribed(id as int),
    ensures
        broadcast_content(*old(broadcast)).subscribers[id as int].unwrap().reads(delivery@),
        broadcast_content(*final(broadcast)) == broadcast_content(*old(broadcast)).receive(
            id as int,
        ),
{
    match &mut broadcast.receivers[id] {
        Some(receiver) => match receiver.try_recv() {
            Ok(text) => Delivery::Message(text),
            Err(TryRecvError::Lagged(missed)) => Delivery::Lagged(missed),
            Err(TryRecvError::Empty) => Delivery::Empty,
            Err(TryRecvError::Closed) => Delivery::Empty,
        },
        None => Delivery::Empty,
    }
}

/// A broadcast channel: what is published on it goes to each of its
/// subscribers, which reads at its own pace from a backlog of its own.
#[derive(Debug)]
pub struct Channel {
    broadcast: Broadcast,
    /// For each slot, whether a subscriber is in it.
    live: Vec<bool>,
}

impl View for Channel {
    type V = ChannelView;

    closed spec fn view(&self) -> ChannelView {
        broadcast_content(self.broadcast)
    }
}

/// What an optional delivery holds.
pub open spec fn delivery_view(delivery: Option<Delivery>) -> Option<DeliveryView> {
    match delivery {
        Some(delivery) => Some(delivery@),
        None => None,
    }
}

/// The capacity that is asked for is not more than the capacity that is
/// given, which is not 0.
pub proof fn lemma_rounded_capacity(capacity: nat)
    ensures
        0 < rounded_capacity(capacity),
        capacity <= rounded_capacity(capacity),
    decreases capacity,
{
    if capacity > 1 {
        lemma_rounded_capacity((capacity + 1) / 2);
    }
}

/// A well-formed channel stays well-formed when a message is published.
pub proof fn lemma_publish_keeps_wf(channel: ChannelView, text: Seq<char>)
    requires
        channel.wf(),
    ensures
        channel.publish(text).wf(),
{
    let after = channel.publish(text);
    assert forall|i: int| 0 <= i < after.subscribers.len() implies match #[trigger] after.subscribers[i] {
        Some(subscriber) => subscriber.wf() && subscriber.capacity == after.capacity,
        None => true,
    } by {
        assert(after.subscribers[i] == delivered(channel.subscribers[i], text));
    }
}

impl Channel {
    /// The channel keeps to its capacity, and knows which of its slots hold
    /// a subscriber.
    pub closed spec fn wf(&self) -> bool {
        &&& self@.wf()
        &&& self.live@.len() == self@.subscribers.len()
        &&& forall|i: int|
            0 <= i < self.live@.len() ==> #[trigger] self.live@[i] == (self@.subscribers[i] is Some)
    }

    /// A channel without subscribers, each of which will hold as many unread
    /// messages as the smallest power of two that is not less than
    /// `capacity`.
    pub fn new(capacity: usize) -> (channel: Channel)
        requires
            0 < capacity <= usize::MAX / 2,
        ensures
            channel@ == ChannelView::fresh(rounded_capacity(capacity as nat)),
            channel.wf(),
            channel@.wf(),
    {
        proof {
            lemma_rounded_capacity(capacity as nat);
        }
        Channel { broadcast: new_broadcast(capacity), live: Vec::new() }
    }

    /// Adds a subscriber and returns its id. It gets what is published from
    /// now on.
    pub fn subscribe(&mut self) -> (id: usize)
        requires
            old(self).wf(),
        ensures
            id == old(self)@.subscribers.len(),
            final(self)@ == old(self)@.subscribe(),
            final(self).wf(),
            final(self)@.wf(),
    {
        let id = self.live.len();
        add_receiver(&mut self.broadcast);
        self.live.push(true);
        id
    }

    /// Removes the subscriber `id`, if there is one.
    pub fn unsubscribe(&mut self, id: usize)
        requires
            old(self).wf(),
        ensures
            final(self)@ == old(self)@.unsubscribe(id as int),
            final(self).wf(),
            final(self)@.wf(),
    {
        if id < self.live.len() && self.live[id] {
            drop_receiver(&mut self.broadcast, id);
            self.live[id] = false;
        }
    }

    /// Publishes `text` to every subscriber.
    pub fn publish(&mut self, text: &String)
        requires
            old(self).wf(),
        ensures
            final(self)@ == old(self)@.publish(text@),
            final(self).wf(),
            final(self)@.wf(),
    {
        proof {
            lemma_publish_keeps_wf(self@, text@);
        }
        send_text(&mut self.broadcast, text.clone());
    }

    /// Reads for the subscriber `id`: `None` where `id` is no subscriber.
    pub fn receive(&mut self, id: usize) -> (delivery: Option<Delivery>)
        requires
            old(self).wf(),
        ensures
            old(self)@.reads(id as int, delivery_view(delivery)),
            final(self)@ == old(self)@.receive(id as int),
            final(self).wf(),
            final(self)@.wf(),
    {
        if id < self.live.len() && self.live[id] {
            Some(receive_at(&mut self.broadcast, id))
        } else {
            None
        }
    }
}

/// What happened on the socket of a connection.
#[derive(Clone, Debug, PartialEq, Eq)]
pub enum SocketEvent {
    /// A frame arrived.
    Frame(Frame),
    /// The socket failed, or what arrived was no frame.
    Error,
    /// The peer closed the socket.
    Closed,
}

/// What a [`SocketEvent`] holds.
pub ghost enum SocketEventView {
    Frame(FrameView),
    Error,
    Closed,
}

impl View for SocketEvent {
    type V = SocketEventView;

    open spec fn view(&self) -> SocketEventView {
        match self {
            SocketEvent::Frame(frame) => SocketEventView::Frame(frame@),
            SocketEvent::Error => SocketEventView::Error,
            SocketEvent::Closed => SocketEventView::Closed,
        }
    }
}

/// Whether the handler of a connection goes on.
#[derive(Clone, Copy, Debug, PartialEq, Eq, Structural)]
pub enum Step {
    Continue,
    Stop,
}

/// A listener of the relay. It accepts the connections of one role; what
/// they send is published on the channel `forward`, and each of them
/// subscribes to the channel `subscribe`. A channel is named by the role that
/// publishes on it where the relay pairs the two roles.
#[derive(Clone, Copy, Debug, PartialEq, Eq, Structural)]
pub struct Listener {
    pub role: Role,
    pub forward: Role,
    pub subscribe: Role,
}

impl Listener {
    /// The listener of `role` where the relay pairs two roles: it publishes
    /// on the channel of `role` and subscribes to that of the other role, so
    /// that each role gets what the other sends.
    pub open spec fn spec_paired(role: Role) -> Listener {
        Listener { role, forward: role, subscribe: role.peer() }
    }

    /// The listener of `role` where the relay pairs two roles: it publishes
    /// on the channel of `role` and subscribes to that of the other role, so
    /// that each role gets what the other sends.
    #[verifier::when_used_as_spec(spec_paired)]
    pub fn paired(role: Role) -> (listener: Listener)
        ensures
            listener == Listener::spec_paired(role),
    {
        Listener { role, forward: role, subscribe: role.peer() }
    }

    /// The listener of `role` where it is the only role: it publishes on the
    /// channel that it subscribes to, so that every connection gets what any
    /// connection sends, its own messages too.
    pub open spec fn spec_alone(role: Role) -> Listener {
        Listener { role, forward: role, subscribe: role }
    }

    /// The listener of `role` where it is the only role: it publishes on the
    /// channel that it subscribes to, so that every connection gets what any
    /// connection sends, its own messages too.
    #[verifier::when_used_as_spec(spec_alone)]
    pub fn alone(role: Role) -> (listener: Listener)
        ensures
            listener == Listener::spec_alone(role),
    {
        Listener { role, forward: role, subscribe: role }
    }
}

/// One accepted connection: the listener that accepted it, and its id as a
/// subscriber of the channel that the listener subscribes to.
#[derive(Clone, Copy, Debug, PartialEq, Eq, Structural)]
pub struct Connection {
    pub listener: Listener,
    pub subscriber: usize,
}

/// What a relay holds: its two channels, each named by a role.
pub ghost struct RelayView {
    pub backend: ChannelView,
    pub frontend: ChannelView,
}

impl RelayView {
    /// A relay without connections.
    pub open spec fn fresh(capacity: nat) -> RelayView {
        RelayView { backend: ChannelView::fresh(capacity), frontend: ChannelView::fresh(capacity) }
    }

    /// Both channels are well-formed.
    pub open spec fn wf(self) -> bool {
        self.backend.wf() && self.frontend.wf()
    }

    /// The channel of `role`.
    pub open spec fn channel(self, role: Role) -> ChannelView {
        match role {
            Role::Backend => self.backend,
            Role::Frontend => self.frontend,
        }
    }

    /// The relay with `channel` as the channel of `role`.
    pub open spec fn with_channel(self, role: Role, channel: ChannelView) -> RelayView {
        match role {
            Role::Backend => RelayView { backend: channel, ..self },
            Role::Frontend => RelayView { frontend: channel, ..self },
        }
    }

    /// Whether `connection` is open: it is a subscriber of the channel that
    /// its listener subscribes to.
    pub open spec fn connected(self, connection: Connection) -> bool {
        self.channel(connection.listener.subscribe).subscribed(connection.subscriber as int)
    }

    /// What `connection` holds unread.
    pub open spec fn inbox(self, connection: Connection) -> SubscriberView
        recommends
            self.connected(connection),
    {
        self.channel(connection.listener.subscribe).subscribers[connection.subscriber as int].unwrap()
    }

    /// The relay after `listener` accepted a connection.
    pub open spec fn accept(self, listener: Listener) -> RelayView {
        self.with_channel(listener.subscribe, self.channel(listener.subscribe).subscribe())
    }

    /// The relay after `text` was published on the channel of `role`.
    pub open spec fn forward(self, role: Role, text: Seq<char>) -> RelayView {
        self.with_channel(role, self.channel(role).publish(text))
    }

    /// The relay after each of `texts` was published on the channel of
    /// `role`, in that order.
    pub open spec fn forward_all(self, role: Role, texts: Seq<Seq<char>>) -> RelayView {
        self.with_channel(role, self.channel(role).publish_all(texts))
    }

    /// The relay after `connection` was closed.
    pub open spec fn disconnect(self, connection: Connection) -> RelayView {
        self.with_channel(
            connection.listener.subscribe,
            self.channel(connection.listener.subscribe).unsubscribe(connection.subscriber as int),
        )
    }

    /// The relay after `event` on the socket of `connection`: a text frame
    /// is forwarded, any other frame is ignored, and an error or the end of
    /// the socket closes the connection.
    pub open spec fn socket_event(self, connection: Connection, event: SocketEventView) -> RelayView {
        match event {
            SocketEventView::Frame(FrameView::Text(text)) => self.forward(
                connection.listener.forward,
                text,
            ),
            SocketEventView::Frame(FrameView::Other) => self,
            _ => self.disconnect(connection),
        }
    }

    /// What the next read of `connection` gives; `None` where it is closed.
    pub open spec fn next_delivery(self, connection: Connection) -> Option<DeliveryView> {
        self.channel(connection.listener.subscribe).next_delivery(connection.subscriber as int)
    }

    /// Whether `delivery` is what a read of `connection` gives: `None` where
    /// it is closed, else its next delivery, where a report of dropped
    /// messages gives their number as far as it fits a `u64`.
    pub open spec fn reads(self, connection: Connection, delivery: Option<DeliveryView>) -> bool {
        self.channel(connection.listener.subscribe).reads(connection.subscriber as int, delivery)
    }

    /// The relay after `connection` has read.
    pub open spec fn receive(self, connection: Connection) -> RelayView {
        self.with_channel(
            connection.listener.subscribe,
            self.channel(connection.listener.subscribe).receive(connection.subscriber as int),
        )
    }

    /// The text that goes to the socket of `connection` next: its oldest
    /// unread message. A closed connection has none.
    pub open spec fn next_text(self, connection: Connection) -> Option<Seq<char>> {
        if self.connected(connection) {
            self.inbox(connection).next_text()
        } else {
            None
        }
    }

    /// The relay after the next text for `connection` was taken.
    pub open spec fn after_text(self, connection: Connection) -> RelayView {
        if self.connected(connection) {
            let channel = self.channel(connection.listener.subscribe);
            self.with_channel(
                connection.listener.subscribe,
                ChannelView {
                    subscribers: channel.subscribers.update(
                        connection.subscriber as int,
                        Some(self.inbox(connection).after_text()),
                    ),
                    ..channel
                },
            )
        } else {
            self
        }
    }
}

/// Whether the handler goes on after `event`.
pub open spec fn step_after(event: SocketEventView) -> Step {
    match event {
        SocketEventView::Frame(_) => Step::Continue,
        _ => Step::Stop,
    }
}

/// The relay: two broadcast channels, and the listeners' connections as
/// their subscribers.
#[derive(Debug)]
pub struct Relay {
    backend: Channel,
    frontend: Channel,
}

impl View for Relay {
    type V = RelayView;

    closed spec fn view(&self) -> RelayView {
        RelayView { backend: self.backend@, frontend: self.frontend@ }
    }
}

impl Relay {
    /// Both channels are well-formed.
    pub closed spec fn wf(&self) -> bool {
        self.backend.wf() && self.frontend.wf()
    }

    /// A relay without connections, whose subscribers hold up to
    /// [`BACKLOG_CAPACITY`] unread messages each.
    pub fn new() -> (relay: Relay)
        ensures
            relay@ == RelayView::fresh(BACKLOG_CAPACITY as nat),
            relay.wf(),
            relay@.wf(),
    {
        proof {
            reveal_with_fuel(rounded_capacity, 6);
        }
        Relay::with_capacity(BACKLOG_CAPACITY)
    }

    /// A relay without connections, whose subscribers hold as many unread
    /// messages each as the smallest power of two that is not less than
    /// `capacity`.
    pub fn with_capacity(capacity: usize) -> (relay: Relay)
        requires
            0 < capacity <= usize::MAX / 2,
        ensures
            relay@ == RelayView::fresh(rounded_capacity(capacity as nat)),
            relay.wf(),
            relay@.wf(),
    {
        Relay { backend: Channel::new(capacity), frontend: Channel::new(capacity) }
    }

    /// The listener of `role` in this relay, which pairs the two roles.
    pub fn listen(&self, role: Role) -> (listener: Listener)
        ensures
            listener == Listener::paired(role),
    {
        Listener::paired(role)
    }

    /// Accepts a connection for `listener`: it gets what is published from
    /// now on on the channel that the listener subscribes to.
    pub fn accept(&mut self, listener: Listener) -> (connection: Connection)
        requires
            old(self).wf(),
        ensures
            connection.listener == listener,
            connection.subscriber == old(self)@.channel(listener.subscribe).subscribers.len(),
            final(self)@ == old(self)@.accept(listener),
            final(self).wf(),
            final(self)@.wf(),
            final(self)@.connected(connection),
            final(self)@.inbox(connection) == SubscriberView::fresh(
                old(self)@.channel(listener.subscribe).capacity,
            ),
    {
        let subscriber = match listener.subscribe {
            Role::Backend => self.backend.subscribe(),
            Role::Frontend => self.frontend.subscribe(),
        };
        Connection { listener, subscriber }
    }

    /// Takes what happened on the socket of `connection`, and says whether
    /// its handler goes on. A text frame is published, unread and unchanged,
    /// on the channel that the listener forwards to. Any other frame is
    /// ignored. An error, or the end of the socket, closes this connection
    /// and no other.
    pub fn on_socket_event(&mut self, connection: Connection, event: SocketEvent) -> (step: Step)
        requires
            old(self).wf(),
        ensures
            final(self)@ == old(self)@.socket_event(connection, event@),
            final(self).wf(),
            final(self)@.wf(),
            step == step_after(event@),
    {
        match event {
            SocketEvent::Frame(Frame::Text(text)) => {
                match connection.listener.forward {
                    Role::Backend => self.backend.publish(&text),
                    Role::Frontend => self.frontend.publish(&text),
                }
                Step::Continue
            },
            SocketEvent::Frame(Frame::Other) => Step::Continue,
            _ => {
                match connection.listener.subscribe {
                    Role::Backend => self.backend.unsubscribe(connection.subscriber),
                    Role::Frontend => self.frontend.unsubscribe(connection.subscriber),
                }
                Step::Stop
            },
        }
    }

    /// Reads for `connection`: `None` where the connection is closed.
    pub fn receive(&mut self, connection: Connection) -> (delivery: Option<Delivery>)
        requires
            old(self).wf(),
        ensures
            old(self)@.reads(connection, delivery_view(delivery)),
            final(self)@ == old(self)@.receive(connection),
            final(self).wf(),
            final(self)@.wf(),
    {
        match connection.listener.subscribe {
            Role::Backend => self.backend.receive(connection.subscriber),
            Role::Frontend => self.frontend.receive(connection.subscriber),
        }
    }

    /// The text to write to the socket of `connection` next: its oldest
    /// unread message, or `None` where it has none. A report of dropped
    /// messages is passed over: the connection goes on with what is left.
    pub fn next_text(&mut self, connection: Connection) -> (text: Option<String>)
        requires
            old(self).wf(),
        ensures
            text_of(text) == old(self)@.next_text(connection),
            final(self)@ == old(self)@.after_text(connection),
            final(self).wf(),
            final(self)@.wf(),
    {
        let first = self.receive(connection);
        let text = match first {
            Some(Delivery::Lagged(_)) => {
                match self.receive(connection) {
                    Some(Delivery::Message(text)) => Some(text),
                    _ => None,
                }
            },
            Some(Delivery::Message(text)) => Some(text),
            _ => None,
        };
        proof {
            let after = self@.channel(connection.listener.subscribe);
            assert(after.subscribers =~= old(self)@.after_text(connection).channel(
                connection.listener.subscribe,
            ).subscribers);
        }
        text
    }
}

/// What is published on a channel reaches each of its subscribers, and
/// changes nothing else of the channel.
pub proof fn lemma_publish_all_reaches_each(channel: ChannelView, texts: Seq<Seq<char>>)
    ensures
        channel.publish_all(texts).capacity == channel.capacity,
        channel.publish_all(texts).subscribers.len() == channel.subscribers.len(),
        forall|i: int|
            0 <= i < channel.subscribers.len() ==> #[trigger] channel.publish_all(
                texts,
            ).subscribers[i] == delivered_all(channel.subscribers[i], texts),
    decreases texts.len(),
{
    if texts.len() > 0 {
        lemma_publish_all_reaches_each(channel, texts.drop_last());
    }
}

/// Whatever is sent on the channel that a connection subscribes to, the
/// connection gets it in the order in which it was sent: after any number of
/// messages it holds unread the newest part of what it held and what was
/// sent since, in that order, as much as the capacity holds, and what did
/// not fit is counted as dropped. Where the relay pairs two roles, that is
/// what the connections of the other role send; its own role's channel is
/// not touched.
pub proof fn lemma_relay_forwards_in_order(
    relay: RelayView,
    sender: Listener,
    texts: Seq<Seq<char>>,
    receiver: Connection,
)
    requires
        relay.wf(),
        receiver.listener.subscribe == sender.forward,
        relay.connected(receiver),
    ensures
        ({
            let after = relay.forward_all(sender.forward, texts);
            let held = relay.inbox(receiver);
            let all = held.backlog + texts;
            let dropped = overflow(held.capacity, all.len());
            &&& after.wf()
            &&& after.connected(receiver)
            &&& after.inbox(receiver).backlog == all.skip(dropped as int)
            &&& after.inbox(receiver).missed == held.missed + dropped
            &&& after.channel(sender.forward.peer()) == relay.channel(sender.forward.peer())
        }),
{
    let channel = relay.channel(sender.forward);
    lemma_publish_all_reaches_each(channel, texts);
    lemma_delivery_keeps_order(relay.inbox(receiver), texts);
    let after = channel.publish_all(texts);
    assert forall|i: int| 0 <= i < after.subscribers.len() implies match #[trigger] after.subscribers[i] {
        Some(subscriber) => subscriber.wf() && subscriber.capacity == after.capacity,
        None => true,
    } by {
        match channel.subscribers[i] {
            Some(subscriber) => {
                lemma_delivery_keeps_order(subscriber, texts);
            },
            None => {},
        }
    }
}

/// An error on one connection stays with that connection. Whatever ends a
/// connection, every other connection is open or closed as it was, and holds
/// unread what it held.
pub proof fn lemma_error_closes_only_that_connection(
    relay: RelayView,
    failed: Connection,
    event: SocketEventView,
    other: Connection,
)
    requires
        !(event is Frame),
        other.listener.subscribe != failed.listener.subscribe || other.subscriber
            != failed.subscriber,
    ensures
        !relay.socket_event(failed, event).connected(failed),
        relay.socket_event(failed, event).connected(other) == relay.connected(other),
        relay.connected(other) ==> relay.socket_event(failed, event).inbox(other) == relay.inbox(
            other,
        ),
{
}

/// Where the relay pairs the two roles, each role's connections subscribe to
/// the channel that the other role's connections publish on, and to no
/// channel that their own role publishes on: a message goes to the other
/// side, and is not echoed.
pub proof fn lemma_paired_listeners_cross(role: Role)
    ensures
        Listener::paired(role).subscribe == Listener::paired(role.peer()).forward,
        Listener::paired(role).forward == Listener::paired(role.peer()).subscribe,
        Listener::paired(role).subscribe != Listener::paired(role).forward,
{
}

} // verus!
