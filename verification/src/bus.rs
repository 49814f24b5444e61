//! The message bus: a registry of per-type broadcast channels.
//!
//! The registry maps a message type's stable identity (a `u64` key) to the
//! channel created for it. Channels are created lazily on first subscription,
//! never removed, and all share the capacity fixed at bus construction. Each
//! channel is a bounded ring buffer with drop-oldest backpressure together
//! with a count of live subscription handles; every handle is a cursor into
//! the channel's publish history.
//!
//! Contracts are stated over [`BusView`], a mathematical view of the bus: the
//! full publish history of every channel (a `Seq`), the live-subscriber
//! counts, the shared capacity, and the teardown flag.

use std::collections::HashMap;
use vstd::pervasive::cloned;
use vstd::prelude::*;

verus! {

broadcast use vstd::std_specs::hash::group_hash_axioms;

use crate::message::Message;

/// What a subscriber's next receive yields: a value, a report that `n`
/// buffered values were dropped while it lagged, nothing new yet, or the
/// terminal report that the bus was torn down.
pub enum Recv<M> {
    /// The next published value, in publish order.
    Value(M),
    /// The subscriber fell behind; the payload counts the dropped values.
    Lagged(usize),
    /// Nothing has been published past this handle's cursor yet.
    Empty,
    /// The bus was torn down; no further value will ever arrive.
    Closed,
}

/// Spec-level counterpart of [`Recv`]: the outcome one receive is bound to
/// report, with the exact history value where [`Recv`] carries a clone of it.
pub ghost enum RecvSpec<M> {
    /// The history value under the handle's cursor.
    Value(M),
    /// The handle fell behind; the payload counts the dropped values.
    Lagged(nat),
    /// Nothing has been published past the handle's cursor yet.
    Empty,
    /// The bus was torn down.
    Closed,
}

/// Mathematical view of one channel: every value ever published to it, in
/// publish order, and the number of live subscription handles.
pub ghost struct ChannelView<M> {
    pub hist: Seq<M>,
    pub subs: nat,
}

/// Mathematical view of the whole bus: the shared channel capacity, the
/// teardown flag, and the registry as a map from type identity to channel
/// view.
pub ghost struct BusView<M> {
    pub cap: nat,
    pub closed: bool,
    pub chans: Map<u64, ChannelView<M>>,
}

/// Mathematical view of a subscription handle: the type identity it is
/// subscribed to and its cursor into that channel's publish history.
pub ghost struct HandleView {
    pub key: u64,
    pub cursor: nat,
}

impl<M> BusView<M> {
    /// Whether a channel exists for `key`.
    pub open spec fn has_channel(self, key: u64) -> bool {
        self.chans.dom().contains(key)
    }

    /// The publish history for `key`: empty when no channel exists.
    pub open spec fn hist(self, key: u64) -> Seq<M> {
        if self.has_channel(key) {
            self.chans[key].hist
        } else {
            Seq::empty()
        }
    }

    /// The number of live subscription handles for `key`.
    pub open spec fn subs(self, key: u64) -> nat {
        if self.has_channel(key) {
            self.chans[key].subs
        } else {
            0
        }
    }

    /// How many of `key`'s published values have been evicted from the ring
    /// buffer: all but the most recent `cap`.
    pub open spec fn dropped(self, key: u64) -> nat {
        if self.hist(key).len() <= self.cap {
            0
        } else {
            (self.hist(key).len() - self.cap) as nat
        }
    }

    /// A handle is valid when its channel exists and its cursor does not run
    /// ahead of the publish history.
    pub open spec fn valid_handle(self, h: HandleView) -> bool {
        &&& self.has_channel(h.key)
        &&& h.cursor <= self.hist(h.key).len()
    }

    /// The state after publishing `m` under `key`: the value is appended to
    /// the channel's history; without a channel, publishing is a no-op and in
    /// particular creates nothing.
    pub open spec fn do_publish(self, key: u64, m: M) -> BusView<M> {
        if self.has_channel(key) {
            BusView {
                chans: self.chans.insert(
                    key,
                    ChannelView { hist: self.chans[key].hist.push(m), subs: self.chans[key].subs },
                ),
                ..self
            }
        } else {
            self
        }
    }

    /// How many live handles a publish under `key` is delivered to.
    pub open spec fn delivered(self, key: u64) -> nat {
        self.subs(key)
    }

    /// The state after subscribing to `key`: the channel is created empty if
    /// this is the first subscription, and its live-handle count grows by one.
    pub open spec fn do_subscribe(self, key: u64) -> BusView<M> {
        BusView {
            chans: self.chans.insert(
                key,
                ChannelView { hist: self.hist(key), subs: self.subs(key) + 1 },
            ),
            ..self
        }
    }

    /// The state after a subscription handle for `key` is given up.
    pub open spec fn do_unsubscribe(self, key: u64) -> BusView<M> {
        BusView {
            chans: self.chans.insert(
                key,
                ChannelView { hist: self.hist(key), subs: (self.subs(key) - 1) as nat },
            ),
            ..self
        }
    }

    /// The state after the bus is torn down: channels and histories remain
    /// readable in the view, but every receive reports `Closed`.
    pub open spec fn do_close(self) -> BusView<M> {
        BusView { closed: true, ..self }
    }

    /// What one receive at `cursor` reports: `Closed` after teardown, a lag
    /// report when the cursor fell behind the ring buffer, `Empty` at the end
    /// of the history, and otherwise the history value under the cursor (the
    /// executable receive hands out a clone of it).
    pub open spec fn recv_spec(self, key: u64, cursor: nat) -> RecvSpec<M> {
        if self.closed {
            RecvSpec::Closed
        } else if cursor < self.dropped(key) {
            RecvSpec::Lagged((self.dropped(key) - cursor) as nat)
        } else if cursor == self.hist(key).len() {
            RecvSpec::Empty
        } else {
            RecvSpec::Value(self.hist(key)[cursor as int])
        }
    }

    /// The cursor a handle holds after one receive: unchanged on `Closed` and
    /// `Empty`, snapped to the oldest retained value on `Lagged`, advanced by
    /// one past a received value.
    pub open spec fn cursor_after_recv(self, key: u64, cursor: nat) -> nat {
        if self.closed {
            cursor
        } else if cursor < self.dropped(key) {
            self.dropped(key)
        } else if cursor == self.hist(key).len() {
            cursor
        } else {
            cursor + 1
        }
    }

    /// The absolute history position of the next value a handle with this
    /// cursor can still receive: its own cursor, or the oldest retained value
    /// once the cursor fell behind the ring buffer.
    pub open spec fn anchor(self, key: u64, cursor: nat) -> nat {
        if cursor < self.dropped(key) {
            self.dropped(key)
        } else {
            cursor
        }
    }

    /// The values a handle with this cursor can still receive, in order: the
    /// publish history from the cursor on, less anything already evicted.
    pub open spec fn pending(self, key: u64, cursor: nat) -> Seq<M> {
        if cursor <= self.hist(key).len() {
            self.hist(key).subrange(self.anchor(key, cursor) as int, self.hist(key).len() as int)
        } else {
            Seq::empty()
        }
    }
}

/// One per-type broadcast channel: the retained window of the most recent
/// publishes, the monotonic count of everything ever published, and the
/// number of live subscription handles. The full publish history is carried
/// alongside as ghost state so that contracts can speak of evicted values.
struct Channel<M> {
    buf: Vec<M>,
    published: usize,
    subscribers: usize,
    hist: Ghost<Seq<M>>,
}

impl<M> Channel<M> {
    /// The ring-buffer window holds exactly the most recent `min(published,
    /// cap)` values of the history, and the counters agree with it.
    spec fn wf(self, cap: nat) -> bool {
        &&& self.hist@.len() == self.published
        &&& self.buf@.len() == if self.published <= cap {
            self.published as nat
        } else {
            cap
        }
        &&& self.buf@ == self.hist@.subrange(
            self.hist@.len() - self.buf@.len(),
            self.hist@.len() as int,
        )
    }

    spec fn view_of(self) -> ChannelView<M> {
        ChannelView { hist: self.hist@, subs: self.subscribers as nat }
    }
}

/// A caller-owned cursor over one channel, created by
/// [`MessageBus::subscribe`] and consumed by [`MessageBus::unsubscribe`].
pub struct SubscriptionHandle {
    key: u64,
    cursor: usize,
}

impl View for SubscriptionHandle {
    type V = HandleView;

    closed spec fn view(&self) -> HandleView {
        HandleView { key: self.key, cursor: self.cursor as nat }
    }
}

impl SubscriptionHandle {
    /// The type identity this handle is subscribed to.
    pub fn key(&self) -> (k: u64)
        ensures
            k == self@.key,
    {
        self.key
    }
}

/// The central communication hub: a registry from type identity to channel.
/// All channels share the capacity fixed at construction; once created, a
/// channel is never removed or replaced for the bus's lifetime.
pub struct MessageBus<M: Message> {
    capacity: usize,
    closed: bool,
    channels: HashMap<u64, Channel<M>>,
}

impl<M: Message> View for MessageBus<M> {
    type V = BusView<M>;

    closed spec fn view(&self) -> BusView<M> {
        BusView {
            cap: self.capacity as nat,
            closed: self.closed,
            chans: Map::new(
                |k: u64| self.channels@.dom().contains(k),
                |k: u64| self.channels@[k].view_of(),
            ),
        }
    }
}

impl<M: Message> MessageBus<M> {
    /// Every stored channel honors the shared capacity, and no channel's
    /// history outruns the machine's address space.
    pub closed spec fn wf(self) -> bool {
        &&& self.capacity >= 1
        &&& forall|k: u64|
            self.channels@.dom().contains(k) ==> (#[trigger] self.channels@[k]).wf(
                self.capacity as nat,
            )
    }

    /// Constructs a bus with an empty registry; `capacity` becomes the fixed
    /// ring-buffer capacity of every channel this bus ever creates. Nothing is
    /// allocated eagerly: no message type has a channel yet.
    pub fn new(capacity: usize) -> (bus: Self)
        requires
            capacity >= 1,
        ensures
            bus.wf(),
            bus@.cap == capacity,
            !bus@.closed,
            forall|k: u64| !bus@.has_channel(k),
    {
        let bus = MessageBus { capacity, closed: false, channels: HashMap::new() };
        proof {
            assert(bus@.chans =~= Map::empty());
        }
        bus
    }

    /// Publishes a value under `key`, the stable identity of its message type.
    ///
    /// Non-blocking by construction: when the channel's ring buffer is full,
    /// the oldest retained value is evicted rather than stalling the
    /// publisher. Returns the number of live subscription handles the value
    /// was delivered to; publishing to a type nobody has subscribed to is not
    /// an error but a no-op that reports zero deliveries and, in particular,
    /// creates no channel.
    pub fn publish(&mut self, key: u64, msg: M) -> (delivered: usize)
        requires
            old(self).wf(),
            !old(self)@.closed,
            old(self)@.hist(key).len() < usize::MAX,
        ensures
            final(self).wf(),
            final(self)@ == old(self)@.do_publish(key, msg),
            delivered == old(self)@.delivered(key),
    {
        match self.channels.remove(&key) {
            None => {
                proof {
                    assert(self@.chans =~= old(self)@.chans);
                }
                0
            },
            Some(mut ch) => {
                if ch.buf.len() >= self.capacity {
                    ch.buf.remove(0);
                }
                ch.hist = Ghost(ch.hist@.push(msg));
                ch.buf.push(msg);
                ch.published = ch.published + 1;
                let subs = ch.subscribers;
                proof {
                    assert(ch.buf@ =~= ch.hist@.subrange(
                        ch.hist@.len() - ch.buf@.len(),
                        ch.hist@.len() as int,
                    ));
                }
                self.channels.insert(key, ch);
                proof {
                    assert(self@.chans =~= old(self)@.do_publish(key, msg).chans);
                }
                subs
            },
        }
    }

    /// Subscribes to the message type identified by `key` and returns a fresh
    /// handle whose cursor starts at the current end of the channel's publish
    /// history: the handle sees exactly the values published after this call.
    ///
    /// If this is the first time any caller has subscribed to `key`, the
    /// channel is created on demand, empty, with this bus's shared capacity;
    /// otherwise the existing channel simply gains one live handle. No other
    /// channel is touched.
    pub fn subscribe(&mut self, key: u64) -> (h: SubscriptionHandle)
        requires
            old(self).wf(),
            !old(self)@.closed,
            old(self)@.subs(key) < usize::MAX,
        ensures
            final(self).wf(),
            final(self)@ == old(self)@.do_subscribe(key),
            h@.key == key,
            h@.cursor == old(self)@.hist(key).len(),
            final(self)@.valid_handle(h@),
    {
        match self.channels.remove(&key) {
            Some(mut ch) => {
                ch.subscribers = ch.subscribers + 1;
                let cursor = ch.published;
                self.channels.insert(key, ch);
                proof {
                    assert(self@.chans =~= old(self)@.do_subscribe(key).chans);
                }
                SubscriptionHandle { key, cursor }
            },
            None => {
                let ch = Channel {
                    buf: Vec::new(),
                    published: 0,
                    subscribers: 1,
                    hist: Ghost(Seq::empty()),
                };
                proof {
                    assert(ch.wf(self.capacity as nat)) by {
                        assert(ch.buf@ =~= ch.hist@.subrange(0, 0));
                    }
                }
                self.channels.insert(key, ch);
                proof {
                    assert(self@.chans =~= old(self)@.do_subscribe(key).chans);
                }
                SubscriptionHandle { key, cursor: 0 }
            },
        }
    }

    /// Yields the next value for `h`, in publish order.
    ///
    /// After teardown the report is `Closed`, never `Lagged`, and the handle
    /// is left untouched. A handle whose cursor fell behind the ring buffer is
    /// told exactly how many values it missed and snaps to the oldest retained
    /// value, so that subsequent receives resume there with no duplicate and
    /// no out-of-order delivery. When nothing has been published past the
    /// cursor the report is `Empty`: the caller decides whether to wait.
    pub fn recv(&self, h: &mut SubscriptionHandle) -> (r: Recv<M>)
        requires
            self.wf(),
            self@.valid_handle(old(h)@),
        ensures
            final(h)@.key == old(h)@.key,
            final(h)@.cursor == self@.cursor_after_recv(old(h)@.key, old(h)@.cursor),
            self@.valid_handle(final(h)@),
            match self@.recv_spec(old(h)@.key, old(h)@.cursor) {
                RecvSpec::Closed => r matches Recv::Closed,
                RecvSpec::Lagged(n) => r matches Recv::Lagged(k) && k == n,
                RecvSpec::Empty => r matches Recv::Empty,
                RecvSpec::Value(v0) => r matches Recv::Value(v) && cloned(v0, v),
            },
    {
        if self.closed {
            return Recv::Closed;
        }
        let ch = self.channels.get(&h.key).unwrap();
        let dropped = ch.published - ch.buf.len();
        if h.cursor < dropped {
            let n = dropped - h.cursor;
            h.cursor = dropped;
            Recv::Lagged(n)
        } else if h.cursor == ch.published {
            Recv::Empty
        } else {
            let idx = h.cursor - dropped;
            let v = ch.buf[idx].clone();
            h.cursor = h.cursor + 1;
            Recv::Value(v)
        }
    }

    /// Gives up a subscription handle: the channel's live-handle count drops
    /// by one, and nothing else changes. The channel itself stays in the
    /// registry and keeps accepting publishes even with no subscriber left.
    pub fn unsubscribe(&mut self, h: SubscriptionHandle)
        requires
            old(self).wf(),
            old(self)@.has_channel(h@.key),
            old(self)@.subs(h@.key) >= 1,
        ensures
            final(self).wf(),
            final(self)@ == old(self)@.do_unsubscribe(h@.key),
    {
        let mut ch = self.channels.remove(&h.key).unwrap();
        ch.subscribers = ch.subscribers - 1;
        self.channels.insert(h.key, ch);
        proof {
            assert(self@.chans =~= old(self)@.do_unsubscribe(h@.key).chans);
        }
    }

    /// Tears the bus down: from now on every outstanding handle's next
    /// receive reports `Closed`. Nothing else about the registry changes.
    pub fn close(&mut self)
        requires
            old(self).wf(),
        ensures
            final(self).wf(),
            final(self)@ == old(self)@.do_close(),
    {
        self.closed = true;
        proof {
            assert(self@.chans =~= old(self)@.chans);
        }
    }

    /// The ring-buffer capacity shared by every channel of this bus.
    pub fn capacity(&self) -> (c: usize)
        ensures
            c == self@.cap,
    {
        self.capacity
    }

    /// Whether the bus has been torn down.
    pub fn is_closed(&self) -> (b: bool)
        ensures
            b == self@.closed,
    {
        self.closed
    }

    /// Whether a channel exists for `key`: true exactly when `key` has been
    /// subscribed to since the bus was constructed.
    pub fn has_channel(&self, key: u64) -> (b: bool)
        ensures
            b == self@.has_channel(key),
    {
        self.channels.contains_key(&key)
    }

    /// How many live subscription handles `key`'s channel currently has; zero
    /// when no channel exists.
    pub fn subscriber_count(&self, key: u64) -> (n: usize)
        ensures
            n == self@.subs(key),
    {
        match self.channels.get(&key) {
            Some(ch) => ch.subscribers,
            None => 0,
        }
    }

    /// How many values have ever been published under `key`; zero when no
    /// channel exists.
    pub fn published_count(&self, key: u64) -> (n: usize)
        requires
            self.wf(),
        ensures
            n == self@.hist(key).len(),
    {
        match self.channels.get(&key) {
            Some(ch) => ch.published,
            None => 0,
        }
    }
}

} // verus!
