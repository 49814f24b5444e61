//! Laws of the bus, stated over [`BusView`] and proved once and for all.
//!
//! Each law speaks of the spec-level transitions (`do_publish`,
//! `do_subscribe`, `recv_spec`, ...) that the executable operations of
//! [`crate::bus::MessageBus`] are proved to follow, so the laws hold of every
//! execution.

use vstd::prelude::*;

verus! {

use crate::bus::BusView;
use crate::bus::HandleView;
use crate::bus::RecvSpec;

/// No eager allocation: publishing never creates a channel for any type, and
/// subscribing creates a channel only for the type subscribed to. Together
/// with `MessageBus::new`, whose registry is empty, a type never subscribed to
/// has no registry entry.
pub proof fn lemma_no_eager_allocation<M>(b: BusView<M>, key: u64, m: M, other: u64)
    ensures
        b.do_publish(key, m).has_channel(other) == b.has_channel(other),
        b.do_subscribe(key).has_channel(other) == (b.has_channel(other) || other == key),
{
}

/// One bus operation, as a spec-level event, for stating laws about whole
/// operation sequences.
pub ghost enum BusOp<M> {
    Publish { key: u64, m: M },
    Subscribe { key: u64 },
    Unsubscribe { key: u64 },
    Close,
}

/// The state transition of one operation.
pub open spec fn apply_op<M>(b: BusView<M>, op: BusOp<M>) -> BusView<M> {
    match op {
        BusOp::Publish { key, m } => b.do_publish(key, m),
        BusOp::Subscribe { key } => b.do_subscribe(key),
        BusOp::Unsubscribe { key } => b.do_unsubscribe(key),
        BusOp::Close => b.do_close(),
    }
}

/// The state after a whole operation sequence, first operation first.
pub open spec fn apply_ops<M>(b: BusView<M>, ops: Seq<BusOp<M>>) -> BusView<M>
    decreases ops.len(),
{
    if ops.len() == 0 {
        b
    } else {
        apply_ops(apply_op(b, ops[0]), ops.skip(1))
    }
}

/// Whether one operation meets, in this state, what the corresponding
/// executable operation requires of its caller.
pub open spec fn op_enabled<M>(b: BusView<M>, op: BusOp<M>) -> bool {
    match op {
        BusOp::Publish { key, m: _ } => !b.closed && b.hist(key).len() < usize::MAX,
        BusOp::Subscribe { key } => !b.closed && b.subs(key) < usize::MAX,
        BusOp::Unsubscribe { key } => b.has_channel(key) && b.subs(key) >= 1,
        BusOp::Close => true,
    }
}

/// Whether every operation of the sequence is enabled in the state it runs in.
pub open spec fn ops_enabled<M>(b: BusView<M>, ops: Seq<BusOp<M>>) -> bool
    decreases ops.len(),
{
    ops.len() == 0 || (op_enabled(b, ops[0]) && ops_enabled(apply_op(b, ops[0]), ops.skip(1)))
}

/// Whether the operation is a subscription to `key`.
pub open spec fn subscribes_to<M>(op: BusOp<M>, key: u64) -> bool {
    op matches BusOp::Subscribe { key: k } && k == key
}

/// No eager allocation, over whole histories: however many operations run, a
/// type identity that none of them subscribes to never gains a registry
/// entry. With `MessageBus::new`, whose registry is empty, a type never
/// subscribed to since construction has no channel.
pub proof fn lemma_never_subscribed_never_allocated<M>(
    b: BusView<M>,
    ops: Seq<BusOp<M>>,
    key: u64,
)
    requires
        !b.has_channel(key),
        ops_enabled(b, ops),
        forall|i: int| 0 <= i < ops.len() ==> !subscribes_to(#[trigger] ops[i], key),
    ensures
        !apply_ops(b, ops).has_channel(key),
    decreases ops.len(),
{
    if ops.len() > 0 {
        let b1 = apply_op(b, ops[0]);
        assert(!b1.has_channel(key));
        assert(forall|i: int|
            0 <= i < ops.skip(1).len() ==> !subscribes_to(#[trigger] ops.skip(1)[i], key));
        lemma_never_subscribed_never_allocated(b1, ops.skip(1), key);
    }
}

/// Once a channel exists it is never replaced: a later subscription to the
/// same type keeps the channel's whole publish history, and neither
/// subscribing nor publishing under one type touches any other type's
/// history or live-handle count.
pub proof fn lemma_channel_never_replaced<M>(b: BusView<M>, key: u64, m: M, other: u64)
    ensures
        b.do_subscribe(key).hist(other) == b.hist(other),
        other != key ==> b.do_subscribe(key).subs(other) == b.subs(other),
        other != key ==> b.do_publish(key, m).hist(other) == b.hist(other),
        b.do_publish(key, m).subs(other) == b.subs(other),
{
}

/// Every live handle observes a published value: after publishing `m`, the
/// pending sequence of any handle whose cursor was valid ends with `m`. With
/// `publish`'s delivery count equal to the number of live handles, a value
/// published to a type with `k` live handles is observed by exactly those `k`.
pub proof fn lemma_publish_reaches_every_cursor<M>(b: BusView<M>, key: u64, m: M, cursor: nat)
    requires
        b.cap >= 1,
        b.has_channel(key),
        cursor <= b.hist(key).len(),
    ensures
        b.do_publish(key, m).hist(key) == b.hist(key).push(m),
        b.do_publish(key, m).pending(key, cursor).len() >= 1,
        b.do_publish(key, m).pending(key, cursor).last() == m,
{
    let b2 = b.do_publish(key, m);
    let hist2 = b2.hist(key);
    assert(hist2 =~= b.hist(key).push(m));
    let d = b2.dropped(key);
    let start = if cursor < d {
        d
    } else {
        cursor
    };
    assert(start < hist2.len());
    assert(b2.pending(key, cursor) == hist2.subrange(start as int, hist2.len() as int));
    assert(b2.pending(key, cursor).last() == hist2[hist2.len() - 1]);
}

/// All handles observe values of one type in the same relative order: the
/// values pending for any handle are a contiguous slice of the publish
/// history, anchored at absolute history positions, and the pending sequence
/// of a handle further ahead is a suffix of that of a handle further behind.
pub proof fn lemma_same_relative_order<M>(b: BusView<M>, key: u64, c1: nat, c2: nat)
    requires
        c1 <= c2 <= b.hist(key).len(),
    ensures
        forall|i: int|
            0 <= i < b.pending(key, c1).len() ==> b.pending(key, c1)[i] == b.hist(key)[b.anchor(
                key,
                c1,
            ) + i],
        b.pending(key, c2) == b.pending(key, c1).skip(
            b.pending(key, c1).len() - b.pending(key, c2).len(),
        ),
{
    let p1 = b.pending(key, c1);
    let p2 = b.pending(key, c2);
    assert(p2 =~= p1.skip(p1.len() - p2.len()));
}

/// Publishing to a type with zero live subscription handles delivers to
/// nobody and, when no channel exists at all, changes nothing: it is a silent
/// success, not an error, and non-blocking by construction.
pub proof fn lemma_publish_without_subscribers<M>(b: BusView<M>, key: u64, m: M)
    requires
        b.subs(key) == 0,
    ensures
        b.delivered(key) == 0,
        !b.has_channel(key) ==> b.do_publish(key, m) == b,
{
}

/// Lag accounting: a handle whose cursor fell behind the ring buffer is told
/// exactly how many values it missed, its cursor snaps to the oldest retained
/// value, and from there it receives every surviving value exactly once, in
/// publish order, starting with the value right after the dropped range.
pub proof fn lemma_lag_then_resume<M>(b: BusView<M>, key: u64, cursor: nat)
    requires
        b.cap >= 1,
        !b.closed,
        cursor < b.dropped(key),
    ensures
        b.recv_spec(key, cursor) == RecvSpec::<M>::Lagged((b.dropped(key) - cursor) as nat),
        b.cursor_after_recv(key, cursor) == b.dropped(key),
        b.recv_spec(key, b.dropped(key)) == RecvSpec::<M>::Value(
            b.hist(key)[b.dropped(key) as int],
        ),
        b.pending(key, b.dropped(key)) == b.hist(key).skip(b.dropped(key) as int),
        forall|i: int|
            0 <= i < b.pending(key, b.dropped(key)).len() ==> b.pending(
                key,
                b.dropped(key),
            )[i] == b.hist(key)[b.dropped(key) + i],
{
    let d = b.dropped(key);
    assert(d < b.hist(key).len());
    assert(b.pending(key, d) =~= b.hist(key).skip(d as int));
}

/// Teardown is permanent: no enabled operation reopens a closed bus, so once
/// the bus is torn down every later state is torn down too.
pub proof fn lemma_teardown_is_permanent<M>(b: BusView<M>, ops: Seq<BusOp<M>>)
    requires
        b.closed,
        ops_enabled(b, ops),
    ensures
        apply_ops(b, ops).closed,
    decreases ops.len(),
{
    if ops.len() > 0 {
        lemma_teardown_is_permanent(apply_op(b, ops[0]), ops.skip(1));
    }
}

/// Teardown is terminal: once the bus is closed, every receive on every
/// handle reports `Closed`, never `Lagged` and never a value, and the
/// handle's cursor no longer moves.
pub proof fn lemma_closed_is_terminal<M>(b: BusView<M>, key: u64, cursor: nat)
    requires
        b.closed,
    ensures
        b.recv_spec(key, cursor) == RecvSpec::<M>::Closed,
        !(b.recv_spec(key, cursor) matches RecvSpec::Lagged(_)),
        b.cursor_after_recv(key, cursor) == cursor,
{
}

/// First-time subscriptions racing on one never-before-seen type create
/// exactly one channel: the first subscription creates it empty, the second
/// finds it and only adds a live handle, both handles are valid against that
/// single channel, and no other type's channel is touched.
pub proof fn lemma_concurrent_first_subscribe<M>(b: BusView<M>, key: u64)
    requires
        !b.has_channel(key),
    ensures
        ({
            let b1 = b.do_subscribe(key);
            let b2 = b1.do_subscribe(key);
            &&& b1.has_channel(key) && b2.has_channel(key)
            &&& b1.hist(key) == Seq::<M>::empty()
            &&& b2.hist(key) == Seq::<M>::empty()
            &&& b1.subs(key) == 1
            &&& b2.subs(key) == 2
            &&& b2.valid_handle(HandleView { key, cursor: 0 })
            &&& forall|other: u64|
                other != key ==> #[trigger] b2.has_channel(other) == b.has_channel(other)
                    && b2.hist(other) == b.hist(other) && b2.subs(other) == b.subs(other)
        }),
{
    let b1 = b.do_subscribe(key);
    assert(b1.hist(key) =~= Seq::<M>::empty());
}

} // verus!
