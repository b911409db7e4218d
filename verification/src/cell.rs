//! The reactive cell: an atomically readable and writable value paired with a
//! versioned broadcast channel, and the subscriber token that observes its
//! publications.

use vstd::prelude::*;

use crate::model::observe_next;
use crate::model::put_step;
use crate::model::update_step;
use crate::model::StateModel;
use crate::primitives::notify_channel;
use crate::primitives::pos_index;
use crate::primitives::pos_new;
use crate::primitives::recv_log;
use crate::primitives::sent_log;
use crate::primitives::slot_load;
use crate::primitives::slot_new;
use crate::primitives::slot_share;
use crate::primitives::slot_store;
use crate::primitives::slot_value;
use crate::primitives::NotifyReceiver;
use crate::primitives::NotifySender;
use crossbeam::atomic::AtomicCell;
use futures_intrusive::channel::StateId;
use std::sync::Arc;

verus! {

/// A mutable value cell that broadcasts version-tagged change notifications.
///
/// The slot and the channel are shared, reference-counted resources: the
/// handles `tx`, `rx` and `pointer` give out alias them, and outlive the cell
/// if kept. The model tracks the cell as the sole writer: the cell itself is
/// not cloneable, so within verified code there is exactly one writer, and a
/// write that unverified host code makes through an aliased handle stands
/// outside the model, as a caller-broken precondition would.
pub struct StateAtomic {
    slot: Arc<AtomicCell<i64>>,
    tx: NotifySender,
    rx: NotifyReceiver,
}

impl View for StateAtomic {
    type V = StateModel;

    closed spec fn view(&self) -> StateModel {
        StateModel { value: slot_value(*self.slot), log: sent_log(self.tx) }
    }
}

/// A subscriber to one cell's publications: a version token marking how far
/// into the cell's publication history it has observed. Its view is that
/// position.
#[derive(Clone, Copy)]
pub struct Subscriber {
    pos: StateId,
}

impl View for Subscriber {
    type V = nat;

    closed spec fn view(&self) -> nat {
        pos_index(self.pos)
    }
}

impl StateAtomic {
    /// A fresh cell holding `v`, with a fresh channel on which nothing has
    /// been published.
    pub fn new(v: i64) -> (r: Self)
        ensures
            r@.value == v,
            r@.log == Seq::<i64>::empty(),
    {
        let slot = slot_new(v);
        let (tx, rx) = notify_channel();
        StateAtomic { slot, tx, rx }
    }

    /// Atomic read of the current value. Never blocks.
    pub fn value(&self) -> (r: i64)
        ensures
            r == self@.value,
    {
        slot_load(&self.slot)
    }

    /// Silent write: replaces the value and publishes nothing, so no
    /// subscriber is notified. Never blocks.
    pub fn put(&mut self, v: i64)
        ensures
            final(self)@ == put_step(old(self)@, v),
    {
        slot_store(&mut self.slot, v);
    }

    /// Relies on `StateSender::send`, called on this cell's own send side: it
    /// publishes the value — appending it to the history and waking every
    /// pending receiver — and reports success, or rejects it and leaves the
    /// channel as it was. The only grounds for rejection are a closed channel
    /// and an exhausted version counter; this cell owns one handle of each
    /// side of its channel, which is closed only when a side loses its last
    /// handle, so while the cell is alive only the counter can reject.
    #[verifier::external_body]
    fn send_current(&mut self, v: i64) -> (ok: bool)
        ensures
            final(self).slot == old(self).slot,
            final(self).rx == old(self).rx,
            ok ==> sent_log(final(self).tx) == sent_log(old(self).tx).push(v),
            !ok ==> final(self).tx == old(self).tx,
            sent_log(old(self).tx).len() < u64::MAX ==> ok,
    {
        self.tx.inner.send(v).is_ok()
    }

    /// Publishes the value the cell holds at call time as a new version,
    /// retrying until the channel accepts it. This is the sole notification
    /// primitive: callers that want subscribers to see a change call `put`
    /// and then `update`. The one machine limit: the channel's version
    /// counter must not be exhausted, else no publication can ever succeed.
    pub fn update(&mut self)
        requires
            old(self)@.log.len() < u64::MAX,
        ensures
            final(self)@ == update_step(old(self)@),
    {
        let v = slot_load(&self.slot);
        let mut sent = false;
        while !sent
            invariant
                self.slot == old(self).slot,
                self.rx == old(self).rx,
                v == slot_value(*old(self).slot),
                sent ==> sent_log(self.tx) == sent_log(old(self).tx).push(v),
                !sent ==> self.tx == old(self).tx,
                !sent ==> sent_log(self.tx).len() < u64::MAX,
            decreases (if sent { 0int } else { 1int }),
        {
            sent = self.send_current(v);
        }
    }

    /// A shared handle to the send side of the cell's channel, for
    /// constructing additional publishers outside the cell: at return it
    /// carries exactly the cell's publication history. What unverified host
    /// code sends through it later is outside the model.
    pub fn tx(&self) -> (r: NotifySender)
        ensures
            sent_log(r) == self@.log,
    {
        self.tx.clone()
    }

    /// A shared handle to the receive side of the cell's channel, for
    /// subscribers driven outside the cell — an asynchronous observer task,
    /// for one. Relies on `StateReceiver::clone`, called on this cell's own
    /// receive side: the cell's receive and send handles are the two ends of
    /// one channel (constructed together, never reseated), so at return the
    /// history behind the clone is the cell's publication history.
    #[verifier::external_body]
    pub fn rx(&self) -> (r: NotifyReceiver)
        ensures
            recv_log(r) == self@.log,
    {
        NotifyReceiver { inner: self.rx.inner.clone() }
    }

    /// A shared handle to the underlying atomic slot, for advanced callers
    /// that need direct atomic access: at return it holds exactly the cell's
    /// current value. Stores that unverified host code makes through it later
    /// are outside the model.
    pub fn pointer(&self) -> (r: Arc<AtomicCell<i64>>)
        ensures
            slot_value(*r) == self@.value,
    {
        slot_share(&self.slot)
    }

    /// A fresh subscriber to this cell: its token precedes every publication,
    /// so its first poll observes the newest published value, if there is one.
    pub fn subscribe(&self) -> (s: Subscriber)
        ensures
            s@ == 0,
    {
        Subscriber { pos: pos_new() }
    }

    /// Relies on `StateReceiver::try_receive`, called on this cell's own
    /// receive side. The cell's send and receive handles are the two ends of
    /// one channel (they are constructed together and never reseated), and the
    /// channel keeps the newest published value together with the count of
    /// publications so far: the call yields them exactly when the given token
    /// lies before that count.
    #[verifier::external_body]
    fn try_receive_after(&self, pos: StateId) -> (r: Option<(StateId, i64)>)
        ensures
            pos_index(pos) < sent_log(self.tx).len() ==> (match r {
                Some(pv) => pos_index(pv.0) == sent_log(self.tx).len() && pv.1 == sent_log(
                    self.tx,
                ).last(),
                None => false,
            }),
            pos_index(pos) >= sent_log(self.tx).len() ==> r is None,
    {
        self.rx.inner.try_receive(pos)
    }

    /// Polls the cell's channel on behalf of a subscriber, without blocking:
    /// exactly what `observe_next` says of the model. When anything has been
    /// published past the subscriber's token, it yields the newest published
    /// value and advances the token past everything published so far;
    /// otherwise it yields nothing and leaves the token alone.
    pub fn poll(&self, sub: &mut Subscriber) -> (r: Option<i64>)
        ensures
            observe_next(self@.log, old(sub)@) matches Some(o) ==> r == Some(o.0) && final(sub)@
                == o.1,
            observe_next(self@.log, old(sub)@) is None ==> r is None && *final(sub) == *old(sub),
    {
        match self.try_receive_after(sub.pos) {
            Some((p2, v)) => {
                sub.pos = p2;
                Some(v)
            },
            None => None,
        }
    }

    /// A derived cell: it immediately holds `f` of the source's current value
    /// — before any publication of the source — and nothing has been published
    /// on its own channel yet. Keeping it in step with later publications of
    /// the source is the standing observer's work: each time the source
    /// publishes, the observer calls [`StateAtomic::recompute_from`] with the
    /// source's freshly read value.
    pub fn from<F: Fn(i64) -> i64>(source: &StateAtomic, f: &F) -> (r: Self)
        requires
            f.requires((source@.value,)),
        ensures
            f.ensures((source@.value,), r@.value),
            r@.log == Seq::<i64>::empty(),
    {
        let v = source.value();
        let d = f(v);
        StateAtomic::new(d)
    }

    /// One step of the derivation loop, run on the derived cell each time the
    /// source publishes: recompute from the value just read off the source —
    /// the notification is only a wake-up signal, the payload of record is the
    /// source's current value — silently write the result, then publish it
    /// downstream.
    pub fn recompute_from<F: Fn(i64) -> i64>(&mut self, source_value: i64, f: &F) -> (d: i64)
        requires
            f.requires((source_value,)),
            old(self)@.log.len() < u64::MAX,
        ensures
            f.ensures((source_value,), d),
            final(self)@ == update_step(put_step(old(self)@, d)),
    {
        let d = f(source_value);
        self.put(d);
        self.update();
        d
    }

    /// Adds `other` to the value, as a silent write: the sum replaces the
    /// value and nothing is published, so subscribers see it only after an
    /// explicit `update`. All the arithmetic operations are silent this way.
    pub fn add_assign(&mut self, other: i64)
        requires
            i64::MIN <= old(self)@.value + other <= i64::MAX,
        ensures
            final(self)@ == put_step(old(self)@, (old(self)@.value + other) as i64),
    {
        let v = self.value();
        self.put(v + other);
    }

    /// Consuming form of [`StateAtomic::add_assign`]: the same silent write,
    /// handing the cell back.
    pub fn add(self, other: i64) -> (r: Self)
        requires
            i64::MIN <= self@.value + other <= i64::MAX,
        ensures
            r@ == put_step(self@, (self@.value + other) as i64),
    {
        let mut s = self;
        s.add_assign(other);
        s
    }

    /// Subtracts `other` from the value, as a silent write.
    pub fn sub_assign(&mut self, other: i64)
        requires
            i64::MIN <= old(self)@.value - other <= i64::MAX,
        ensures
            final(self)@ == put_step(old(self)@, (old(self)@.value - other) as i64),
    {
        let v = self.value();
        self.put(v - other);
    }

    /// Consuming form of [`StateAtomic::sub_assign`].
    pub fn sub(self, other: i64) -> (r: Self)
        requires
            i64::MIN <= self@.value - other <= i64::MAX,
        ensures
            r@ == put_step(self@, (self@.value - other) as i64),
    {
        let mut s = self;
        s.sub_assign(other);
        s
    }

    /// Multiplies the value by `other`, as a silent write.
    pub fn mul_assign(&mut self, other: i64)
        requires
            i64::MIN <= old(self)@.value * other <= i64::MAX,
        ensures
            final(self)@ == put_step(old(self)@, (old(self)@.value * other) as i64),
    {
        let v = self.value();
        self.put(v * other);
    }

    /// Consuming form of [`StateAtomic::mul_assign`].
    pub fn mul(self, other: i64) -> (r: Self)
        requires
            i64::MIN <= self@.value * other <= i64::MAX,
        ensures
            r@ == put_step(self@, (self@.value * other) as i64),
    {
        let mut s = self;
        s.mul_assign(other);
        s
    }

    /// Divides the value by `other` — Rust's truncating division — as a
    /// silent write. The divisor must not be zero and the one overflowing
    /// pair, the smallest value divided by minus one, is excluded.
    pub fn div_assign(&mut self, other: i64)
        requires
            other != 0,
            !(old(self)@.value == i64::MIN && other == -1),
        ensures
            Some(final(self)@.value) == old(self)@.value.checked_div(other),
            final(self)@.log == old(self)@.log,
    {
        let v = self.value();
        proof {
            lemma_truncating_div_fits(v, other);
        }
        let q = v.checked_div(other).unwrap();
        self.put(q);
    }

    /// Consuming form of [`StateAtomic::div_assign`].
    pub fn div(self, other: i64) -> (r: Self)
        requires
            other != 0,
            !(self@.value == i64::MIN && other == -1),
        ensures
            Some(r@.value) == self@.value.checked_div(other),
            r@.log == self@.log,
    {
        let mut s = self;
        s.div_assign(other);
        s
    }

    /// Replaces the value with its remainder by `other` — the remainder of
    /// Rust's truncating division — as a silent write. The same two inputs as
    /// for division are excluded.
    pub fn rem_assign(&mut self, other: i64)
        requires
            other != 0,
            !(old(self)@.value == i64::MIN && other == -1),
        ensures
            Some(final(self)@.value) == old(self)@.value.checked_rem(other),
            final(self)@.log == old(self)@.log,
    {
        let v = self.value();
        let q = v.checked_rem(other).unwrap();
        self.put(q);
    }

    /// Consuming form of [`StateAtomic::rem_assign`].
    pub fn rem(self, other: i64) -> (r: Self)
        requires
            other != 0,
            !(self@.value == i64::MIN && other == -1),
        ensures
            Some(r@.value) == self@.value.checked_rem(other),
            r@.log == self@.log,
    {
        let mut s = self;
        s.rem_assign(other);
        s
    }
}

/// Truncating division of two `i64` values stays in range whenever the
/// divisor is not zero and the pair is not the one overflowing pair.
proof fn lemma_truncating_div_fits(x: i64, d: i64)
    requires
        d != 0,
        !(x == i64::MIN && d == -1),
    ensures
        x.checked_div(d) is Some,
{
    let xi = x as int;
    let di = d as int;
    if xi == 0 {
    } else if xi > 0 && di > 0 {
        vstd::arithmetic::div_mod::lemma_div_pos_is_pos(xi, di);
        vstd::arithmetic::div_mod::lemma_div_nonincreasing(xi, di);
    } else if xi < 0 && di < 0 {
        let nx = xi * -1;
        let nd = di * -1;
        vstd::arithmetic::div_mod::lemma_div_pos_is_pos(nx, nd);
        if nd == 1 {
            vstd::arithmetic::div_mod::lemma_div_nonincreasing(nx, nd);
            assert(nx <= i64::MAX);
        } else {
            vstd::arithmetic::div_mod::lemma_div_is_ordered_by_denominator(nx, 2, nd);
            vstd::arithmetic::div_mod::lemma_div_is_ordered(nx, 0x8000_0000_0000_0000, 2);
            assert(0x8000_0000_0000_0000int / 2 == 0x4000_0000_0000_0000int);
        }
    } else if xi < 0 {
        let nx = xi * -1;
        vstd::arithmetic::div_mod::lemma_div_pos_is_pos(nx, di);
        vstd::arithmetic::div_mod::lemma_div_nonincreasing(nx, di);
    } else {
        let nd = di * -1;
        vstd::arithmetic::div_mod::lemma_div_pos_is_pos(xi, nd);
        vstd::arithmetic::div_mod::lemma_div_nonincreasing(xi, nd);
    }
}


} // verus!
