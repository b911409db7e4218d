//! The two outside capabilities the cell consumes — crossbeam's atomic value
//! slot and futures_intrusive's versioned broadcast channel — behind a small
//! trusted layer. Everything here is believed, not proved: each item's doc
//! comment names the outside function relied on.

use vstd::prelude::*;

use crossbeam::atomic::AtomicCell;
use futures_intrusive::channel::shared::StateReceiver;
use futures_intrusive::channel::shared::StateSender;
use futures_intrusive::channel::StateId;
use std::sync::Arc;

verus! {

// ------------------------------------------------------------------
// The atomic value slot (crossbeam).
// ------------------------------------------------------------------

#[verifier::external_type_specification]
#[verifier::external_body]
#[verifier::reject_recursive_types(T)]
pub struct ExAtomicCell<T>(AtomicCell<T>);

/// The value an atomic slot holds.
pub uninterp spec fn slot_value(slot: AtomicCell<i64>) -> i64;

/// Relies on crossbeam's `AtomicCell::new` (and `Arc::new` for the shared
/// handle): a fresh slot holds exactly the given value.
#[verifier::external_body]
pub(crate) fn slot_new(v: i64) -> (s: Arc<AtomicCell<i64>>)
    ensures
        slot_value(*s) == v,
{
    Arc::new(AtomicCell::new(v))
}

/// Relies on `AtomicCell::load`: an atomic, non-blocking read of the value the
/// slot holds.
#[verifier::external_body]
pub(crate) fn slot_load(s: &Arc<AtomicCell<i64>>) -> (r: i64)
    ensures
        r == slot_value(**s),
{
    s.load()
}

/// Relies on `AtomicCell::store`: an atomic, non-blocking overwrite; on return
/// the slot holds the given value.
#[verifier::external_body]
pub(crate) fn slot_store(s: &mut Arc<AtomicCell<i64>>, v: i64)
    ensures
        slot_value(**final(s)) == v,
{
    s.store(v);
}

/// Relies on `Arc::clone`: another handle to the same slot, which at return
/// holds the same value. Writes through the aliased handle later are outside
/// the model.
#[verifier::external_body]
pub(crate) fn slot_share(s: &Arc<AtomicCell<i64>>) -> (r: Arc<AtomicCell<i64>>)
    ensures
        slot_value(*r) == slot_value(**s),
{
    Arc::clone(s)
}

// ------------------------------------------------------------------
// The versioned broadcast channel (futures_intrusive).
// ------------------------------------------------------------------

#[verifier::external_type_specification]
#[verifier::external_body]
pub struct ExStateId(StateId);

/// The send side of a cell's notification channel. It holds
/// futures_intrusive's `StateSender`, whose generic struct carries a mutex
/// type parameter bounded by a trait of a crate this library does not depend
/// on directly, so the type cannot be declared to the verifier and is hidden
/// whole instead. The raw handle is exposed for unverified host code;
/// publications made through it are invisible to the model.
#[verifier::external_body]
pub struct NotifySender {
    pub inner: StateSender<i64>,
}

/// The receive side of a cell's notification channel, hidden for the same
/// reason as [`NotifySender`]. The raw handle is exposed so that unverified
/// host code can await notifications asynchronously.
#[verifier::external_body]
pub struct NotifyReceiver {
    pub inner: StateReceiver<i64>,
}

/// The sequence of values published so far on the channel behind a send
/// handle.
pub uninterp spec fn sent_log(tx: NotifySender) -> Seq<i64>;

/// The sequence of values published so far on the channel behind a receive
/// handle.
pub uninterp spec fn recv_log(rx: NotifyReceiver) -> Seq<i64>;

/// The position in a channel's publication history that a version token
/// marks: the count of publications the holder has already observed.
pub uninterp spec fn pos_index(p: StateId) -> nat;

/// Relies on futures_intrusive's `state_broadcast_channel`: a fresh channel on
/// which nothing has been published yet; the two handles are its send and
/// receive side.
#[verifier::external_body]
pub(crate) fn notify_channel() -> (r: (NotifySender, NotifyReceiver))
    ensures
        sent_log(r.0) == Seq::<i64>::empty(),
        recv_log(r.1) == Seq::<i64>::empty(),
{
    let (tx, rx) = futures_intrusive::channel::shared::state_broadcast_channel::<i64>();
    (NotifySender { inner: tx }, NotifyReceiver { inner: rx })
}

/// Relies on `StateId::new`: the initial version token, which precedes every
/// publication.
#[verifier::external_body]
pub(crate) fn pos_new() -> (p: StateId)
    ensures
        pos_index(p) == 0,
{
    StateId::new()
}

/// Relies on `StateSender::clone`: another handle to the same send side,
/// which at return carries the same publication history. What is sent through
/// the aliased handle later is outside the model.
impl Clone for NotifySender {
    #[verifier::external_body]
    fn clone(&self) -> (res: Self)
        ensures
            sent_log(res) == sent_log(*self),
    {
        NotifySender { inner: self.inner.clone() }
    }
}

/// Relies on `StateReceiver::clone`: another handle to the same receive side,
/// behind which at return stands the same publication history.
impl Clone for NotifyReceiver {
    #[verifier::external_body]
    fn clone(&self) -> (res: Self)
        ensures
            recv_log(res) == recv_log(*self),
    {
        NotifyReceiver { inner: self.inner.clone() }
    }
}

} // verus!
