//! The shared handles a cell gives out: the raw send and receive sides of its
//! channel, and the raw atomic slot. These alias the cell's own resources, and
//! the asynchronous receive path is driven here with a single-poll executor.

use futures::executor::block_on;
use futures::FutureExt;
use futures_intrusive::channel::StateId;
use reactive_state::StateAtomic;

#[test]
fn handles_alias_the_cells_resources() {
    let mut cell = StateAtomic::new(1);
    let slot = cell.pointer();
    let rx = cell.rx();
    cell.put(2);
    assert_eq!(slot.load(), 2);
    cell.update();
    let got = block_on(rx.inner.receive(StateId::new()));
    let (_, v) = got.expect("a publication was pending");
    assert_eq!(v, 2);
}

#[test]
fn pointer_gives_direct_atomic_access() {
    let mut cell = StateAtomic::new(5);
    let slot = cell.pointer();
    assert_eq!(slot.load(), 5);
    cell.put(6);
    assert_eq!(slot.load(), 6);
}

#[test]
fn raw_receive_is_pending_until_an_update() {
    let mut cell = StateAtomic::new(0);
    let rx = cell.rx();
    assert_eq!(rx.inner.receive(StateId::new()).now_or_never(), None);
    cell.put(3);
    assert_eq!(rx.inner.receive(StateId::new()).now_or_never(), None);
    cell.update();
    let got = block_on(rx.inner.receive(StateId::new()));
    let (_, v) = got.expect("a publication was pending");
    assert_eq!(v, 3);
}

#[test]
fn raw_send_reaches_raw_receivers() {
    let cell = StateAtomic::new(0);
    let tx = cell.tx();
    let rx = cell.rx();
    assert_eq!(rx.inner.receive(StateId::new()).now_or_never(), None);
    tx.inner.send(11).expect("the channel is open");
    let got = block_on(rx.inner.receive(StateId::new()));
    let (_, v) = got.expect("a publication was pending");
    assert_eq!(v, 11);
}

#[test]
fn raw_receive_tokens_chain_between_updates() {
    let mut cell = StateAtomic::new(0);
    let rx = cell.rx();
    cell.put(1);
    cell.update();
    let (t1, v1) = block_on(rx.inner.receive(StateId::new())).expect("first publication");
    assert_eq!(v1, 1);
    assert_eq!(rx.inner.receive(t1).now_or_never(), None);
    cell.put(2);
    cell.update();
    let (_, v2) = block_on(rx.inner.receive(t1)).expect("second publication");
    assert_eq!(v2, 2);
}
