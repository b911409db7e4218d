//! The cell's read/write/publish protocol, exercised over the real atomic
//! slot and the real broadcast channel.

use reactive_state::StateAtomic;

#[test]
fn new_cell_holds_initial_value() {
    let cell = StateAtomic::new(42);
    assert_eq!(cell.value(), 42);
}

#[test]
fn put_replaces_the_value() {
    let mut cell = StateAtomic::new(1);
    cell.put(9);
    assert_eq!(cell.value(), 9);
}

#[test]
fn silent_writes_keep_only_the_last_value() {
    let mut cell = StateAtomic::new(0);
    cell.put(1);
    cell.put(2);
    cell.put(3);
    assert_eq!(cell.value(), 3);
}

#[test]
fn silent_writes_wake_no_subscriber() {
    let mut cell = StateAtomic::new(0);
    let mut sub = cell.subscribe();
    cell.put(10);
    cell.put(20);
    assert_eq!(cell.poll(&mut sub), None);
}

#[test]
fn update_is_observed_with_the_fresh_value() {
    let mut cell = StateAtomic::new(0);
    let mut sub = cell.subscribe();
    cell.put(7);
    cell.update();
    assert_eq!(cell.poll(&mut sub), Some(7));
    assert_eq!(cell.value(), 7);
}

#[test]
fn no_duplicate_delivery_within_one_subscriber() {
    let mut cell = StateAtomic::new(0);
    let mut sub = cell.subscribe();
    cell.put(5);
    cell.update();
    assert_eq!(cell.poll(&mut sub), Some(5));
    assert_eq!(cell.poll(&mut sub), None);
}

#[test]
fn subscribers_created_at_different_times_agree() {
    let mut cell = StateAtomic::new(0);
    let mut early = cell.subscribe();
    cell.put(1);
    cell.update();
    let mut late = cell.subscribe();
    let seen_early = cell.poll(&mut early);
    let seen_late = cell.poll(&mut late);
    assert_eq!(seen_early, Some(1));
    assert_eq!(seen_early, seen_late);
    assert_eq!(cell.poll(&mut early), None);
    assert_eq!(cell.poll(&mut late), None);
    cell.put(2);
    cell.update();
    assert_eq!(cell.poll(&mut early), Some(2));
    assert_eq!(cell.poll(&mut late), Some(2));
}

#[test]
fn copied_subscriber_continues_identically() {
    let mut cell = StateAtomic::new(0);
    let mut s1 = cell.subscribe();
    cell.put(4);
    cell.update();
    assert_eq!(cell.poll(&mut s1), Some(4));
    let mut s2 = s1;
    cell.put(8);
    cell.update();
    assert_eq!(cell.poll(&mut s1), Some(8));
    assert_eq!(cell.poll(&mut s2), Some(8));
    assert_eq!(cell.poll(&mut s1), None);
    assert_eq!(cell.poll(&mut s2), None);
}

#[test]
fn lagging_subscriber_observes_only_the_newest_value() {
    let mut cell = StateAtomic::new(0);
    let mut sub = cell.subscribe();
    cell.put(1);
    cell.update();
    cell.put(2);
    cell.update();
    // Two publications happened while the subscriber lagged: it is woken once,
    // with the newest value, and is then up to date.
    assert_eq!(cell.poll(&mut sub), Some(2));
    assert_eq!(cell.poll(&mut sub), None);
}

#[test]
fn coalesced_writes_publish_only_the_second() {
    let mut cell = StateAtomic::new(0);
    let mut sub = cell.subscribe();
    cell.put(1);
    cell.put(2);
    cell.update();
    assert_eq!(cell.poll(&mut sub), Some(2));
    assert_eq!(cell.poll(&mut sub), None);
}
