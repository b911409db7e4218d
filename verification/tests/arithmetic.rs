//! The arithmetic convenience operations: each is a silent write — the cell's
//! value changes, subscribers are not notified until an explicit `update`.

use reactive_state::StateAtomic;

#[test]
fn add_assign_is_a_silent_write() {
    let mut cell = StateAtomic::new(10);
    let mut sub = cell.subscribe();
    cell.add_assign(5);
    assert_eq!(cell.value(), 15);
    assert_eq!(cell.poll(&mut sub), None);
    cell.update();
    assert_eq!(cell.poll(&mut sub), Some(15));
}

#[test]
fn consuming_add_is_a_silent_write() {
    let cell = StateAtomic::new(10);
    let mut sub = cell.subscribe();
    let cell = cell.add(5);
    assert_eq!(cell.value(), 15);
    assert_eq!(cell.poll(&mut sub), None);
}

#[test]
fn sub_and_mul() {
    let mut cell = StateAtomic::new(7);
    cell.sub_assign(10);
    assert_eq!(cell.value(), -3);
    cell.mul_assign(-6);
    assert_eq!(cell.value(), 18);
    let cell = cell.sub(8).mul(2);
    assert_eq!(cell.value(), 20);
}

#[test]
fn div_and_rem_truncate_toward_zero() {
    let mut cell = StateAtomic::new(-7);
    cell.div_assign(2);
    assert_eq!(cell.value(), -3);
    let mut cell = StateAtomic::new(-7);
    cell.rem_assign(2);
    assert_eq!(cell.value(), -1);
    let cell = StateAtomic::new(41).div(4);
    assert_eq!(cell.value(), 10);
    let cell = StateAtomic::new(41).rem(4);
    assert_eq!(cell.value(), 1);
}

#[test]
fn chained_operations_stay_silent_until_update() {
    let mut cell = StateAtomic::new(100);
    let mut sub = cell.subscribe();
    cell.add_assign(20);
    cell.div_assign(3);
    cell.rem_assign(25);
    assert_eq!(cell.value(), 15);
    assert_eq!(cell.poll(&mut sub), None);
    cell.update();
    assert_eq!(cell.poll(&mut sub), Some(15));
    assert_eq!(cell.poll(&mut sub), None);
}
