//! The exclusive-access cell and the per-type store, exercised directly.

use states::State;
use states::StateError;
use states::Store;
use states::Time;

#[test]
fn cell_hands_out_one_view_at_a_time() {
    let mut cell: State<u32> = State::new(11);
    let v = cell.get().unwrap();
    assert_eq!(v, 11);
    assert_eq!(cell.get().err(), Some(StateError::ExclusiveAccessViolation));
    cell.put(v + 1).unwrap();
    assert_eq!(cell.get().unwrap(), 12);
}

#[test]
fn cell_rejects_release_without_view() {
    let mut cell: State<u32> = State::new(4);
    assert_eq!(cell.put(9).err(), Some(StateError::ExclusiveAccessViolation));
    assert_eq!(cell.get().unwrap(), 4);
}

#[test]
fn store_serves_the_latest_registration() {
    let mut store: Store<u32> = Store::empty();
    assert!(store.lookup().is_none());

    store.register(1);
    let first = store.lookup().unwrap();
    store.register(2);
    let second = store.lookup().unwrap();

    let mut v = store.take(&second).unwrap();
    assert_eq!(v, 2);
    v += 10;
    store.put(&second, v).unwrap();
    assert_eq!(store.take(&second).unwrap(), 12);

    let old = store.take(&first).unwrap();
    assert_eq!(old, 1);
}

#[test]
fn store_refuses_foreign_slots() {
    let mut store: Store<u32> = Store::empty();
    store.register(5);
    let h = store.lookup().unwrap();

    let mut other: Store<u32> = Store::empty();
    assert_eq!(other.take(&h).err(), Some(StateError::NotRegistered));
    assert_eq!(other.put(&h, 0).err(), Some(StateError::NotRegistered));
}

#[test]
fn time_records_the_duration_set() {
    let mut t = Time::default();
    assert_eq!(t.frame_time(), 0);
    t.set_duration(16_666_667);
    assert_eq!(t.frame_time(), 16_666_667);
}
