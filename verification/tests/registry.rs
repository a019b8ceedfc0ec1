//! Registry-level behaviour: bootstrap, registration, lookup, and the
//! shared-mutation discipline seen through handles.

use states::Custom;
use states::FromState;
use states::StateError;
use states::States;
use states::Time;

#[derive(Default)]
struct CustomState {
    level: u32,
}

#[test]
fn default_registry_has_the_three_builtins() {
    let s: States<CustomState> = States::default();
    assert!(s.get::<states::Time>().is_ok());
    assert!(s.get::<states::Events>().is_ok());
    assert!(s.get::<states::Chunks>().is_ok());
    assert!(s.get_option::<states::Time>().is_some());
    assert!(s.get_option::<states::Events>().is_some());
    assert!(s.get_option::<states::Chunks>().is_some());
    assert_eq!(
        s.get::<Custom<CustomState>>().err(),
        Some(StateError::NotRegistered)
    );
    assert!(s.get_option::<Custom<CustomState>>().is_none());
}

#[test]
fn registered_once_is_found_unregistered_is_not() {
    let mut s: States<CustomState> = States::empty();
    assert_eq!(s.get::<Time>().err(), Some(StateError::NotRegistered));
    assert!(s.get_option::<Time>().is_none());
    s.register(Time::default());
    assert!(s.get::<Time>().is_ok());
    assert!(s.get_option::<Time>().is_some());
    assert_eq!(
        s.get::<Custom<CustomState>>().err(),
        Some(StateError::NotRegistered)
    );
}

#[test]
fn mutation_is_visible_through_every_clone() {
    let mut s: States<()> = States::default();
    let h1 = s.get::<Time>().unwrap();
    let h2 = h1.clone();

    let mut t = s.take(&h1).unwrap();
    t.set_duration(42);
    s.put(&h1, t).unwrap();

    let seen = s.take(&h2).unwrap();
    assert_eq!(seen.frame_time(), 42);
    s.put(&h2, seen).unwrap();

    let h3 = s.get::<Time>().unwrap();
    let seen = s.take(&h3).unwrap();
    assert_eq!(seen.frame_time(), 42);
    s.put(&h3, seen).unwrap();
}

#[test]
fn reregistration_does_not_retarget_old_handles() {
    let mut s: States<()> = States::default();

    let mut v1 = Time::default();
    v1.set_duration(5);
    s.register(v1);
    let old_handle = s.get::<Time>().unwrap();

    let mut v2 = Time::default();
    v2.set_duration(9);
    s.register(v2);

    let new_handle = s.get::<Time>().unwrap();
    let current = s.take(&new_handle).unwrap();
    assert_eq!(current.frame_time(), 9);
    s.put(&new_handle, current).unwrap();

    let old = s.take(&old_handle).unwrap();
    assert_eq!(old.frame_time(), 5);
    s.put(&old_handle, old).unwrap();
}

#[test]
fn overlapping_views_are_rejected_sequential_views_succeed() {
    let mut s: States<()> = States::default();
    let h1 = s.get::<Time>().unwrap();
    let h2 = h1.clone();

    let held = s.take(&h1).unwrap();
    assert_eq!(
        s.take(&h2).err(),
        Some(StateError::ExclusiveAccessViolation)
    );
    s.put(&h1, held).unwrap();

    let again = s.take(&h2).unwrap();
    assert_eq!(again.frame_time(), 0);
    s.put(&h2, again).unwrap();
}

#[test]
fn releasing_without_a_view_is_rejected() {
    let mut s: States<()> = States::default();
    let h = s.get::<Time>().unwrap();
    assert_eq!(
        s.put(&h, Time::default()).err(),
        Some(StateError::ExclusiveAccessViolation)
    );
}

#[test]
fn frame_time_scenario() {
    let mut s: States<()> = States::default();
    let handle = s.get::<Time>().unwrap();
    let mut t = s.take(&handle).unwrap();
    assert_eq!(t.frame_time(), 0);
    t.set_duration(150_000_000);
    s.put(&handle, t).unwrap();

    let second = s.get::<Time>().unwrap();
    let t = s.take(&second).unwrap();
    assert_eq!(t.frame_time(), 150_000_000);
    s.put(&second, t).unwrap();
}

#[test]
fn custom_state_scenario() {
    let mut s: States<CustomState> = States::default();
    assert_eq!(
        s.get::<Custom<CustomState>>().err(),
        Some(StateError::NotRegistered)
    );

    s.register(Custom(CustomState::default()));
    let h = s.get::<Custom<CustomState>>().unwrap();
    let mut c = s.take(&h).unwrap();
    assert_eq!(c.0.level, 0);
    c.0.level = 3;
    s.put(&h, c).unwrap();

    let h2 = s.get::<Custom<CustomState>>().unwrap();
    let c = s.take(&h2).unwrap();
    assert_eq!(c.0.level, 3);
    s.put(&h2, c).unwrap();
}

#[test]
fn from_state_matches_get() {
    let mut s: States<CustomState> = States::default();
    assert!(Time::from_state(&s).is_ok());
    assert_eq!(
        <Custom<CustomState> as FromState<CustomState>>::from_state(&s).err(),
        Some(StateError::NotRegistered)
    );
    s.register(Custom(CustomState::default()));
    assert!(<Custom<CustomState> as FromState<CustomState>>::from_state(&s).is_ok());
}

#[test]
fn cross_type_mutation_is_independent() {
    let mut s: States<()> = States::default();
    let ht = s.get::<Time>().unwrap();
    let he = s.get::<states::Events>().unwrap();

    let mut t = s.take(&ht).unwrap();
    let e = s.take(&he).unwrap();
    t.set_duration(7);
    s.put(&he, e).unwrap();
    s.put(&ht, t).unwrap();

    let t = s.take(&ht).unwrap();
    assert_eq!(t.frame_time(), 7);
    s.put(&ht, t).unwrap();
}
