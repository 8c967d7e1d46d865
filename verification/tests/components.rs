use generic_singleton::slot::Marker;
use generic_singleton::slot::SlotState;
use generic_singleton::type_map::TypeKeyedMap;

#[test]
fn insert_if_absent_discards_second_value() {
    let mut map: TypeKeyedMap<i32> = TypeKeyedMap::new();
    assert_eq!(*map.insert_if_absent(1, 10), 10);
    assert_eq!(*map.insert_if_absent(1, 20), 10);
    assert_eq!(*map.insert_if_absent(2, 30), 30);
    assert_eq!(map.get(1), Some(&10));
    assert_eq!(map.get(2), Some(&30));
    assert_eq!(map.get(3), None);
    assert!(map.contains(1));
    assert!(!map.contains(3));
}

#[test]
fn insertions_for_one_key_leave_others_alone() {
    let mut map: TypeKeyedMap<&str> = TypeKeyedMap::new();
    map.insert_if_absent(1, "one");
    map.insert_if_absent(2, "two");
    map.insert_if_absent(1, "not one");
    assert_eq!(map.get(1), Some(&"one"));
    assert_eq!(map.get(2), Some(&"two"));
}

#[test]
fn map_get_or_init_runs_initializer_only_on_miss() {
    let mut map: TypeKeyedMap<String> = TypeKeyedMap::new();
    let mut runs: u32 = 0;
    let first = map.get_or_init(7, || {
        runs += 1;
        String::from("first")
    });
    assert_eq!(first.as_str(), "first");
    let second = map.get_or_init(7, || {
        runs += 1;
        String::from("second")
    });
    assert_eq!(second.as_str(), "first");
    assert_eq!(runs, 1);
    let other = map.get_or_init(8, || String::from("other"));
    assert_eq!(other.as_str(), "other");
}

#[test]
fn slot_protocol_detects_reentrant_construction() {
    let mut slot: SlotState<i32> = SlotState::Absent;
    assert!(matches!(slot.enter(), Marker::Absent));
    // A second entry before delivery is the reentrant case: reported, and
    // the slot is left as it is.
    assert!(matches!(slot.enter(), Marker::InProgress));
    assert!(slot.commit(5));
    assert_eq!(slot.value(), Some(&5));
}

#[test]
fn slot_protocol_keeps_first_value() {
    let mut slot: SlotState<i32> = SlotState::Absent;
    assert!(matches!(slot.enter(), Marker::Absent));
    assert!(slot.commit(5));
    // Once ready, a slot refuses further deliveries and keeps its value.
    assert!(!slot.commit(6));
    assert!(matches!(slot.enter(), Marker::Ready));
    assert_eq!(slot.value(), Some(&5));
}

#[test]
fn empty_slot_has_no_value() {
    let absent: SlotState<u8> = SlotState::Absent;
    assert_eq!(absent.value(), None);
    let mut claimed: SlotState<u8> = SlotState::Absent;
    claimed.enter();
    assert_eq!(claimed.value(), None);
}
