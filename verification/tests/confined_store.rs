use std::cell::Cell;

use generic_singleton::confined::StoreError;
use generic_singleton::confined::ThreadLocalStaticAnymap;

fn local_testing_function(map: &ThreadLocalStaticAnymap) -> i32 {
    let mut r: i32 = 0;
    map.get_or_init_with(
        || Cell::new(0),
        |a| {
            a.set(a.get() + 1);
            r = a.get();
        },
    )
    .unwrap();
    r
}

#[test]
fn thread_local_works() {
    let map = ThreadLocalStaticAnymap::new();
    assert_eq!(local_testing_function(&map), 1);
    assert_eq!(local_testing_function(&map), 2);
    assert_eq!(local_testing_function(&map), 3);
}

fn recursive_get(map: &ThreadLocalStaticAnymap, first: bool) {
    // Reentrant *access* is tolerated: the visitor reaches the same, already
    // constructed entry again through a shared view.
    map.get_or_init_with(
        || (),
        |_: &_| {
            if first {
                recursive_get(map, false)
            }
        },
    )
    .unwrap();
}

#[test]
fn recursive_call_to_get_or_init_thread_local_get_works() {
    let map = ThreadLocalStaticAnymap::new();
    recursive_get(&map, true)
}

#[test]
fn reentrant_confined_init_is_fatal() {
    let map = ThreadLocalStaticAnymap::new();
    let mut inner_result = None;
    let mut seen = 0u8;
    let outer_result = map.get_or_init_with(
        || {
            // A construction attempt for u8 from inside u8's own
            // initializer: the inner call must refuse immediately.
            inner_result = Some(map.get_or_init_with(|| 1u8, |_| {}));
            2u8
        },
        |v| seen = *v,
    );
    assert_eq!(inner_result, Some(Err(StoreError::ReentrantInit)));
    assert_eq!(outer_result, Ok(()));
    assert_eq!(seen, 2);
}

#[test]
fn visitor_sees_initialized_value() {
    let map = ThreadLocalStaticAnymap::new();
    let mut seen: i32 = 0;
    map.get_or_init_with(|| 41i32, |v| seen = *v).unwrap();
    assert_eq!(seen, 41);
    map.get_or_init_with(|| 99i32, |v| seen = *v).unwrap();
    assert_eq!(seen, 41);
}

#[test]
fn confined_types_are_isolated() {
    let map = ThreadLocalStaticAnymap::new();
    let mut seen_small = 0u16;
    let mut seen_large = 0u64;
    map.get_or_init_with(|| 7u16, |v| seen_small = *v).unwrap();
    map.get_or_init_with(|| 8u64, |v| seen_large = *v).unwrap();
    map.get_or_init_with(|| 9u16, |v| seen_small = *v).unwrap();
    assert_eq!(seen_small, 7);
    assert_eq!(seen_large, 8);
}

fn bump(map: &ThreadLocalStaticAnymap) -> i32 {
    let mut r: i32 = 0;
    map.get_or_init_with(
        || Cell::new(0),
        |c| {
            c.set(c.get() + 1);
            r = c.get();
        },
    )
    .unwrap();
    r
}

#[test]
fn separate_stores_hold_separate_instances() {
    let a = ThreadLocalStaticAnymap::new();
    let b = ThreadLocalStaticAnymap::new();
    assert_eq!(bump(&a), 1);
    assert_eq!(bump(&a), 2);
    assert_eq!(bump(&b), 1);
    assert_eq!(bump(&a), 3);
    assert_eq!(bump(&b), 2);
}
