use std::cell::Cell;

use generic_singleton::shared::Insertion;
use generic_singleton::shared::StaticAnyMap;

#[test]
fn works() {
    let map = StaticAnyMap::new();
    let a = map.get_or_init(|| 0);
    let b = map.get_or_init(|| 0);
    assert!(std::ptr::eq(a.as_ref(), b.as_ref()));
}

#[test]
fn recursive_call_to_get_or_init_does_not_panic() {
    let outer = StaticAnyMap::new();
    let inner = StaticAnyMap::new();
    outer.get_or_init(|| inner.get_or_init(|| 0));
}

#[test]
fn initializer_runs_at_most_once() {
    let map = StaticAnyMap::new();
    let runs = Cell::new(0);
    let a = map.get_or_init(|| {
        runs.set(runs.get() + 1);
        7u32
    });
    let b = map.get_or_init(|| {
        runs.set(runs.get() + 1);
        9u32
    });
    assert_eq!(runs.get(), 1);
    assert_eq!(*a, 7);
    assert_eq!(*b, 7);
}

#[test]
fn first_value_wins() {
    let map = StaticAnyMap::new();
    let first = map.get_or_init(|| 1i64);
    let second = map.get_or_init(|| 2i64);
    let third = map.get_or_init(|| 3i64);
    assert_eq!(*first, 1);
    assert_eq!(*second, 1);
    assert_eq!(*third, 1);
    assert!(std::ptr::eq(first.as_ref(), second.as_ref()));
    assert!(std::ptr::eq(first.as_ref(), third.as_ref()));
}

#[test]
fn distinct_types_are_isolated() {
    let map = StaticAnyMap::new();
    let a = map.get_or_init(|| 1u32);
    let b = map.get_or_init(|| 2u64);
    let a_again = map.get_or_init(|| 3u32);
    let b_again = map.get_or_init(|| 4u64);
    assert_eq!(*a, 1u32);
    assert_eq!(*b, 2u64);
    assert_eq!(*a_again, 1u32);
    assert_eq!(*b_again, 2u64);
    assert!(std::ptr::eq(a.as_ref(), a_again.as_ref()));
    assert!(std::ptr::eq(b.as_ref(), b_again.as_ref()));
}

#[test]
fn get_or_install_reports_how_the_entry_was_obtained() {
    let map = StaticAnyMap::new();
    match map.get_or_install(|| 5i32) {
        Insertion::Installed(handle) => assert_eq!(*handle, 5),
        Insertion::Present(_) => panic!("a fresh store must install the offered entry"),
    }
    match map.get_or_install(|| 6i32) {
        Insertion::Present(handle) => assert_eq!(*handle, 5),
        Insertion::Installed(_) => panic!("the second call must find the existing entry"),
    }
}

fn recursive_same_type(map: &StaticAnyMap, first: bool) {
    map.get_or_init(|| {
        if first {
            recursive_same_type(map, false)
        }
    });
}

#[test]
fn reentrant_same_type_init_does_not_deadlock() {
    let map = StaticAnyMap::new();
    recursive_same_type(&map, true);
}

#[test]
fn reentrant_same_type_init_yields_one_instance() {
    let map = StaticAnyMap::new();
    // The initializer for i32 itself completes the i32 entry; the outer
    // attempt's own value is discarded in favour of the one installed first.
    let outer = map.get_or_init(|| *map.get_or_init(|| 5i32) + 1);
    let again = map.get_or_init(|| 99i32);
    assert_eq!(*outer, 5);
    assert_eq!(*again, 5);
    assert!(std::ptr::eq(outer.as_ref(), again.as_ref()));
}
