use lazy_thunk::{LazyCell, LazyOption};
use std::cell::Cell;

#[test]
fn by_name() {
    let called = Cell::new(false);
    let val = LazyCell::new(|| {
        called.set(true);
        7
    });
    assert!(!called.get());
    assert_eq!(val.get().unwrap(), 7);
    assert!(called.get());
}

#[test]
fn lazy_cell_forces_once() {
    let counter = Cell::new(0);
    let val = LazyCell::new(|| {
        counter.set(counter.get() + 1);
        11
    });
    assert_eq!(counter.get(), 0);
    assert!(val.evaluate());
    assert!(val.evaluate());
    assert_eq!(val.get(), Some(11));
    assert_eq!(val.get(), Some(11));
    assert_eq!(counter.get(), 1);
}

#[test]
fn lazy_cell_cache_fn_reads_cached_value() {
    let counter = Cell::new(0);
    let val = LazyCell::new(|| {
        counter.set(counter.get() + 1);
        String::from("cached")
    });
    let read = val.cache_fn();
    assert_eq!(counter.get(), 0);
    assert_eq!(read(), Some(String::from("cached")));
    assert_eq!(read(), Some(String::from("cached")));
    assert_eq!(counter.get(), 1);
}

#[test]
fn lazy_cell_promote() {
    let empty: LazyOption<i32, fn() -> i32> = LazyOption::Empty;
    assert!(LazyCell::promote(empty).is_none());
    let done: LazyOption<i32, fn() -> i32> = LazyOption::Result(3);
    assert_eq!(LazyCell::promote(done).unwrap().get(), Some(3));
    let counter = Cell::new(0);
    let pending = LazyOption::Function(|| {
        counter.set(counter.get() + 1);
        4
    });
    let cell = LazyCell::promote(pending).unwrap();
    assert_eq!(counter.get(), 0);
    assert_eq!(cell.get(), Some(4));
    assert_eq!(counter.get(), 1);
}

#[test]
fn lazy_option_into_result() {
    let empty: LazyOption<i32, fn() -> i32> = LazyOption::Empty;
    assert_eq!(empty.into_result(), None);
    let done: LazyOption<i32, fn() -> i32> = LazyOption::Result(8);
    assert_eq!(done.into_result(), Some(8));
    let pending = LazyOption::Function(|| 6 * 7);
    assert_eq!(pending.into_result(), Some(42));
}
