use dispatch::future::FutureCell;
use dispatch::sem::Semaphore;
use dispatch::{dispatch_data_destructor_default, Data, DispatchBlock, WaitTimeout};
use std::time::Duration;

#[test]
fn block_handle() {
    let b = DispatchBlock::from_raw(0x40);
    assert_eq!(b.as_raw(), 0x40);
    assert_eq!(b.into_raw(), 0x40);
}

#[test]
fn data_handles() {
    assert_eq!(dispatch_data_destructor_default(), 0);
    let empty = 0x900;
    assert_eq!(Data::from_raw_or_empty(0, empty).as_raw(), empty);
    assert_eq!(Data::from_raw_or_empty(0x10, empty).as_raw(), 0x10);
    let (d, retain) = Data::borrow(0, empty);
    assert_eq!((d.as_raw(), retain), (empty, false));
    let (d, retain) = Data::borrow(0x10, empty);
    assert_eq!((d.as_raw(), retain), (0x10, true));
    assert!(d.is_empty_given(empty, 0));
    assert!(!d.is_empty_given(empty, 3));
    assert!(Data::from_raw(empty).is_empty_given(empty, 3));
}

#[test]
fn semaphore_initial_value() {
    assert_eq!(Semaphore::initial_value(1), 1);
    assert_eq!(Semaphore::initial_value(0), 0);
    assert_eq!(Semaphore::initial_value(u64::MAX), -1);
    assert_eq!(Semaphore::from_raw(0x77).as_raw(), 0x77);
}

#[test]
fn future_cell_gives_back_its_value() {
    let mut cell = FutureCell::new();
    assert_eq!(cell.take(), None);
    cell.set("Hello, world!".to_string());
    assert_eq!(cell.get(), "Hello, world!");
    assert_eq!(cell.take(), None);
    cell.set("a".to_string());
    cell.set("b".to_string());
    assert_eq!(cell.take(), Some("b".to_string()));
}

#[test]
fn wait_timeout_keeps_duration() {
    let t = WaitTimeout::new(Duration::from_millis(5000));
    assert_eq!(t.waited(), Duration::from_secs(5));
    let copy = t.clone();
    assert_eq!(copy.waited(), t.waited());
}
