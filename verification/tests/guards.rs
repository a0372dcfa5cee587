use rwcell::counter::BorrowCounter;
use rwcell::guard::RwCellGuard;
use rwcell::guard::RwCellGuardMut;
use rwcell::state::BorrowError;

#[test]
fn shared_guards_observe_the_same_value() {
    let counter = BorrowCounter::new();
    let value = String::from("payload");
    let a = RwCellGuard::new(counter.borrow().ok().unwrap(), &value);
    let b = RwCellGuard::new(counter.borrow().ok().unwrap(), &value);
    let c = RwCellGuard::new(counter.borrow().ok().unwrap(), &value);
    assert_eq!(*a, "payload");
    assert_eq!(*b, "payload");
    assert_eq!(*c, "payload");
    assert!(!counter.free());
    drop(a);
    drop(b);
    assert!(!counter.free());
    drop(c);
    assert!(counter.free());
}

#[test]
fn shared_guard_releases_when_dropped() {
    let counter = BorrowCounter::new();
    let value = 5u32;
    let guard = RwCellGuard::new(counter.borrow().ok().unwrap(), &value);
    assert_eq!(*guard, 5);
    assert!(!counter.free());
    drop(guard);
    assert!(counter.free());
}

#[test]
fn exclusive_guard_releases_when_dropped() {
    let counter = BorrowCounter::new();
    let mut value = 5u32;
    let guard = RwCellGuardMut::new(counter.borrow_mut().ok().unwrap(), &mut value);
    assert_eq!(*guard, 5);
    assert!(!counter.free());
    drop(guard);
    assert!(counter.free());
}

#[test]
fn value_written_under_exclusive_guard_is_seen_under_shared_guard() {
    let counter = BorrowCounter::new();
    let mut value = String::from("before");
    {
        let mut guard = RwCellGuardMut::new(counter.borrow_mut().ok().unwrap(), &mut value);
        assert_eq!(*guard, "before");
        *guard = String::from("after");
        assert_eq!(*guard, "after");
    }
    let guard = RwCellGuard::new(counter.borrow().ok().unwrap(), &value);
    assert_eq!(*guard, "after");
}

#[test]
fn zero_set_to_forty_two_is_observed_by_the_next_borrower() {
    let counter = BorrowCounter::new();
    let mut value = 0i32;
    {
        let mut writer = RwCellGuardMut::new(counter.borrow_mut().ok().unwrap(), &mut value);
        *writer = 42;
    }
    assert!(counter.free());
    let reader = RwCellGuard::new(counter.borrow().ok().unwrap(), &value);
    assert_eq!(*reader, 42);
}

#[test]
fn narrowed_shared_guard_shows_the_part() {
    let counter = BorrowCounter::new();
    let value = (1u8, String::from("second"));
    let whole = RwCellGuard::new(counter.borrow().ok().unwrap(), &value);
    let part = RwCellGuard::map(whole, |pair| &pair.1);
    assert_eq!(*part, "second");
}

#[test]
fn narrowing_to_an_unsized_part() {
    let counter = BorrowCounter::new();
    let value = vec![1u8, 2, 3, 4];
    let whole = RwCellGuard::new(counter.borrow().ok().unwrap(), &value);
    let part: RwCellGuard<'_, [u8]> = RwCellGuard::map(whole, |all| &all[1..3]);
    assert_eq!(&*part, &[2u8, 3][..]);
}

#[test]
fn narrowed_shared_guard_still_blocks_exclusive_borrow() {
    let counter = BorrowCounter::new();
    let value = (1u8, 2u8);
    let whole = RwCellGuard::new(counter.borrow().ok().unwrap(), &value);
    let part = RwCellGuard::map(whole, |pair| &pair.0);
    assert!(!counter.free());
    assert_eq!(counter.borrow_mut().err(), Some(BorrowError::ExclusiveWhileBorrowed));
    assert_eq!(*part, 1);
}

#[test]
fn narrowing_does_not_touch_the_counter() {
    let counter = BorrowCounter::new();
    let value = (1u8, 2u8);
    let other = counter.borrow().ok().unwrap();
    let whole = RwCellGuard::new(counter.borrow().ok().unwrap(), &value);
    let part = RwCellGuard::map(whole, |pair| &pair.0);
    let again = RwCellGuard::map(part, |byte| byte);
    drop(other);
    assert!(!counter.free());
    drop(again);
    assert!(counter.free());
}

#[test]
fn exclusive_borrow_succeeds_once_narrowed_guard_is_released() {
    let counter = BorrowCounter::new();
    let value = (1u8, 2u8);
    let whole = RwCellGuard::new(counter.borrow().ok().unwrap(), &value);
    let part = RwCellGuard::map(whole, |pair| &pair.1);
    assert_eq!(*part, 2);
    drop(part);
    assert!(counter.free());
    assert!(counter.borrow_mut().is_ok());
}

#[test]
fn narrowed_exclusive_guard_writes_through_to_the_whole() {
    let counter = BorrowCounter::new();
    let mut value = (1u32, 2u32);
    {
        let whole = RwCellGuardMut::new(counter.borrow_mut().ok().unwrap(), &mut value);
        let mut part = RwCellGuardMut::map(whole, |pair| &mut pair.1);
        assert_eq!(*part, 2);
        *part = 7;
        assert!(!counter.free());
    }
    assert!(counter.free());
    assert_eq!(value, (1, 7));
}

#[test]
fn narrowed_exclusive_guard_still_blocks_shared_borrow() {
    let counter = BorrowCounter::new();
    let mut value = (1u32, 2u32);
    let whole = RwCellGuardMut::new(counter.borrow_mut().ok().unwrap(), &mut value);
    let part = RwCellGuardMut::map(whole, |pair| &mut pair.0);
    assert_eq!(counter.borrow().err(), Some(BorrowError::SharedWhileExclusive));
    assert_eq!(*part, 1);
}
