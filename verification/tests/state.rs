use rwcell::state::exclusive_admission;
use rwcell::state::is_free;
use rwcell::state::shared_admission;
use rwcell::state::BorrowError;
use rwcell::state::EXCLUSIVE;
use rwcell::state::FREE;
use rwcell::state::SHARED_CEILING;

#[test]
fn counter_encoding_constants() {
    assert_eq!(FREE, 0);
    assert_eq!(EXCLUSIVE, u16::MAX);
    assert_eq!(SHARED_CEILING, u16::MAX - 1);
}

#[test]
fn shared_admitted_on_free_counter() {
    assert_eq!(shared_admission(0), Ok(()));
}

#[test]
fn shared_admitted_below_ceiling() {
    assert_eq!(shared_admission(1), Ok(()));
    assert_eq!(shared_admission(1000), Ok(()));
    assert_eq!(shared_admission(0xFFFD), Ok(()));
}

#[test]
fn shared_refused_at_ceiling() {
    assert_eq!(shared_admission(0xFFFE), Err(BorrowError::SharedWhileExclusive));
}

#[test]
fn shared_refused_against_exclusive_mark() {
    assert_eq!(shared_admission(0xFFFF), Err(BorrowError::SharedWhileExclusive));
}

#[test]
fn exclusive_admitted_on_free_counter() {
    assert_eq!(exclusive_admission(0), Ok(()));
}

#[test]
fn exclusive_refused_while_shared_borrows_exist() {
    assert_eq!(exclusive_admission(1), Err(BorrowError::ExclusiveWhileBorrowed));
    assert_eq!(exclusive_admission(2), Err(BorrowError::ExclusiveWhileBorrowed));
    assert_eq!(exclusive_admission(0xFFFE), Err(BorrowError::ExclusiveWhileBorrowed));
}

#[test]
fn exclusive_refused_against_exclusive_mark() {
    assert_eq!(exclusive_admission(0xFFFF), Err(BorrowError::ExclusiveWhileBorrowed));
}

#[test]
fn admission_agrees_with_ranges_for_every_counter_value() {
    let mut raw: u16 = 0;
    loop {
        assert_eq!(shared_admission(raw).is_ok(), raw < 0xFFFE);
        assert_eq!(exclusive_admission(raw).is_ok(), raw == 0);
        if raw == u16::MAX {
            break;
        }
        raw += 1;
    }
}

#[test]
fn violation_messages_tell_the_two_triggers_apart() {
    assert_eq!(
        BorrowError::SharedWhileExclusive.message(),
        "Attempted to immutably borrow cell while it was mutably borrowed."
    );
    assert_eq!(
        BorrowError::ExclusiveWhileBorrowed.message(),
        "Attempted to mutably borrow cell while other borrows already existed."
    );
    assert_ne!(
        BorrowError::SharedWhileExclusive.message(),
        BorrowError::ExclusiveWhileBorrowed.message()
    );
}

#[test]
fn only_the_zero_counter_reads_as_free() {
    assert!(is_free(0));
    assert!(!is_free(1));
    assert!(!is_free(2));
    assert!(!is_free(0xFFFE));
    assert!(!is_free(0xFFFF));
}

#[test]
fn free_reading_agrees_with_exclusive_admission_for_every_counter_value() {
    let mut raw: u16 = 0;
    loop {
        assert_eq!(is_free(raw), exclusive_admission(raw).is_ok());
        if raw == u16::MAX {
            break;
        }
        raw += 1;
    }
}
