//! The encoding of the borrow counter and the rules that decide, from the value
//! an atomic step observed, whether the borrow it asked for is admitted.

use vstd::prelude::*;

verus! {

/// The counter value of a cell that nobody borrows.
pub const FREE: u16 = 0;

/// The counter value of a cell under an exclusive borrow: the top of the range,
/// which shared borrows never reach while they are admitted.
pub const EXCLUSIVE: u16 = 0xFFFF;

/// The largest number of shared borrows that may be outstanding at once.
pub const SHARED_CEILING: u16 = 0xFFFE;

/// What a counter value stands for.
pub enum Borrows {
    /// No borrow is outstanding.
    Free,
    /// This many shared borrows are outstanding, between 1 and the ceiling.
    Shared(nat),
    /// Exactly one exclusive borrow is outstanding.
    Exclusive,
}

/// The borrow configuration that a raw counter value encodes.
pub open spec fn borrows_of(raw: u16) -> Borrows {
    if raw == FREE {
        Borrows::Free
    } else if raw == EXCLUSIVE {
        Borrows::Exclusive
    } else {
        Borrows::Shared(raw as nat)
    }
}

/// The two ways in which a request can break the borrow discipline.
#[derive(Clone, Copy, PartialEq, Eq, Structural, Debug)]
pub enum BorrowError {
    /// A shared borrow was requested while the cell was exclusively borrowed,
    /// or while the ceiling of shared borrows was reached.
    SharedWhileExclusive,
    /// An exclusive borrow was requested while any borrow was outstanding.
    ExclusiveWhileBorrowed,
}

/// The text that accompanies each violation.
pub open spec fn message_of(e: BorrowError) -> Seq<char> {
    match e {
        BorrowError::SharedWhileExclusive =>
            "Attempted to immutably borrow cell while it was mutably borrowed."@,
        BorrowError::ExclusiveWhileBorrowed =>
            "Attempted to mutably borrow cell while other borrows already existed."@,
    }
}

impl BorrowError {
    /// The message with which the process is to be terminated.
    pub fn message(&self) -> (text: &'static str)
        ensures
            text@ == message_of(*self),
    {
        match self {
            BorrowError::SharedWhileExclusive =>
                "Attempted to immutably borrow cell while it was mutably borrowed.",
            BorrowError::ExclusiveWhileBorrowed =>
                "Attempted to mutably borrow cell while other borrows already existed.",
        }
    }
}

/// A shared borrow is admitted when the counter it met was below the ceiling;
/// the exclusive mark lies above the ceiling.
pub open spec fn shared_admitted(previous: u16) -> bool {
    previous < SHARED_CEILING
}

/// An exclusive borrow is admitted only on a free cell.
pub open spec fn exclusive_admitted(previous: u16) -> bool {
    previous == FREE
}

/// The counter after an atomic increment by one, which wraps at the top.
pub open spec fn after_shared_attempt(previous: u16) -> u16 {
    if previous == EXCLUSIVE {
        FREE
    } else {
        (previous + 1) as u16
    }
}

/// The counter after an atomic swap to the exclusive mark.
pub open spec fn after_exclusive_attempt(previous: u16) -> u16 {
    EXCLUSIVE
}

/// The counter after a shared borrow was released: an atomic decrement by one,
/// which wraps at zero.
pub open spec fn after_shared_release(previous: u16) -> u16 {
    if previous == FREE {
        EXCLUSIVE
    } else {
        (previous - 1) as u16
    }
}

/// The counter after the exclusive borrow was released.
pub open spec fn after_exclusive_release(previous: u16) -> u16 {
    FREE
}

/// Decides a request for a shared borrow from the counter value that its
/// increment observed.
pub fn shared_admission(previous: u16) -> (r: Result<(), BorrowError>)
    ensures
        r is Ok <==> shared_admitted(previous),
        r is Err ==> r == Err::<(), BorrowError>(BorrowError::SharedWhileExclusive),
{
    if previous >= SHARED_CEILING {
        Err(BorrowError::SharedWhileExclusive)
    } else {
        Ok(())
    }
}

/// Decides a request for an exclusive borrow from the counter value that its
/// swap observed.
pub fn exclusive_admission(previous: u16) -> (r: Result<(), BorrowError>)
    ensures
        r is Ok <==> exclusive_admitted(previous),
        r is Err ==> r == Err::<(), BorrowError>(BorrowError::ExclusiveWhileBorrowed),
{
    if previous != FREE {
        Err(BorrowError::ExclusiveWhileBorrowed)
    } else {
        Ok(())
    }
}

/// Reads one observation of the counter: whether the value that an atomic
/// load returned is that of a cell that nobody borrows.
pub fn is_free(seen: u16) -> (free: bool)
    ensures
        free == (borrows_of(seen) is Free),
        free == (seen == FREE),
{
    seen == FREE
}

} // verus!
