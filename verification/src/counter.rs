//! The atomic borrow counter and the release obligations it hands out.

use core::sync::atomic::AtomicU16;
use core::sync::atomic::Ordering;
use crate::state::exclusive_admission;
use crate::state::is_free;
use crate::state::shared_admission;
use crate::state::BorrowError;
use crate::state::EXCLUSIVE;
use crate::state::FREE;
use vstd::prelude::*;

verus! {

/// The borrow state of one cell. Every transition is a single atomic
/// read-modify-write step, so threads may use it without a lock.
pub struct BorrowCounter {
    raw: AtomicU16,
}

/// One outstanding shared borrow. Dropping it gives the borrow back.
pub struct SharedBorrow<'a> {
    raw: &'a AtomicU16,
}

/// The outstanding exclusive borrow. Dropping it frees the cell.
pub struct ExclusiveBorrow<'a> {
    raw: &'a AtomicU16,
}

impl<'a> SharedBorrow<'a> {
    /// Whether this borrow was taken from `counter`, and is given back to it.
    pub closed spec fn taken_from(&self, counter: &BorrowCounter) -> bool {
        self.raw == &counter.raw
    }
}

impl<'a> ExclusiveBorrow<'a> {
    /// Whether this borrow was taken from `counter`, and is given back to it.
    pub closed spec fn taken_from(&self, counter: &BorrowCounter) -> bool {
        self.raw == &counter.raw
    }
}

impl BorrowCounter {
    /// A counter in the free state: the atomic is created with the value of a
    /// cell that nobody borrows. What an atomic holds is not part of its
    /// value as a contract can speak of it, so nothing is stated of the result.
    pub fn new() -> (counter: Self) {
        BorrowCounter { raw: AtomicU16::new(FREE) }
    }

    /// Requests a shared borrow: one atomic increment, then the decision on
    /// the value that the increment met, as `shared_admission` gives it. Other
    /// threads may move the counter at any time, so nothing is promised about
    /// which way the decision goes.
    ///
    /// The increment has happened either way. On `Err` the counter no longer
    /// describes the borrows that exist, and the caller is to end the process
    /// with the error's message instead of going on.
    pub fn borrow(&self) -> (r: Result<SharedBorrow<'_>, BorrowError>)
        ensures
            r matches Ok(taken) ==> taken.taken_from(self),
            r matches Err(e) ==> e == BorrowError::SharedWhileExclusive,
    {
        let previous: u16 = self.raw.fetch_add(1, Ordering::AcqRel);
        match shared_admission(previous) {
            Ok(()) => Ok(SharedBorrow { raw: &self.raw }),
            Err(e) => Err(e),
        }
    }

    /// Requests the exclusive borrow: one atomic swap to the exclusive mark,
    /// then the decision on the value that the swap met, as
    /// `exclusive_admission` gives it.
    ///
    /// The swap has happened either way. On `Err` the counter no longer
    /// describes the borrows that exist, and the caller is to end the process
    /// with the error's message instead of going on.
    pub fn borrow_mut(&self) -> (r: Result<ExclusiveBorrow<'_>, BorrowError>)
        ensures
            r matches Ok(taken) ==> taken.taken_from(self),
            r matches Err(e) ==> e == BorrowError::ExclusiveWhileBorrowed,
    {
        let previous: u16 = self.raw.swap(EXCLUSIVE, Ordering::AcqRel);
        match exclusive_admission(previous) {
            Ok(()) => Ok(ExclusiveBorrow { raw: &self.raw }),
            Err(e) => Err(e),
        }
    }

    /// Whether the counter was free at the moment of one atomic read, as
    /// `is_free` reads the value that the load returned. Other threads may
    /// move the counter at any time, so the answer may be stale when it
    /// arrives and nothing is promised about it: it is a hint, and no ground
    /// for a decision about synchronisation.
    pub fn free(&self) -> (free: bool) {
        let seen: u16 = self.raw.load(Ordering::Acquire);
        is_free(seen)
    }
}

impl<'a> Drop for SharedBorrow<'a> {
    /// Gives the shared borrow back: one atomic decrement.
    fn drop(&mut self)
        opens_invariants none
        no_unwind
    {
        let _previous: u16 = fetch_sub_acq_rel(self.raw, 1);
    }
}

impl<'a> Drop for ExclusiveBorrow<'a> {
    /// Frees the cell: one atomic store.
    fn drop(&mut self)
        opens_invariants none
        no_unwind
    {
        store_release(self.raw, FREE);
    }
}

/// `AtomicU16::fetch_sub` with acquire-release ordering. The contract claims
/// only that the call returns without unwinding, which a destructor needs to
/// know. The value it returns is the counter as some thread left it, of which
/// nothing is known here.
#[verifier::external_body]
fn fetch_sub_acq_rel(raw: &AtomicU16, amount: u16) -> (previous: u16)
    opens_invariants none
    no_unwind
{
    raw.fetch_sub(amount, Ordering::AcqRel)
}

/// `AtomicU16::store` with release ordering, one of the orderings that `store`
/// accepts. The contract claims only that the call returns without unwinding,
/// which a destructor needs to know.
#[verifier::external_body]
fn store_release(raw: &AtomicU16, value: u16)
    opens_invariants none
    no_unwind
{
    raw.store(value, Ordering::Release)
}

} // verus!
