//! A lock-free borrow discipline for a cell shared between threads: any number
//! of shared borrows up to a ceiling, or exactly one exclusive borrow, tracked
//! in a single atomic counter. A conflicting request never waits; it is
//! reported at once so that the caller can terminate the process.

pub mod counter;
pub mod discipline;
pub mod guard;
pub mod state;
