//! What the encoding of the counter guarantees, read as a machine that takes
//! one atomic step per request or release. The steps are those of `state`;
//! the statements here hold of every counter value that the steps can meet.

use crate::state::after_exclusive_attempt;
use crate::state::after_exclusive_release;
use crate::state::after_shared_attempt;
use crate::state::after_shared_release;
use crate::state::borrows_of;
use crate::state::exclusive_admitted;
use crate::state::shared_admitted;
use crate::state::Borrows;
use crate::state::FREE;
use crate::state::SHARED_CEILING;
use vstd::prelude::*;

verus! {

/// The counter after `n` requests for a shared borrow in a row.
pub open spec fn after_shared_attempts(raw: u16, n: nat) -> u16
    decreases n,
{
    if n == 0 {
        raw
    } else {
        after_shared_attempt(after_shared_attempts(raw, (n - 1) as nat))
    }
}

/// The counter after `n` shared borrows were given back in a row.
pub open spec fn after_shared_releases(raw: u16, n: nat) -> u16
    decreases n,
{
    if n == 0 {
        raw
    } else {
        after_shared_release(after_shared_releases(raw, (n - 1) as nat))
    }
}

/// The number of shared borrows that a counter value stands for.
pub open spec fn shared_count(raw: u16) -> nat {
    match borrows_of(raw) {
        Borrows::Shared(n) => n,
        _ => 0,
    }
}

/// An admitted shared request meets a cell that is not exclusively borrowed
/// and leaves it with one shared borrow more, still within the ceiling.
pub proof fn lemma_admitted_shared_attempt(raw: u16)
    requires
        shared_admitted(raw),
    ensures
        !(borrows_of(raw) is Exclusive),
        borrows_of(after_shared_attempt(raw)) == Borrows::Shared(shared_count(raw) + 1),
        shared_count(raw) + 1 <= SHARED_CEILING,
{
}

/// An admitted exclusive request meets a free cell and leaves it exclusively
/// borrowed: no shared borrow exists beside the exclusive one.
pub proof fn lemma_admitted_exclusive_attempt(raw: u16)
    requires
        exclusive_admitted(raw),
    ensures
        borrows_of(raw) is Free,
        borrows_of(after_exclusive_attempt(raw)) is Exclusive,
{
}

/// While the cell is borrowed in any way, an exclusive request is refused.
/// While it is exclusively borrowed, or the ceiling of shared borrows is
/// reached, a shared request is refused.
pub proof fn lemma_conflicts_refused(raw: u16)
    ensures
        borrows_of(raw) is Shared ==> !exclusive_admitted(raw),
        borrows_of(raw) is Exclusive ==> !exclusive_admitted(raw),
        borrows_of(raw) is Exclusive ==> !shared_admitted(raw),
        raw == SHARED_CEILING ==> !shared_admitted(raw),
        borrows_of(raw) is Free ==> shared_admitted(raw) && exclusive_admitted(raw),
{
}

/// Giving back one of `n` shared borrows leaves `n - 1` of them, and a free
/// cell when it was the last.
pub proof fn lemma_shared_release(raw: u16)
    requires
        borrows_of(raw) is Shared,
    ensures
        shared_count(raw) == 1 ==> borrows_of(after_shared_release(raw)) is Free,
        shared_count(raw) > 1 ==> borrows_of(after_shared_release(raw)) == Borrows::Shared(
            (shared_count(raw) - 1) as nat,
        ),
        after_shared_attempt(after_shared_release(raw)) == raw,
{
}

/// Giving back the exclusive borrow leaves a free cell, which admits a request
/// of either kind.
pub proof fn lemma_exclusive_round_trip()
    ensures
        exclusive_admitted(FREE),
        after_exclusive_release(after_exclusive_attempt(FREE)) == FREE,
        shared_admitted(after_exclusive_release(after_exclusive_attempt(FREE))),
        exclusive_admitted(after_exclusive_release(after_exclusive_attempt(FREE))),
{
}

/// From a free cell, every one of up to the ceiling's number of shared
/// requests in a row is admitted, and after `n` of them the counter stands for
/// `n` shared borrows.
pub proof fn lemma_shared_up_to_ceiling(n: nat)
    requires
        n <= SHARED_CEILING,
    ensures
        after_shared_attempts(FREE, n) == n,
        forall|k: nat| k < n ==> shared_admitted(#[trigger] after_shared_attempts(FREE, k)),
        n >= 1 ==> borrows_of(after_shared_attempts(FREE, n)) == Borrows::Shared(n),
    decreases n,
{
    if n > 0 {
        lemma_shared_up_to_ceiling((n - 1) as nat);
        assert forall|k: nat| k < n implies shared_admitted(
            #[trigger] after_shared_attempts(FREE, k),
        ) by {
            if k == n - 1 {
            }
        }
    }
}

/// Giving back `k` of `n` outstanding shared borrows leaves `n - k`.
pub proof fn lemma_shared_releases(n: nat, k: nat)
    requires
        k <= n <= SHARED_CEILING,
    ensures
        after_shared_releases(n as u16, k) == n - k,
    decreases k,
{
    if k > 0 {
        lemma_shared_releases(n, (k - 1) as nat);
    }
}

/// After `n` shared borrows were taken from a free cell and all `n` were given
/// back, the cell is free again and admits a request of either kind.
pub proof fn lemma_shared_round_trip(n: nat)
    requires
        n <= SHARED_CEILING,
    ensures
        after_shared_releases(after_shared_attempts(FREE, n), n) == FREE,
        shared_admitted(after_shared_releases(after_shared_attempts(FREE, n), n)),
        exclusive_admitted(after_shared_releases(after_shared_attempts(FREE, n), n)),
{
    lemma_shared_up_to_ceiling(n);
    lemma_shared_releases(n, n);
}

/// One event in the life of a cell.
pub enum Step {
    /// A shared borrow is requested.
    TakeShared,
    /// A shared borrow is given back.
    GiveShared,
    /// The exclusive borrow is requested.
    TakeExclusive,
    /// The exclusive borrow is given back.
    GiveExclusive,
}

/// The guards that exist at some moment, counted apart from the counter.
pub struct Outstanding {
    /// The number of shared guards.
    pub shared: nat,
    /// The number of exclusive guards.
    pub exclusive: nat,
}

/// The counter after one event.
pub open spec fn after_step(raw: u16, step: Step) -> u16 {
    match step {
        Step::TakeShared => after_shared_attempt(raw),
        Step::GiveShared => after_shared_release(raw),
        Step::TakeExclusive => after_exclusive_attempt(raw),
        Step::GiveExclusive => after_exclusive_release(raw),
    }
}

/// The counter of a cell that started free and went through `steps`.
pub open spec fn counter_after(steps: Seq<Step>) -> u16
    decreases steps.len(),
{
    if steps.len() == 0 {
        FREE
    } else {
        after_step(counter_after(steps.drop_last()), steps.last())
    }
}

/// The guards that exist after `steps`, when every request in them was
/// admitted: a request makes a guard, a release ends one.
pub open spec fn guards_after(steps: Seq<Step>) -> Outstanding
    decreases steps.len(),
{
    if steps.len() == 0 {
        Outstanding { shared: 0, exclusive: 0 }
    } else {
        let before = guards_after(steps.drop_last());
        match steps.last() {
            Step::TakeShared => Outstanding { shared: before.shared + 1, ..before },
            Step::GiveShared => Outstanding { shared: (before.shared - 1) as nat, ..before },
            Step::TakeExclusive => Outstanding { exclusive: before.exclusive + 1, ..before },
            Step::GiveExclusive => Outstanding {
                exclusive: (before.exclusive - 1) as nat,
                ..before
            },
        }
    }
}

/// A history in which the process went on: every request was admitted by the
/// counter it met, and every release gave back a borrow whose guard existed.
pub open spec fn well_behaved(steps: Seq<Step>) -> bool
    decreases steps.len(),
{
    steps.len() == 0 || {
        let before = steps.drop_last();
        &&& well_behaved(before)
        &&& match steps.last() {
            Step::TakeShared => shared_admitted(counter_after(before)),
            Step::TakeExclusive => exclusive_admitted(counter_after(before)),
            Step::GiveShared => guards_after(before).shared > 0,
            Step::GiveExclusive => guards_after(before).exclusive > 0,
        }
    }
}

/// The borrow configuration that a set of guards amounts to.
pub open spec fn borrows_held(guards: Outstanding) -> Borrows {
    if guards.exclusive > 0 {
        Borrows::Exclusive
    } else if guards.shared > 0 {
        Borrows::Shared(guards.shared)
    } else {
        Borrows::Free
    }
}

/// Through every history in which the process went on, the counter stands for
/// exactly the guards that exist: there is at most one exclusive guard, none
/// beside a shared one, and no more shared guards than the ceiling.
pub proof fn lemma_counter_tracks_guards(steps: Seq<Step>)
    requires
        well_behaved(steps),
    ensures
        guards_after(steps).exclusive <= 1,
        guards_after(steps).exclusive == 1 ==> guards_after(steps).shared == 0,
        guards_after(steps).shared <= SHARED_CEILING,
        borrows_of(counter_after(steps)) == borrows_held(guards_after(steps)),
    decreases steps.len(),
{
    if steps.len() > 0 {
        lemma_counter_tracks_guards(steps.drop_last());
    }
}

/// While a guard of any kind exists, an exclusive request is refused; while
/// the exclusive guard exists, a shared request is refused.
pub proof fn lemma_conflict_with_guards_refused(steps: Seq<Step>)
    requires
        well_behaved(steps),
    ensures
        guards_after(steps).shared > 0 ==> !exclusive_admitted(counter_after(steps)),
        guards_after(steps).exclusive > 0 ==> !exclusive_admitted(counter_after(steps)),
        guards_after(steps).exclusive > 0 ==> !shared_admitted(counter_after(steps)),
{
    lemma_counter_tracks_guards(steps);
}

/// Once every guard is gone, whatever the history, the cell is free and a
/// request of either kind is admitted.
pub proof fn lemma_free_once_all_released(steps: Seq<Step>)
    requires
        well_behaved(steps),
        guards_after(steps).shared == 0,
        guards_after(steps).exclusive == 0,
    ensures
        counter_after(steps) == FREE,
        shared_admitted(counter_after(steps)),
        exclusive_admitted(counter_after(steps)),
{
    lemma_counter_tracks_guards(steps);
}

} // verus!
