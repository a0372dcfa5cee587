//! Guards: a view of the borrowed value together with the obligation to give
//! the borrow back. A guard has no teardown of its own: the obligation it holds
//! releases the counter when the guard goes away, and narrowing moves the
//! obligation into the new guard untouched.

use crate::counter::ExclusiveBorrow;
use crate::counter::SharedBorrow;
use vstd::prelude::*;

verus! {

/// A read-only view that holds one shared borrow.
pub struct RwCellGuard<'a, T: ?Sized> {
    value: &'a T,
    borrow: SharedBorrow<'a>,
}

/// A read-write view that holds the exclusive borrow.
pub struct RwCellGuardMut<'a, T: ?Sized> {
    value: &'a mut T,
    borrow: ExclusiveBorrow<'a>,
}

impl<'a, T: ?Sized> RwCellGuard<'a, T> {
    /// The value that the guard shows.
    pub closed spec fn view(&self) -> &T {
        self.value
    }

    /// The shared borrow that the guard is to give back.
    pub closed spec fn obligation(&self) -> SharedBorrow<'a> {
        self.borrow
    }

    /// Binds an admitted shared borrow to the value it stands for.
    pub fn new(borrow: SharedBorrow<'a>, value: &'a T) -> (guard: Self)
        ensures
            guard@ == value,
            guard.obligation() == borrow,
    {
        RwCellGuard { value, borrow }
    }

    /// Narrows the guard to a part of its value. The borrow is neither given
    /// back nor taken again: the new guard holds the same obligation.
    pub fn map<U: ?Sized, F>(orig: Self, f: F) -> (guard: RwCellGuard<'a, U>)
        where F: FnOnce(&T) -> &U
        requires
            f.requires((orig@,)),
        ensures
            f.ensures((orig@,), guard@),
            guard.obligation() == orig.obligation(),
    {
        RwCellGuard { value: f(orig.value), borrow: orig.borrow }
    }
}

impl<'a, T: ?Sized> RwCellGuardMut<'a, T> {
    /// The value that the guard shows now.
    pub closed spec fn view(&self) -> &T {
        &*self.value
    }

    /// The reference through which the guard reads and writes. Its final value
    /// is what the guard leaves behind when it goes away.
    pub closed spec fn target(&self) -> &'a mut T {
        self.value
    }

    /// The exclusive borrow that the guard is to give back.
    pub closed spec fn obligation(&self) -> ExclusiveBorrow<'a> {
        self.borrow
    }

    /// A guard that is written through no more leaves behind the value that it
    /// shows.
    pub proof fn lemma_settled(self)
        requires
            has_resolved(self),
        ensures
            self@ == &*final(self.target()),
    {
    }

    /// Binds the admitted exclusive borrow to the value it stands for. What
    /// the guard leaves behind is what the caller finds in the value after it.
    pub fn new(borrow: ExclusiveBorrow<'a>, value: &'a mut T) -> (guard: Self)
        ensures
            guard@ == &*old(value),
            &*final(guard.target()) == &*final(value),
            guard.obligation() == borrow,
    {
        RwCellGuardMut { value, borrow }
    }

    /// Narrows the guard to a part of its value. The borrow is neither given
    /// back nor taken again: the new guard holds the same obligation. The
    /// projection is called once, on the whole value; the new guard shows the
    /// part that it returned, and what is written to the part is written to
    /// the whole.
    pub fn map<U: ?Sized, F>(orig: Self, f: F) -> (guard: RwCellGuardMut<'a, U>)
        where F: FnOnce(&mut T) -> &mut U
        requires
            forall|whole: &mut T| &*whole == orig@ ==> #[trigger] f.requires((whole,)),
        ensures
            exists|whole: &mut T, part: &mut U|
                {
                    &&& #[trigger] f.ensures((whole,), part)
                    &&& &*whole == orig@
                    &&& &*final(whole) == &*final(orig.target())
                    &&& &*part == guard@
                    &&& &*final(part) == &*final(guard.target())
                },
            guard.obligation() == orig.obligation(),
    {
        let RwCellGuardMut { value, borrow } = orig;
        RwCellGuardMut { value: f(value), borrow }
    }
}

impl<'a, T: ?Sized> core::ops::Deref for RwCellGuard<'a, T> {
    type Target = T;

    /// The value under the guard.
    fn deref(&self) -> (value: &T)
        ensures
            value == self@,
    {
        self.value
    }
}

impl<'a, T: ?Sized> core::ops::Deref for RwCellGuardMut<'a, T> {
    type Target = T;

    /// The value under the guard, for reading.
    fn deref(&self) -> (value: &T)
        ensures
            value == self@,
    {
        &*self.value
    }
}

impl<'a, T: ?Sized> core::ops::DerefMut for RwCellGuardMut<'a, T> {
    /// The value under the guard, for writing. What the caller leaves behind
    /// the returned reference is what the guard shows afterwards; the
    /// obligation stays with the guard.
    fn deref_mut(&mut self) -> (value: &mut T)
        ensures
            &*value == old(self)@,
            final(self)@ == &*final(value),
            &*final(final(self).target()) == &*final(old(self).target()),
            final(self).obligation() == old(self).obligation(),
    {
        &mut *self.value
    }
}

} // verus!
