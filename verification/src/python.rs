//! The token that witnesses the runtime's lock, and what hands out addresses.

use std::marker::PhantomData;
use vstd::prelude::*;

verus! {

/// Witness that the runtime's lock is held.
///
/// A token cannot be made from nothing. It is lent out by the guard that
/// took the lock, and by a view that was itself made under a token, and it
/// cannot outlive either. Whatever touches a foreign object asks for one.
#[derive(Clone, Copy)]
pub struct Python<'p> {
    scope: PhantomData<&'p ()>,
}

impl<'p> Python<'p> {
    /// A token for a scope in which the lock is known to be held.
    pub(crate) fn assume_gil_acquired() -> Python<'p> {
        Python { scope: PhantomData }
    }
}

/// A value that names a foreign object and lends the address out.
pub trait ToPyPointer {
    /// The address of the object that `self` names.
    spec fn ptr_spec(&self) -> usize;

    /// The address, which stays owned by `self`.
    fn as_ptr(&self) -> (ptr: usize)
        ensures
            ptr == self.ptr_spec(),
    ;
}

/// A value that owns one unit of a foreign object's reference count and can
/// give it away as a bare address.
pub trait IntoPyPointer: Sized {
    /// The address of the object on which `self` owns a unit.
    spec fn owned_ptr(&self) -> usize;

    /// Gives the unit to the caller: nothing is released.
    fn into_ptr(self) -> (ptr: usize)
        ensures
            ptr == self.owned_ptr(),
    ;
}

} // verus!
