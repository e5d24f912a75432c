//! Taking the runtime's lock, and the registry of releases that wait for it.

use crate::ptr::NonNull;
use crate::python::Python;
use vstd::prelude::*;

verus! {

/// The registry of owed releases.
///
/// A handle that is given up while nobody holds the lock cannot release its
/// unit, so the object's address is written down here. The list keeps one
/// entry for each unit owed, in the order in which they came, and is emptied
/// as a whole by whoever takes or gives back the lock.
pub struct ReleasePool {
    pointers: Vec<usize>,
}

impl View for ReleasePool {
    type V = Seq<usize>;

    closed spec fn view(&self) -> Seq<usize> {
        self.pointers@
    }
}

impl ReleasePool {
    /// A registry to which nothing is owed.
    pub fn new() -> (pool: ReleasePool)
        ensures
            pool@ == Seq::<usize>::empty(),
    {
        ReleasePool { pointers: Vec::new() }
    }

    /// Writes down that one unit on the object at `ptr` is owed. An address
    /// that is already there gets a second entry: two units are owed then.
    pub fn register_pointer(&mut self, ptr: NonNull)
        ensures
            final(self)@ == old(self)@.push(ptr@),
    {
        self.pointers.push(ptr.as_ptr());
    }

    /// How many releases are owed.
    pub fn len(&self) -> (n: usize)
        ensures
            n == self@.len(),
    {
        self.pointers.len()
    }

    /// Hands the whole list over, oldest entry first, and leaves the
    /// registry empty.
    pub fn drain(&mut self) -> (owed: Vec<usize>)
        ensures
            owed@ == old(self)@,
            final(self)@ == Seq::<usize>::empty(),
    {
        let mut owed: Vec<usize> = Vec::new();
        std::mem::swap(&mut self.pointers, &mut owed);
        owed
    }
}

/// Holds the runtime's lock from the moment it was taken until it is handed
/// back to the runtime.
pub struct GILGuard {
    _private: (),
}

impl GILGuard {
    pub(crate) fn new() -> GILGuard {
        GILGuard { _private: () }
    }

    /// The token for the time that this guard lives.
    pub fn python<'p>(&'p self) -> Python<'p> {
        Python::assume_gil_acquired()
    }
}

} // verus!
