//! What can go wrong at the boundary to the foreign runtime.

use crate::python::Python;
use crate::runtime::Runtime;
use vstd::prelude::*;

verus! {

/// Why the runtime could not make a new object.
#[derive(Clone, Copy, Debug, PartialEq, Eq)]
pub enum ConstructionError {
    /// The object does not fit into what is left of the address space.
    OutOfMemory,
}

/// An error that a caller can recover from.
#[derive(Clone, Copy, Debug, PartialEq, Eq)]
pub enum PyErr {
    /// A foreign call that should have handed out an object handed out the
    /// null address. Carries what the runtime's error indicator held at that
    /// moment, if it held anything.
    NullIdentifier { raised: Option<u64> },
    /// An object was asked for as an instance of the type `expected`, and is
    /// an instance of the type `found`.
    TypeMismatch { expected: u64, found: u64 },
    /// The runtime could not make the object.
    Construction(ConstructionError),
}

impl PyErr {
    /// The error for a foreign call that handed out the null address: takes
    /// what the runtime's error indicator holds, and leaves it empty.
    pub fn fetch(py: Python, rt: &mut Runtime) -> (err: PyErr)
        requires
            old(rt)@.gil_held,
        ensures
            err == (PyErr::NullIdentifier { raised: old(rt)@.raised }),
            final(rt)@ == old(rt)@.fetched(),
    {
        PyErr::NullIdentifier { raised: rt.fetch(py) }
    }
}

pub type PyResult<T> = Result<T, PyErr>;

} // verus!
