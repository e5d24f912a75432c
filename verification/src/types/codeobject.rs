//! The runtime's code objects.

use crate::instance::{PyNativeType, PyRef, PyRefMut};
use crate::typeob::PyTypeInfo;
use vstd::prelude::*;

verus! {

/// The tag of the runtime's code objects.
pub const CODE_TYPE_ID: u64 = 1;

/// The bytes that a code object takes.
pub const CODE_SIZE: usize = 176;

/// An object of the runtime itself, not to be made from outside.
#[derive(Debug)]
pub struct PyAny {
    _private: (),
}

/// Marks a compiled piece of the runtime's own language. The runtime lays
/// such an object out itself, so its payload is the object.
#[derive(Debug)]
pub struct PyCodeObject(PyAny);

impl PyTypeInfo for PyCodeObject {
    const TYPE_ID: u64 = CODE_TYPE_ID;

    const EMBEDDED: bool = true;

    const OFFSET: usize = 0;

    const SIZE: usize = CODE_SIZE;
}

impl<'p> PyNativeType for PyRef<'p, PyCodeObject> {
}

impl<'p> PyNativeType for PyRefMut<'p, PyCodeObject> {
}

} // verus!
