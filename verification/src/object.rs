//! The owning handle that says nothing of the object's type.

use crate::err::{PyErr, PyResult};
use crate::instance::{Py, PyRef};
use crate::ptr::NonNull;
use crate::python::{IntoPyPointer, Python, ToPyPointer};
use crate::runtime::Runtime;
use crate::typeob::{payload_of, PyTypeInfo};
use vstd::pervasive::unreached;
use vstd::prelude::*;
use vstd::std_specs::cmp::PartialEqSpecImpl;
use vstd::std_specs::convert::FromSpecImpl;

verus! {

/// An owning handle to a foreign object of whatever type.
///
/// It stands for one unit of the object's reference count, as a [`Py`]
/// does, and a [`Py`] turns into it and back without a count changing. Its
/// view is the object's address.
#[derive(Debug)]
pub struct PyObject {
    ptr: NonNull,
}

impl View for PyObject {
    type V = usize;

    open spec fn view(&self) -> usize {
        self.non_null()@
    }
}

impl PyObject {
    /// The object's address, as the handle holds it.
    pub closed spec fn non_null(&self) -> NonNull {
        self.ptr
    }

    /// The handle to the object at `ptr` names that object.
    pub proof fn lemma_from_not_null(ptr: NonNull)
        ensures
            PyObject::spec_from_not_null(ptr).non_null() == ptr,
    {
    }

    /// The handle to the object at `ptr`.
    pub closed spec fn spec_from_not_null(ptr: NonNull) -> PyObject {
        PyObject { ptr }
    }

    /// Takes over the unit that the caller holds on the object at `ptr`.
    pub fn from_not_null(ptr: NonNull) -> (ob: PyObject)
        ensures
            ob == PyObject::spec_from_not_null(ptr),
            ob@ == ptr@,
    {
        PyObject { ptr }
    }

    /// Takes over the unit that the caller holds on the object at `ptr`.
    /// The runtime is only looked at: no count changes.
    pub fn from_owned_ptr(py: Python, rt: &Runtime, ptr: usize) -> (ob: PyObject)
        requires
            ptr != 0,
            rt@.is_alive(ptr),
        ensures
            ob@ == ptr,
    {
        match NonNull::new(ptr) {
            Some(nonnull_ptr) => PyObject { ptr: nonnull_ptr },
            None => unreached(),
        }
    }

    /// Adds a unit to the living object at `ptr` and owns that unit.
    pub fn from_borrowed_ptr(py: Python, rt: &mut Runtime, ptr: usize) -> (ob: PyObject)
        requires
            old(rt)@.wf(),
            old(rt)@.gil_held,
            old(rt)@.is_alive(ptr),
            old(rt)@.refcnt(ptr) < isize::MAX,
        ensures
            ob@ == ptr,
            final(rt)@ == old(rt)@.incref(ptr),
            final(rt)@.wf(),
    {
        rt.incref(py, ptr);
        match NonNull::new(ptr) {
            Some(nonnull_ptr) => PyObject { ptr: nonnull_ptr },
            None => unreached(),
        }
    }

    /// The object's reference count as it stands. Only looks.
    pub fn get_refcnt(&self, rt: &Runtime) -> (count: isize)
        ensures
            count == rt@.refcnt(self@),
    {
        rt.refcnt(self.ptr.as_ptr())
    }

    /// Ends the handle and gives its unit up. Where the lock is held the
    /// count goes down at once; where it is not, the count stays and the
    /// release is owed until the lock is next taken or given back.
    pub fn release(self, rt: &mut Runtime)
        requires
            old(rt)@.wf(),
            old(rt)@.held_units(self@) > 0,
        ensures
            final(rt)@ == old(rt)@.give_up(self@),
            final(rt)@.wf(),
    {
        rt.give_up(self.ptr);
    }
}

impl ToPyPointer for PyObject {
    open spec fn ptr_spec(&self) -> usize {
        self@
    }

    fn as_ptr(&self) -> (ptr: usize)
        ensures
            ptr != 0,
    {
        self.ptr.as_ptr()
    }
}

impl IntoPyPointer for PyObject {
    open spec fn owned_ptr(&self) -> usize {
        self@
    }

    fn into_ptr(self) -> (ptr: usize)
        ensures
            ptr != 0,
    {
        self.ptr.as_ptr()
    }
}

impl PyObject {
    /// Lends the object out as a `T`, for reading, if it is one. Only looks:
    /// no count changes either way.
    pub fn cast_as<'p, T: PyTypeInfo>(&'p self, py: Python<'p>, rt: &Runtime) -> (r: PyResult<
        PyRef<'p, T>,
    >)
        requires
            rt@.is_alive(self@),
            rt@.is_instance(self@, T::TYPE_ID) ==> payload_of::<T>(self@) <= usize::MAX,
        ensures
            match r {
                Ok(view) => rt@.is_instance(self@, T::TYPE_ID) && view.ptr_spec() == self@
                    && view.addr_spec() == payload_of::<T>(self@),
                Err(e) => !rt@.is_instance(self@, T::TYPE_ID) && e == (PyErr::TypeMismatch {
                    expected: T::TYPE_ID,
                    found: rt@.objects[self@].type_id,
                }),
            },
    {
        let ptr: usize = self.ptr.as_ptr();
        match rt.type_of(ptr) {
            Some(found) => {
                if found == T::TYPE_ID {
                    Ok(PyRef::new(py, ptr))
                } else {
                    Err(PyErr::TypeMismatch { expected: T::TYPE_ID, found })
                }
            },
            None => unreached(),
        }
    }

    /// A second handle to the same object, with a unit of its own.
    pub fn clone_ref(&self, py: Python, rt: &mut Runtime) -> (ob: PyObject)
        requires
            old(rt)@.wf(),
            old(rt)@.gil_held,
            old(rt)@.is_alive(self@),
            old(rt)@.refcnt(self@) < isize::MAX,
        ensures
            ob@ == self@,
            final(rt)@ == old(rt)@.incref(self@),
            final(rt)@.wf(),
    {
        PyObject::from_borrowed_ptr(py, rt, self.ptr.as_ptr())
    }

    /// A handle with a unit of its own to the object that `view` shows.
    pub fn from_ref<R: ToPyPointer>(py: Python, rt: &mut Runtime, view: &R) -> (ob: PyObject)
        requires
            old(rt)@.wf(),
            old(rt)@.gil_held,
            old(rt)@.is_alive(view.ptr_spec()),
            old(rt)@.refcnt(view.ptr_spec()) < isize::MAX,
        ensures
            ob@ == view.ptr_spec(),
            final(rt)@ == old(rt)@.incref(view.ptr_spec()),
            final(rt)@.wf(),
    {
        PyObject::from_borrowed_ptr(py, rt, view.as_ptr())
    }
}

impl<T> FromSpecImpl<Py<T>> for PyObject {
    open spec fn obeys_from_spec() -> bool {
        true
    }

    open spec fn from_spec(ob: Py<T>) -> PyObject {
        PyObject::spec_from_not_null(ob.non_null())
    }
}

impl<T> From<Py<T>> for PyObject {
    /// Ends the typed handle and carries its unit on: no count changes.
    fn from(ob: Py<T>) -> (erased: PyObject)
        ensures
            erased@ == ob@,
    {
        PyObject::from_not_null(ob.into_non_null())
    }
}

impl PartialEqSpecImpl for PyObject {
    open spec fn obeys_eq_spec() -> bool {
        true
    }

    /// Two handles are equal where they name the same object.
    open spec fn eq_spec(&self, other: &PyObject) -> bool {
        self@ == other@
    }
}

impl PartialEq for PyObject {
    fn eq(&self, other: &PyObject) -> (r: bool) {
        self.ptr.as_ptr() == other.ptr.as_ptr()
    }
}

} // verus!
