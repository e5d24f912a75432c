//! The owning handle, and the views that it lends out.

use crate::err::{ConstructionError, PyErr, PyResult};
use crate::object::PyObject;
use crate::ptr::NonNull;
use crate::python::{IntoPyPointer, Python, ToPyPointer};
use crate::runtime::Runtime;
use crate::state::{occurrences, RuntimeState};
use crate::typeob::{payload_at, payload_inside, payload_of, PyTypeInfo};
use std::marker::PhantomData;
use vstd::pervasive::unreached;
use vstd::prelude::*;
use vstd::std_specs::cmp::PartialEqSpecImpl;
use vstd::std_specs::convert::FromSpec;

verus! {

/// An owning handle to a foreign object that is taken to be a `T`.
///
/// A handle stands for exactly one unit of the object's reference count that
/// has not been released yet. It is made by taking over a unit that exists
/// ([`Py::from_owned_ptr`]) or by adding one ([`Py::from_borrowed_ptr`]), and
/// it ends by giving the unit up ([`Py::release`]) or by handing it on as a
/// bare address ([`IntoPyPointer::into_ptr`]). It is never copied: a second
/// handle to the same object comes from [`Py::clone_ref`], which adds a unit.
///
/// The handle's view is the object's address, which is never null.
#[derive(Debug)]
pub struct Py<T> {
    ptr: NonNull,
    marker: PhantomData<T>,
}

impl<T> View for Py<T> {
    type V = usize;

    open spec fn view(&self) -> usize {
        self.non_null()@
    }
}

impl<T> Py<T> {
    /// Two handles that name the same object are the same handle.
    pub proof fn lemma_view_injective(a: Py<T>, b: Py<T>)
        requires
            a@ == b@,
        ensures
            a == b,
    {
        NonNull::lemma_view_injective(a.ptr, b.ptr);
    }

    /// The object's address, as the handle holds it.
    pub closed spec fn non_null(&self) -> NonNull {
        self.ptr
    }

    /// Takes over the unit that the caller holds on the object at `ptr`.
    /// The runtime is only looked at: no count changes.
    pub fn from_owned_ptr(rt: &Runtime, ptr: usize) -> (ob: Py<T>)
        requires
            ptr != 0,
            rt@.is_alive(ptr),
        ensures
            ob@ == ptr,
    {
        match NonNull::new(ptr) {
            Some(nonnull_ptr) => Py { ptr: nonnull_ptr, marker: PhantomData },
            None => unreached(),
        }
    }

    /// Takes over the unit that the caller holds on the object at `ptr`,
    /// which a foreign call has just handed out and which is known not to
    /// be null.
    pub fn from_owned_ptr_or_panic(ptr: usize) -> (ob: Py<T>)
        requires
            ptr != 0,
        ensures
            ob@ == ptr,
    {
        match NonNull::new(ptr) {
            Some(nonnull_ptr) => Py { ptr: nonnull_ptr, marker: PhantomData },
            None => unreached(),
        }
    }

    /// Takes over the unit that a foreign call has just handed out at `ptr`.
    /// Where the call handed out the null address instead, the error that
    /// it raised is fetched from the runtime and returned.
    pub fn from_owned_ptr_or_err(py: Python, rt: &mut Runtime, ptr: usize) -> (r: PyResult<Py<T>>)
        requires
            old(rt)@.gil_held,
        ensures
            ptr != 0 ==> (r matches Ok(ob) && ob@ == ptr) && final(rt)@ == old(rt)@,
            ptr == 0 ==> r == Err::<Py<T>, PyErr>(
                PyErr::NullIdentifier { raised: old(rt)@.raised },
            ) && final(rt)@ == old(rt)@.fetched(),
    {
        match NonNull::new(ptr) {
            Some(nonnull_ptr) => Ok(Py { ptr: nonnull_ptr, marker: PhantomData }),
            None => Err(PyErr::fetch(py, rt)),
        }
    }

    /// Adds a unit to the living object at `ptr` and owns that unit. The
    /// caller keeps whatever it held before.
    pub fn from_borrowed_ptr(py: Python, rt: &mut Runtime, ptr: usize) -> (ob: Py<T>)
        requires
            old(rt)@.wf(),
            old(rt)@.gil_held,
            old(rt)@.is_alive(ptr),
            old(rt)@.refcnt(ptr) < isize::MAX,
        ensures
            ob@ == ptr,
            final(rt)@ == old(rt)@.incref(ptr),
            final(rt)@.wf(),
    {
        rt.incref(py, ptr);
        match NonNull::new(ptr) {
            Some(nonnull_ptr) => Py { ptr: nonnull_ptr, marker: PhantomData },
            None => unreached(),
        }
    }

    /// The object's reference count as it stands. Only looks.
    pub fn get_refcnt(&self, rt: &Runtime) -> (count: isize)
        ensures
            count == rt@.refcnt(self@),
    {
        rt.refcnt(self.ptr.as_ptr())
    }

    /// A second handle to the same object, with a unit of its own.
    pub fn clone_ref(&self, py: Python, rt: &mut Runtime) -> (ob: Py<T>)
        requires
            old(rt)@.wf(),
            old(rt)@.gil_held,
            old(rt)@.is_alive(self@),
            old(rt)@.refcnt(self@) < isize::MAX,
        ensures
            ob@ == self@,
            final(rt)@ == old(rt)@.incref(self@),
            final(rt)@.wf(),
    {
        Py::from_borrowed_ptr(py, rt, self.ptr.as_ptr())
    }

    /// Ends the handle without releasing: the unit goes to the caller,
    /// together with the address.
    pub fn into_non_null(self) -> (ptr: NonNull)
        ensures
            ptr == self.non_null(),
            ptr@ == self@,
    {
        self.ptr
    }

    /// Ends the handle and gives its unit up. Where the lock is held the
    /// count goes down at once; where it is not, the count stays and the
    /// release is owed until the lock is next taken or given back.
    pub fn release(self, rt: &mut Runtime)
        requires
            old(rt)@.wf(),
            old(rt)@.held_units(self@) > 0,
        ensures
            final(rt)@ == old(rt)@.give_up(self@),
            final(rt)@.wf(),
    {
        rt.give_up(self.ptr);
    }
}

/// A view of the payload of a foreign object as a `T`, for reading.
///
/// A view owns no unit. It is made from a handle and a token, and lives no
/// longer than either.
pub struct PyRef<'p, T> {
    ptr: usize,
    addr: usize,
    py: Python<'p>,
    marker: PhantomData<&'p T>,
}

/// A view of the payload of a foreign object as a `T`, for reading and
/// writing. While it lives, the handle that it came from lends out nothing
/// else.
pub struct PyRefMut<'p, T> {
    ptr: usize,
    addr: usize,
    py: Python<'p>,
    marker: PhantomData<&'p mut T>,
}

impl<'p, T: PyTypeInfo> PyRef<'p, T> {
    /// The view of the object at `ptr` as a `T`.
    pub(crate) fn new(py: Python<'p>, ptr: usize) -> (view: PyRef<'p, T>)
        requires
            payload_of::<T>(ptr) <= usize::MAX,
        ensures
            view.ptr_spec() == ptr,
            view.addr_spec() == payload_of::<T>(ptr),
    {
        PyRef { ptr, addr: payload_at::<T>(ptr), py, marker: PhantomData }
    }
}

impl<'p, T: PyTypeInfo> PyRefMut<'p, T> {
    /// The view of the object at `ptr` as a `T`.
    pub(crate) fn new(py: Python<'p>, ptr: usize) -> (view: PyRefMut<'p, T>)
        requires
            payload_of::<T>(ptr) <= usize::MAX,
        ensures
            view.ptr_spec() == ptr,
            view.addr_spec() == payload_of::<T>(ptr),
    {
        PyRefMut { ptr, addr: payload_at::<T>(ptr), py, marker: PhantomData }
    }
}

impl<'p, T> PyRef<'p, T> {
    /// The address of the payload.
    pub closed spec fn addr_spec(&self) -> usize {
        self.addr
    }

    /// The address of the payload.
    pub fn addr(&self) -> (addr: usize)
        ensures
            addr == self.addr_spec(),
    {
        self.addr
    }
}

impl<'p, T> PyRefMut<'p, T> {
    /// The address of the payload.
    pub closed spec fn addr_spec(&self) -> usize {
        self.addr
    }

    /// The address of the payload.
    pub fn addr(&self) -> (addr: usize)
        ensures
            addr == self.addr_spec(),
    {
        self.addr
    }
}

impl<'p, T> ToPyPointer for PyRef<'p, T> {
    closed spec fn ptr_spec(&self) -> usize {
        self.ptr
    }

    fn as_ptr(&self) -> (ptr: usize) {
        self.ptr
    }
}

impl<'p, T> ToPyPointer for PyRefMut<'p, T> {
    closed spec fn ptr_spec(&self) -> usize {
        self.ptr
    }

    fn as_ptr(&self) -> (ptr: usize) {
        self.ptr
    }
}

impl<T> ToPyPointer for Py<T> {
    open spec fn ptr_spec(&self) -> usize {
        self@
    }

    fn as_ptr(&self) -> (ptr: usize)
        ensures
            ptr != 0,
    {
        self.ptr.as_ptr()
    }
}

impl<T> IntoPyPointer for Py<T> {
    open spec fn owned_ptr(&self) -> usize {
        self@
    }

    fn into_ptr(self) -> (ptr: usize)
        ensures
            ptr != 0,
    {
        self.ptr.as_ptr()
    }
}

/// Finds the payload of a `T` from the address that `self` names, by the
/// layout that `T` declares.
trait AsPyRefDispatch<T: PyTypeInfo>: ToPyPointer + Sized {
    fn as_ref_dispatch<'p>(&'p self, py: Python<'p>) -> (view: PyRef<'p, T>)
        requires
            payload_of::<T>(self.ptr_spec()) <= usize::MAX,
        ensures
            view.ptr_spec() == self.ptr_spec(),
            view.addr_spec() == payload_of::<T>(self.ptr_spec()),
    {
        PyRef::new(py, self.as_ptr())
    }

    fn as_mut_dispatch<'p>(&'p mut self, py: Python<'p>) -> (view: PyRefMut<'p, T>)
        requires
            payload_of::<T>(old(self).ptr_spec()) <= usize::MAX,
        ensures
            view.ptr_spec() == old(self).ptr_spec(),
            view.addr_spec() == payload_of::<T>(old(self).ptr_spec()),
            *final(self) == *old(self),
    {
        PyRefMut::new(py, self.as_ptr())
    }
}

impl<T: PyTypeInfo> AsPyRefDispatch<T> for Py<T> {
}

impl<T> Py<T> {
    /// An erased handle to the same object, with a unit of its own.
    pub fn to_object(&self, py: Python, rt: &mut Runtime) -> (ob: PyObject)
        requires
            old(rt)@.wf(),
            old(rt)@.gil_held,
            old(rt)@.is_alive(self@),
            old(rt)@.refcnt(self@) < isize::MAX,
        ensures
            ob@ == self@,
            final(rt)@ == old(rt)@.incref(self@),
            final(rt)@.wf(),
    {
        PyObject::from_borrowed_ptr(py, rt, self.as_ptr())
    }

    /// Ends the handle and carries its unit on in an erased handle: no
    /// count changes.
    pub fn into_object(self, py: Python) -> (ob: PyObject)
        ensures
            ob == PyObject::from_spec(self),
            ob@ == self@,
    {
        PyObject::from_not_null(self.into_non_null())
    }

    /// A handle with a unit of its own to the object that `view` shows.
    pub fn from_ref(py: Python, rt: &mut Runtime, view: &PyRef<T>) -> (ob: Py<T>)
        requires
            old(rt)@.wf(),
            old(rt)@.gil_held,
            old(rt)@.is_alive(view.ptr_spec()),
            old(rt)@.refcnt(view.ptr_spec()) < isize::MAX,
        ensures
            ob@ == view.ptr_spec(),
            final(rt)@ == old(rt)@.incref(view.ptr_spec()),
            final(rt)@.wf(),
    {
        Py::from_borrowed_ptr(py, rt, view.as_ptr())
    }

    /// A handle with a unit of its own to the object that `view` shows.
    pub fn from_mut(py: Python, rt: &mut Runtime, view: &PyRefMut<T>) -> (ob: Py<T>)
        requires
            old(rt)@.wf(),
            old(rt)@.gil_held,
            old(rt)@.is_alive(view.ptr_spec()),
            old(rt)@.refcnt(view.ptr_spec()) < isize::MAX,
        ensures
            ob@ == view.ptr_spec(),
            final(rt)@ == old(rt)@.incref(view.ptr_spec()),
            final(rt)@.wf(),
    {
        Py::from_borrowed_ptr(py, rt, view.as_ptr())
    }
}

/// What an extraction of a `T` from the object at `ob` comes to: on an
/// instance of `T`, a typed handle to the same object and one unit more; on
/// anything else, the mismatch and a runtime that is as it was.
pub open spec fn extracted<T: PyTypeInfo>(
    before: RuntimeState,
    ob: usize,
    r: PyResult<Py<T>>,
    after: RuntimeState,
) -> bool {
    match r {
        Ok(typed) => before.is_instance(ob, T::TYPE_ID) && typed@ == ob && after
            == before.incref(ob),
        Err(e) => !before.is_instance(ob, T::TYPE_ID) && e == (PyErr::TypeMismatch {
            expected: T::TYPE_ID,
            found: before.objects[ob].type_id,
        }) && after == before,
    }
}

impl<T: PyTypeInfo> Py<T> {
    /// A typed handle with a unit of its own to the object that `ob` names,
    /// if that object is a `T`. Where it is not, nothing has changed: `ob`
    /// holds its unit as before.
    pub fn extract(py: Python, rt: &mut Runtime, ob: &PyObject) -> (r: PyResult<Py<T>>)
        requires
            old(rt)@.wf(),
            old(rt)@.gil_held,
            old(rt)@.is_alive(ob@),
            old(rt)@.is_instance(ob@, T::TYPE_ID) ==> old(rt)@.refcnt(ob@) < isize::MAX
                && payload_of::<T>(ob@) <= usize::MAX,
        ensures
            final(rt)@.wf(),
            extracted::<T>(old(rt)@, ob@, r, final(rt)@),
    {
        match ob.cast_as::<T>(py, rt) {
            Ok(val) => {
                let ptr: usize = val.as_ptr();
                Ok(Py::from_borrowed_ptr(py, rt, ptr))
            },
            Err(e) => Err(e),
        }
    }
}

impl<T: PyTypeInfo> Py<T> {
    /// Has the runtime make a new instance of `T` and owns the unit that it
    /// comes with. What the runtime answers where it cannot make the object
    /// is handed on as it is.
    pub fn new(py: Python, rt: &mut Runtime) -> (r: PyResult<Py<T>>)
        requires
            old(rt)@.wf(),
            old(rt)@.gil_held,
        ensures
            final(rt)@.wf(),
            match r {
                Ok(ob) => old(rt)@.can_create(T::SIZE) && ob@ == old(rt)@.next_free
                    && final(rt)@ == old(rt)@.created(T::TYPE_ID, T::SIZE),
                Err(e) => !old(rt)@.can_create(T::SIZE) && e == PyErr::Construction(
                    ConstructionError::OutOfMemory,
                ) && final(rt)@ == old(rt)@,
            },
    {
        match rt.create(py, T::TYPE_ID, T::SIZE) {
            Ok(ptr) => Ok(Py::from_owned_ptr(rt, ptr)),
            Err(e) => Err(PyErr::Construction(e)),
        }
    }

    /// Has the runtime make a new instance of `T` and lends it out for
    /// reading. The unit that the object comes with belongs to the token's
    /// scope: its release is owed, and is carried out when the lock is given
    /// back.
    pub fn new_ref<'p>(py: Python<'p>, rt: &mut Runtime) -> (r: PyResult<PyRef<'p, T>>)
        requires
            old(rt)@.wf(),
            old(rt)@.gil_held,
            payload_inside::<T>(),
        ensures
            final(rt)@.wf(),
            match r {
                Ok(view) => old(rt)@.can_create(T::SIZE) && view.ptr_spec() == old(rt)@.next_free
                    && view.addr_spec() == payload_of::<T>(old(rt)@.next_free) && final(rt)@
                    == old(rt)@.created(T::TYPE_ID, T::SIZE).enqueue(old(rt)@.next_free),
                Err(e) => !old(rt)@.can_create(T::SIZE) && e == PyErr::Construction(
                    ConstructionError::OutOfMemory,
                ) && final(rt)@ == old(rt)@,
            },
    {
        match rt.create(py, T::TYPE_ID, T::SIZE) {
            Ok(ptr) => {
                let ob: Py<T> = Py::from_owned_ptr(rt, ptr);
                proof {
                    assert(occurrences(old(rt)@.pending, ptr) <= old(rt)@.refcnt(ptr));
                }
                rt.register_pointer(ob.into_non_null());
                Ok(PyRef::new(py, ptr))
            },
            Err(e) => Err(PyErr::Construction(e)),
        }
    }

    /// Has the runtime make a new instance of `T` and lends it out for
    /// reading and writing. The unit that the object comes with belongs to
    /// the token's scope: its release is owed, and is carried out when the
    /// lock is given back.
    pub fn new_mut<'p>(py: Python<'p>, rt: &mut Runtime) -> (r: PyResult<PyRefMut<'p, T>>)
        requires
            old(rt)@.wf(),
            old(rt)@.gil_held,
            payload_inside::<T>(),
        ensures
            final(rt)@.wf(),
            match r {
                Ok(view) => old(rt)@.can_create(T::SIZE) && view.ptr_spec() == old(rt)@.next_free
                    && view.addr_spec() == payload_of::<T>(old(rt)@.next_free) && final(rt)@
                    == old(rt)@.created(T::TYPE_ID, T::SIZE).enqueue(old(rt)@.next_free),
                Err(e) => !old(rt)@.can_create(T::SIZE) && e == PyErr::Construction(
                    ConstructionError::OutOfMemory,
                ) && final(rt)@ == old(rt)@,
            },
    {
        match rt.create(py, T::TYPE_ID, T::SIZE) {
            Ok(ptr) => {
                let ob: Py<T> = Py::from_owned_ptr(rt, ptr);
                proof {
                    assert(occurrences(old(rt)@.pending, ptr) <= old(rt)@.refcnt(ptr));
                }
                rt.register_pointer(ob.into_non_null());
                Ok(PyRefMut::new(py, ptr))
            },
            Err(e) => Err(PyErr::Construction(e)),
        }
    }
}

/// A value that exists only while the lock is held, and so can hand the
/// token out.
pub trait PyObjectWithGIL: Sized {
    fn py(&self) -> Python;
}

/// Marks the views whose payload is the runtime's own object.
pub trait PyNativeType: PyObjectWithGIL {
}

impl<'p, T> PyObjectWithGIL for PyRef<'p, T> {
    fn py(&self) -> Python {
        self.py
    }
}

impl<'p, T> PyObjectWithGIL for PyRefMut<'p, T> {
    fn py(&self) -> Python {
        self.py
    }
}

/// Lends out views of the payload of the object that `self` names.
pub trait AsPyRef<T>: Sized {
    /// The address of the object that `self` names.
    spec fn object(&self) -> usize;

    /// The address of the payload that the views refer to.
    spec fn payload(&self) -> int;

    /// A view for reading, which lives no longer than `self` and the token.
    fn as_ref<'p>(&'p self, py: Python<'p>) -> (view: PyRef<'p, T>)
        requires
            self.payload() <= usize::MAX,
        ensures
            view.ptr_spec() == self.object(),
            view.addr_spec() == self.payload(),
    ;

    /// A view for reading and writing, which lives no longer than `self`
    /// and the token.
    fn as_mut<'p>(&'p mut self, py: Python<'p>) -> (view: PyRefMut<'p, T>)
        requires
            old(self).payload() <= usize::MAX,
        ensures
            view.ptr_spec() == old(self).object(),
            view.addr_spec() == old(self).payload(),
            *final(self) == *old(self),
    ;

    /// Takes the lock, calls `f` with the token, the runtime and a view for
    /// reading, gives the lock back, and returns what `f` returned.
    fn with<F, R>(&self, rt: &mut Runtime, f: F) -> (r: R) where
        F: for <'p>FnOnce(Python<'p>, &'p Runtime, PyRef<'p, T>) -> R,

        requires
            old(rt)@.wf(),
            !old(rt)@.gil_held,
            self.payload() <= usize::MAX,
            forall|py: Python, locked: &Runtime, view: PyRef<T>|
                locked@ == old(rt)@.acquire() && view.ptr_spec() == self.object()
                    && view.addr_spec() == self.payload() ==> f.requires((py, locked, view)),
        ensures
            final(rt)@ == old(rt)@.acquire().release(),
            final(rt)@.wf(),
            exists|py: Python, locked: &Runtime, view: PyRef<T>|
                locked@ == old(rt)@.acquire() && view.ptr_spec() == self.object()
                    && view.addr_spec() == self.payload() && f.ensures((py, locked, view), r),
    {
        let gil = rt.acquire_gil();
        let py = gil.python();
        let result = f(py, &*rt, self.as_ref(py));
        rt.release_gil(gil);
        result
    }

    /// Takes the lock, calls `f` with the token, the runtime and a view for
    /// reading and writing, gives the lock back, and returns what `f`
    /// returned.
    fn with_mut<F, R>(&mut self, rt: &mut Runtime, f: F) -> (r: R) where
        F: for <'p>FnOnce(Python<'p>, &'p Runtime, PyRefMut<'p, T>) -> R,

        requires
            old(rt)@.wf(),
            !old(rt)@.gil_held,
            old(self).payload() <= usize::MAX,
            forall|py: Python, locked: &Runtime, view: PyRefMut<T>|
                locked@ == old(rt)@.acquire() && view.ptr_spec() == old(self).object()
                    && view.addr_spec() == old(self).payload() ==> f.requires(
                    (py, locked, view),
                ),
        ensures
            final(rt)@ == old(rt)@.acquire().release(),
            final(rt)@.wf(),
            *final(self) == *old(self),
            exists|py: Python, locked: &Runtime, view: PyRefMut<T>|
                locked@ == old(rt)@.acquire() && view.ptr_spec() == old(self).object()
                    && view.addr_spec() == old(self).payload() && f.ensures(
                    (py, locked, view),
                    r,
                ),
    {
        let gil = rt.acquire_gil();
        let py = gil.python();
        let result = f(py, &*rt, self.as_mut(py));
        rt.release_gil(gil);
        result
    }

    /// As [`AsPyRef::with`], and then ends `self`: its unit is released
    /// under the lock that is held anyway, never through the registry.
    fn into_py<F, R>(self, rt: &mut Runtime, f: F) -> (r: R) where
        Self: IntoPyPointer,
        F: for <'p>FnOnce(Python<'p>, &'p Runtime, PyRef<'p, T>) -> R,

        requires
            old(rt)@.wf(),
            !old(rt)@.gil_held,
            self.payload() <= usize::MAX,
            self.owned_ptr() != 0 ==> old(rt)@.held_units(self.owned_ptr()) > 0,
            forall|py: Python, locked: &Runtime, view: PyRef<T>|
                locked@ == old(rt)@.acquire() && view.ptr_spec() == self.object()
                    && view.addr_spec() == self.payload() ==> f.requires((py, locked, view)),
        ensures
            final(rt)@ == old(rt)@.acquire().xdecref(self.owned_ptr()).release(),
            final(rt)@.wf(),
            exists|py: Python, locked: &Runtime, view: PyRef<T>|
                locked@ == old(rt)@.acquire() && view.ptr_spec() == self.object()
                    && view.addr_spec() == self.payload() && f.ensures((py, locked, view), r),
    {
        let gil = rt.acquire_gil();
        let py = gil.python();
        let result = f(py, &*rt, self.as_ref(py));
        rt.xdecref(py, self);
        rt.release_gil(gil);
        result
    }

    /// As [`AsPyRef::with_mut`], and then ends `self`: its unit is released
    /// under the lock that is held anyway, never through the registry.
    fn into_mut_py<F, R>(self, rt: &mut Runtime, f: F) -> (r: R) where
        Self: IntoPyPointer,
        F: for <'p>FnOnce(Python<'p>, &'p Runtime, PyRefMut<'p, T>) -> R,

        requires
            old(rt)@.wf(),
            !old(rt)@.gil_held,
            self.payload() <= usize::MAX,
            self.owned_ptr() != 0 ==> old(rt)@.held_units(self.owned_ptr()) > 0,
            forall|py: Python, locked: &Runtime, view: PyRefMut<T>|
                locked@ == old(rt)@.acquire() && view.ptr_spec() == self.object()
                    && view.addr_spec() == self.payload() ==> f.requires((py, locked, view)),
        ensures
            final(rt)@ == old(rt)@.acquire().xdecref(self.owned_ptr()).release(),
            final(rt)@.wf(),
            exists|py: Python, locked: &Runtime, view: PyRefMut<T>|
                locked@ == old(rt)@.acquire() && view.ptr_spec() == self.object()
                    && view.addr_spec() == self.payload() && f.ensures((py, locked, view), r),
    {
        let mut ob = self;
        let gil = rt.acquire_gil();
        let py = gil.python();
        let result = f(py, &*rt, ob.as_mut(py));
        rt.xdecref(py, ob);
        rt.release_gil(gil);
        result
    }
}

impl<T: PyTypeInfo> AsPyRef<T> for Py<T> {
    open spec fn object(&self) -> usize {
        self@
    }

    open spec fn payload(&self) -> int {
        payload_of::<T>(self@)
    }

    fn as_ref<'p>(&'p self, py: Python<'p>) -> (view: PyRef<'p, T>) {
        self.as_ref_dispatch(py)
    }

    fn as_mut<'p>(&'p mut self, py: Python<'p>) -> (view: PyRefMut<'p, T>) {
        self.as_mut_dispatch(py)
    }
}

impl<T> PartialEqSpecImpl for Py<T> {
    open spec fn obeys_eq_spec() -> bool {
        true
    }

    /// Two handles are equal where they name the same object. What the
    /// objects hold is not looked at.
    open spec fn eq_spec(&self, other: &Py<T>) -> bool {
        self@ == other@
    }
}

impl<T> PartialEq for Py<T> {
    fn eq(&self, other: &Py<T>) -> (r: bool) {
        self.ptr.as_ptr() == other.ptr.as_ptr()
    }
}

} // verus!
