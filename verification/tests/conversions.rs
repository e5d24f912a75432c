use pyhandle::{
    AsPyRef, IntoPyPointer, NonNull, Py, PyCodeObject, PyErr, PyObject, PyRef, PyTypeInfo, ReleasePool,
    Runtime, ToPyPointer,
};

#[derive(Debug)]
struct Point;

impl PyTypeInfo for Point {
    const TYPE_ID: u64 = 60;
    const EMBEDDED: bool = false;
    const OFFSET: usize = 16;
    const SIZE: usize = 32;
}

#[test]
fn erase_and_extract_gives_the_same_object_back() {
    let mut rt = Runtime::new();
    let gil = rt.acquire_gil();
    let typed: Py<Point> = Py::new(gil.python(), &mut rt).unwrap();
    let ptr = typed.as_ptr();
    let before = rt.refcnt(ptr);

    let erased = PyObject::from(typed);
    assert_eq!(erased.as_ptr(), ptr);
    assert_eq!(rt.refcnt(ptr), before);

    let back: Py<Point> = Py::extract(gil.python(), &mut rt, &erased).unwrap();
    assert_eq!(back.as_ptr(), ptr);
    assert_eq!(rt.refcnt(ptr), before + 1);

    erased.release(&mut rt);
    assert_eq!(rt.refcnt(ptr), before);
    assert_eq!(rt.pending(), 0);
    back.release(&mut rt);
    assert_eq!(rt.refcnt(ptr), 0);
    rt.release_gil(gil);
}

#[test]
fn extract_as_another_type_is_a_mismatch_and_changes_nothing() {
    let mut rt = Runtime::new();
    let gil = rt.acquire_gil();
    let typed: Py<Point> = Py::new(gil.python(), &mut rt).unwrap();
    let ptr = typed.as_ptr();
    let erased = typed.into_object(gil.python());

    let r: Result<Py<PyCodeObject>, PyErr> = Py::extract(gil.python(), &mut rt, &erased);
    assert_eq!(r.unwrap_err(), PyErr::TypeMismatch { expected: 1, found: 60 });
    assert_eq!(rt.refcnt(ptr), 1);
    assert_eq!(rt.pending(), 0);
    assert_eq!(erased.get_refcnt(&rt), 1);

    let cast: Result<PyRef<PyCodeObject>, PyErr> = erased.cast_as(gil.python(), &rt);
    assert!(matches!(cast, Err(PyErr::TypeMismatch { expected: 1, found: 60 })));
    {
        let view: PyRef<Point> = erased.cast_as(gil.python(), &rt).unwrap();
        assert_eq!(view.addr(), ptr + 16);
        assert_eq!(view.as_ptr(), ptr);
    }
    assert_eq!(rt.refcnt(ptr), 1);

    erased.release(&mut rt);
    assert_eq!(rt.refcnt(ptr), 0);
    rt.release_gil(gil);
}

#[test]
fn a_view_is_promoted_by_one_unit() {
    let mut rt = Runtime::new();
    let gil = rt.acquire_gil();
    let mut typed: Py<Point> = Py::new(gil.python(), &mut rt).unwrap();
    let ptr = typed.as_ptr();
    let erased = typed.to_object(gil.python(), &mut rt);
    assert_eq!(rt.refcnt(ptr), 2);

    let from_view: Py<Point> = {
        let view: PyRef<Point> = erased.cast_as(gil.python(), &rt).unwrap();
        assert_eq!(view.as_ptr(), ptr);
        Py::from_ref(gil.python(), &mut rt, &view)
    };
    assert_eq!(rt.refcnt(ptr), 3);
    let from_mut: Py<Point> = {
        let view = typed.as_mut(gil.python());
        Py::from_mut(gil.python(), &mut rt, &view)
    };
    assert_eq!(rt.refcnt(ptr), 4);
    let again = erased.clone_ref(gil.python(), &mut rt);
    assert_eq!(again.get_refcnt(&rt), 5);
    let raw = again.into_ptr();
    let taken = PyObject::from_owned_ptr(gil.python(), &rt, raw);
    assert!(taken == erased);
    assert_eq!(rt.refcnt(ptr), 5);
    let sixth = PyObject::from_ref(gil.python(), &mut rt, &from_view);
    assert_eq!(rt.refcnt(ptr), 6);

    sixth.release(&mut rt);
    taken.release(&mut rt);
    from_mut.release(&mut rt);
    from_view.release(&mut rt);
    erased.release(&mut rt);
    assert_eq!(rt.refcnt(ptr), 1);
    typed.release(&mut rt);
    assert_eq!(rt.refcnt(ptr), 0);
    rt.release_gil(gil);
}

#[test]
fn registry_keeps_one_entry_for_each_unit_owed() {
    let mut pool = ReleasePool::new();
    assert_eq!(pool.len(), 0);
    pool.register_pointer(NonNull::new(4096).unwrap());
    pool.register_pointer(NonNull::new(8192).unwrap());
    pool.register_pointer(NonNull::new(4096).unwrap());
    assert_eq!(pool.len(), 3);
    assert_eq!(pool.drain(), vec![4096, 8192, 4096]);
    assert_eq!(pool.len(), 0);
    assert_eq!(pool.drain(), Vec::<usize>::new());
}

#[test]
fn two_units_owed_on_one_object_are_both_released() {
    let mut rt = Runtime::new();
    let gil = rt.acquire_gil();
    let a: Py<Point> = Py::new(gil.python(), &mut rt).unwrap();
    let b = a.clone_ref(gil.python(), &mut rt);
    let c = a.clone_ref(gil.python(), &mut rt);
    let other: Py<Point> = Py::new(gil.python(), &mut rt).unwrap();
    rt.release_gil(gil);
    let ptr = a.as_ptr();
    let other_ptr = other.as_ptr();

    b.release(&mut rt);
    other.release(&mut rt);
    c.release(&mut rt);
    assert_eq!(rt.pending(), 3);
    assert_eq!(rt.refcnt(ptr), 3);
    assert_eq!(rt.refcnt(other_ptr), 1);

    let gil = rt.acquire_gil();
    rt.drain_and_release(gil.python());
    assert_eq!(rt.refcnt(ptr), 1);
    assert_eq!(rt.refcnt(other_ptr), 0);
    assert_eq!(rt.pending(), 0);
    rt.release_gil(gil);
}

#[test]
fn a_bare_address_becomes_an_erased_handle_without_a_count_changing() {
    let mut rt = Runtime::new();
    let gil = rt.acquire_gil();
    let typed: Py<Point> = Py::new(gil.python(), &mut rt).unwrap();
    let ptr = typed.as_ptr();
    let erased = PyObject::from_not_null(typed.into_non_null());
    assert_eq!(erased.as_ptr(), ptr);
    assert_eq!(rt.refcnt(ptr), 1);
    let second = PyObject::from_borrowed_ptr(gil.python(), &mut rt, ptr);
    assert_eq!(rt.refcnt(ptr), 2);
    rt.give_up(NonNull::new(second.into_ptr()).unwrap());
    assert_eq!(rt.refcnt(ptr), 1);
    assert_eq!(rt.pending(), 0);
    rt.release_gil(gil);
    rt.give_up(NonNull::new(erased.into_ptr()).unwrap());
    assert_eq!(rt.refcnt(ptr), 1);
    assert_eq!(rt.pending(), 1);
}
