use pyhandle::{
    layout_of, payload_at, AsPyRef, LayoutStrategy, Py, PyCodeObject, PyObjectWithGIL, PyRef,
    PyRefMut, PyTypeInfo, Python, Runtime, ToPyPointer,
};

#[derive(Debug)]
struct Counter;

impl PyTypeInfo for Counter {
    const TYPE_ID: u64 = 50;
    const EMBEDDED: bool = false;
    const OFFSET: usize = 24;
    const SIZE: usize = 40;
}

#[test]
fn layout_is_what_the_type_declares() {
    assert_eq!(layout_of::<Counter>(), LayoutStrategy::Offset(24));
    assert_eq!(layout_of::<PyCodeObject>(), LayoutStrategy::Embedded);
    assert_eq!(payload_at::<Counter>(4096), 4120);
    assert_eq!(payload_at::<PyCodeObject>(4096), 4096);
    assert_eq!(payload_at::<Counter>(usize::MAX - 24), usize::MAX);
    assert_eq!(payload_at::<PyCodeObject>(usize::MAX), usize::MAX);
}

#[test]
fn view_of_created_type_lies_at_the_offset() {
    let mut rt = Runtime::new();
    let gil = rt.acquire_gil();
    let counter: Py<Counter> = Py::new(gil.python(), &mut rt).unwrap();
    let ptr = counter.as_ptr();
    {
        let view = counter.as_ref(gil.python());
        assert_eq!(view.addr(), ptr + 24);
        assert_eq!(view.as_ptr(), ptr);
    }
    rt.release_gil(gil);
    let seen = counter.with(&mut rt, |_py: Python, locked: &Runtime, view: PyRef<Counter>| {
        (view.addr(), view.as_ptr(), locked.refcnt(view.as_ptr()), locked.gil_is_held())
    });
    assert_eq!(seen, (ptr + 24, ptr, 1, true));
    assert!(!rt.gil_is_held());
    assert_eq!(rt.refcnt(ptr), 1);
}

#[test]
fn view_of_native_type_is_the_object() {
    let mut rt = Runtime::new();
    let gil = rt.acquire_gil();
    let mut code: Py<PyCodeObject> = Py::new(gil.python(), &mut rt).unwrap();
    let ptr = code.as_ptr();
    assert_eq!(code.as_ref(gil.python()).addr(), ptr);
    {
        let view = code.as_mut(gil.python());
        assert_eq!(view.addr(), ptr);
        assert_eq!(view.as_ptr(), ptr);
        let _token: Python = view.py();
    }
    rt.release_gil(gil);
    let at = code.with_mut(&mut rt, |_py: Python, _locked: &Runtime, view: PyRefMut<PyCodeObject>| {
        view.addr()
    });
    assert_eq!(at, ptr);
    assert_eq!(code.as_ptr(), ptr);
    assert_eq!(rt.refcnt(ptr), 1);
}

#[test]
fn with_drains_what_was_owed() {
    let mut rt = Runtime::new();
    let gil = rt.acquire_gil();
    let a: Py<Counter> = Py::new(gil.python(), &mut rt).unwrap();
    let b = a.clone_ref(gil.python(), &mut rt);
    rt.release_gil(gil);
    b.release(&mut rt);
    assert_eq!(a.get_refcnt(&rt), 2);
    let inside = a.with(&mut rt, |_py: Python, locked: &Runtime, view: PyRef<Counter>| {
        (locked.refcnt(view.as_ptr()), locked.pending())
    });
    assert_eq!(inside, (1, 0));
    assert_eq!(a.get_refcnt(&rt), 1);
}

#[test]
fn into_mut_py_releases_under_the_token() {
    let mut rt = Runtime::new();
    let gil = rt.acquire_gil();
    let a: Py<Counter> = Py::new(gil.python(), &mut rt).unwrap();
    let keeper = a.clone_ref(gil.python(), &mut rt);
    rt.release_gil(gil);
    let ptr = keeper.as_ptr();
    let inside = a.into_mut_py(&mut rt, |_py: Python, locked: &Runtime, view: PyRefMut<Counter>| {
        (locked.refcnt(view.as_ptr()), view.addr())
    });
    assert_eq!(inside, (2, ptr + 24));
    assert_eq!(rt.refcnt(ptr), 1);
    assert_eq!(rt.pending(), 0);
    assert!(!rt.gil_is_held());
}

#[test]
fn new_ref_belongs_to_the_token_scope() {
    let mut rt = Runtime::new();
    let gil = rt.acquire_gil();
    let ptr;
    {
        let view: PyRef<Counter> = Py::new_ref(gil.python(), &mut rt).unwrap();
        ptr = view.as_ptr();
        assert_eq!(ptr, 4096);
        assert_eq!(view.addr(), 4096 + 24);
    }
    assert_eq!(rt.refcnt(ptr), 1);
    assert_eq!(rt.pending(), 1);
    let second;
    {
        let view: PyRefMut<PyCodeObject> = Py::new_mut(gil.python(), &mut rt).unwrap();
        second = view.as_ptr();
        assert_eq!(second, 4096 + 40);
        assert_eq!(view.addr(), second);
    }
    assert_eq!(rt.pending(), 2);
    rt.release_gil(gil);
    assert_eq!(rt.refcnt(ptr), 0);
    assert_eq!(rt.refcnt(second), 0);
    assert_eq!(rt.pending(), 0);
}
