use pyhandle::{
    AsPyRef, ConstructionError, IntoPyPointer, NonNull, Py, PyCodeObject, PyErr, PyObject,
    PyTypeInfo, Runtime, ToPyPointer,
};

#[derive(Debug)]
struct Shell;

impl PyTypeInfo for Shell {
    const TYPE_ID: u64 = 40;
    const EMBEDDED: bool = false;
    const OFFSET: usize = 16;
    const SIZE: usize = 48;
}

#[derive(Debug)]
struct Huge;

impl PyTypeInfo for Huge {
    const TYPE_ID: u64 = 41;
    const EMBEDDED: bool = false;
    const OFFSET: usize = 16;
    const SIZE: usize = usize::MAX;
}

fn is_send_and_sync<T: Send + Sync>(_: &T) -> bool {
    true
}

#[test]
fn duplicate_then_release_under_token_then_deferred() {
    let mut rt = Runtime::new();
    let gil = rt.acquire_gil();
    let first: Py<Shell> = Py::new(gil.python(), &mut rt).unwrap();
    let ptr = first.as_ptr();
    assert_eq!(first.get_refcnt(&rt), 1);

    let second = first.clone_ref(gil.python(), &mut rt);
    assert_eq!(rt.refcnt(ptr), 2);
    assert!(first == second);

    first.release(&mut rt);
    assert_eq!(rt.refcnt(ptr), 1);
    assert_eq!(rt.pending(), 0);
    rt.release_gil(gil);

    second.release(&mut rt);
    assert_eq!(rt.refcnt(ptr), 1);
    assert_eq!(rt.pending(), 1);

    let gil = rt.acquire_gil();
    assert_eq!(rt.refcnt(ptr), 0);
    assert_eq!(rt.pending(), 0);
    rt.release_gil(gil);
}

#[test]
fn into_raw_then_from_owned_is_the_same_handle() {
    let mut rt = Runtime::new();
    let gil = rt.acquire_gil();
    let ob: Py<PyCodeObject> = Py::new(gil.python(), &mut rt).unwrap();
    let twin = ob.clone_ref(gil.python(), &mut rt);
    let ptr = ob.into_ptr();
    assert_eq!(rt.refcnt(ptr), 2);
    let back: Py<PyCodeObject> = Py::from_owned_ptr(&rt, ptr);
    assert!(back == twin);
    assert_eq!(back.as_ptr(), ptr);
    assert_eq!(rt.refcnt(ptr), 2);
    back.release(&mut rt);
    assert_eq!(rt.refcnt(ptr), 1);
    twin.release(&mut rt);
    assert_eq!(rt.refcnt(ptr), 0);
    rt.release_gil(gil);
}

#[test]
fn count_is_restored_after_any_mix_of_handles() {
    let mut rt = Runtime::new();
    let gil = rt.acquire_gil();
    let keeper: Py<Shell> = Py::new(gil.python(), &mut rt).unwrap();
    let ptr = keeper.as_ptr();
    let before = rt.refcnt(ptr);
    assert_eq!(before, 1);

    let a: Py<Shell> = Py::from_borrowed_ptr(gil.python(), &mut rt, ptr);
    let b = a.clone_ref(gil.python(), &mut rt);
    let c = b.clone_ref(gil.python(), &mut rt);
    assert_eq!(rt.refcnt(ptr), 4);
    b.release(&mut rt);
    assert_eq!(rt.refcnt(ptr), 3);
    rt.release_gil(gil);

    a.release(&mut rt);
    c.release(&mut rt);
    assert_eq!(rt.refcnt(ptr), 3);
    assert_eq!(rt.pending(), 2);

    let gil = rt.acquire_gil();
    assert_eq!(rt.pending(), 0);
    assert_eq!(rt.refcnt(ptr), before);
    rt.release_gil(gil);
    assert_eq!(keeper.get_refcnt(&rt), before);
}

#[test]
fn release_without_token_is_carried_out_by_the_next_acquire() {
    let mut rt = Runtime::new();
    let gil = rt.acquire_gil();
    let keeper: Py<PyCodeObject> = Py::new(gil.python(), &mut rt).unwrap();
    let other = keeper.clone_ref(gil.python(), &mut rt);
    rt.release_gil(gil);
    let ptr = keeper.as_ptr();

    assert!(!rt.gil_is_held());
    other.release(&mut rt);
    assert_eq!(rt.refcnt(ptr), 2);
    assert_eq!(rt.pending(), 1);

    let gil = rt.acquire_gil();
    assert!(rt.gil_is_held());
    assert_eq!(rt.refcnt(ptr), 1);
    assert_eq!(rt.pending(), 0);
    rt.release_gil(gil);
}

#[test]
fn release_gil_drains_too() {
    let mut rt = Runtime::new();
    let gil = rt.acquire_gil();
    let keeper: Py<PyCodeObject> = Py::new(gil.python(), &mut rt).unwrap();
    let other = keeper.clone_ref(gil.python(), &mut rt);
    let ptr = keeper.as_ptr();
    rt.register_pointer(other.into_non_null());
    assert_eq!(rt.refcnt(ptr), 2);
    assert_eq!(rt.pending(), 1);
    rt.release_gil(gil);
    assert_eq!(rt.refcnt(ptr), 1);
    assert_eq!(rt.pending(), 0);
}

#[test]
fn null_from_a_foreign_call_is_an_error_with_what_was_raised() {
    let mut rt = Runtime::new();
    let gil = rt.acquire_gil();
    rt.raise(gil.python(), 77);
    let r: Result<Py<Shell>, PyErr> = Py::from_owned_ptr_or_err(gil.python(), &mut rt, 0);
    assert_eq!(r.unwrap_err(), PyErr::NullIdentifier { raised: Some(77) });
    let again: Result<Py<Shell>, PyErr> = Py::from_owned_ptr_or_err(gil.python(), &mut rt, 0);
    assert_eq!(again.unwrap_err(), PyErr::NullIdentifier { raised: None });

    let made: Py<Shell> = Py::new(gil.python(), &mut rt).unwrap();
    let ptr = made.into_ptr();
    rt.raise(gil.python(), 5);
    let ok: Py<Shell> = Py::from_owned_ptr_or_err(gil.python(), &mut rt, ptr).unwrap();
    assert_eq!(ok.as_ptr(), ptr);
    assert_eq!(rt.fetch(gil.python()), Some(5));
    assert_eq!(rt.fetch(gil.python()), None);
    let same: Py<Shell> = Py::from_owned_ptr_or_panic(ok.into_ptr());
    assert_eq!(same.get_refcnt(&rt), 1);
    rt.release_gil(gil);
}

#[test]
fn construction_failure_is_handed_on() {
    let mut rt = Runtime::new();
    let gil = rt.acquire_gil();
    let r: Result<Py<Huge>, PyErr> = Py::new(gil.python(), &mut rt);
    assert_eq!(r.unwrap_err(), PyErr::Construction(ConstructionError::OutOfMemory));
    assert_eq!(
        rt.create(gil.python(), 3, usize::MAX - 4095),
        Err(ConstructionError::OutOfMemory)
    );
    assert_eq!(rt.create(gil.python(), 3, usize::MAX - 4096), Ok(4096));
    assert_eq!(rt.create(gil.python(), 3, 0), Err(ConstructionError::OutOfMemory));
    rt.release_gil(gil);
}

#[test]
fn objects_are_placed_one_behind_the_other() {
    let mut rt = Runtime::new();
    let gil = rt.acquire_gil();
    assert_eq!(rt.create(gil.python(), 9, 0), Ok(4096));
    assert_eq!(rt.create(gil.python(), 9, 48), Ok(4096 + 16));
    assert_eq!(rt.create(gil.python(), 8, 16), Ok(4096 + 16 + 48));
    assert_eq!(rt.create(gil.python(), 8, 1), Ok(4096 + 16 + 48 + 16));
    assert_eq!(rt.type_of(4096), Some(9));
    assert_eq!(rt.type_of(4096 + 64), Some(8));
    assert_eq!(rt.type_of(4097), None);
    assert_eq!(rt.refcnt(4096), 1);
    assert_eq!(rt.refcnt(4097), 0);
    rt.incref(gil.python(), 4096);
    rt.incref(gil.python(), 4096);
    assert_eq!(rt.refcnt(4096), 3);
    rt.decref(gil.python(), 4096);
    assert_eq!(rt.refcnt(4096), 2);
    assert_eq!(rt.refcnt(4096 + 16), 1);
    rt.release_gil(gil);
}

#[test]
fn handles_are_equal_when_they_name_the_same_object() {
    let mut rt = Runtime::new();
    let gil = rt.acquire_gil();
    let a: Py<Shell> = Py::new(gil.python(), &mut rt).unwrap();
    let b: Py<Shell> = Py::new(gil.python(), &mut rt).unwrap();
    let a2 = a.clone_ref(gil.python(), &mut rt);
    assert!(a == a2);
    assert!(a != b);
    let ea = a.to_object(gil.python(), &mut rt);
    let eb: PyObject = b.into();
    assert!(ea != eb);
    assert!(ea == a2.into_object(gil.python()));
    rt.release_gil(gil);
}

#[test]
fn the_null_address_is_no_address_of_an_object() {
    assert!(NonNull::new(0).is_none());
    assert_eq!(NonNull::new(4096).unwrap().as_ptr(), 4096);
    assert_eq!(NonNull::new(usize::MAX).unwrap().as_ptr(), usize::MAX);
}

#[test]
fn handles_go_from_thread_to_thread() {
    let mut rt = Runtime::new();
    let gil = rt.acquire_gil();
    let a: Py<PyCodeObject> = Py::new(gil.python(), &mut rt).unwrap();
    assert!(is_send_and_sync(&a));
    let e = a.into_object(gil.python());
    assert!(is_send_and_sync(&e));
    rt.release_gil(gil);
}

#[test]
fn xdecref_releases_at_once() {
    let mut rt = Runtime::new();
    let gil = rt.acquire_gil();
    let a: Py<Shell> = Py::new(gil.python(), &mut rt).unwrap();
    let b = a.clone_ref(gil.python(), &mut rt);
    let ptr = a.as_ptr();
    rt.xdecref(gil.python(), b);
    assert_eq!(rt.refcnt(ptr), 1);
    assert_eq!(rt.pending(), 0);
    rt.release_gil(gil);
    let seen = a.into_py(&mut rt, |_py, locked: &Runtime, view| {
        (locked.refcnt(view.as_ptr()), view.addr())
    });
    assert_eq!(seen, (1, ptr + 16));
    assert_eq!(rt.refcnt(ptr), 0);
    assert_eq!(rt.pending(), 0);
    assert!(!rt.gil_is_held());
}
