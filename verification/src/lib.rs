//! Reference-counted handles to objects that live inside a foreign runtime.
//!
//! The foreign runtime counts references by hand and may only be touched by
//! whoever holds its one global lock. This crate is the ownership layer on
//! top of it: the token that witnesses the lock ([`Python`]), the owning
//! handle ([`Py`]) and its type-erased form ([`PyObject`]), the views that a
//! handle lends out under a token ([`PyRef`], [`PyRefMut`]), and the registry
//! that keeps a release for later when a handle is given up with no token in
//! sight ([`ReleasePool`]).
//!
//! The runtime itself is an explicit value, [`Runtime`], whose abstract state
//! ([`RuntimeState`]) every contract speaks of. Nothing here is ambient: the
//! registry is drained as a stated step of taking and of giving back the
//! lock.

pub mod err;
pub mod instance;
pub mod ledger;
pub mod object;
pub mod ptr;
pub mod python;
pub mod pythonrun;
pub mod runtime;
pub mod state;
pub mod typeob;
pub mod types;

pub use err::{ConstructionError, PyErr, PyResult};
pub use instance::{AsPyRef, Py, PyNativeType, PyObjectWithGIL, PyRef, PyRefMut};
pub use object::PyObject;
pub use ptr::NonNull;
pub use python::{IntoPyPointer, Python, ToPyPointer};
pub use pythonrun::{GILGuard, ReleasePool};
pub use runtime::Runtime;
pub use state::{ObjectState, RuntimeState};
pub use typeob::{
    layout_of, payload_address, payload_at, payload_inside, payload_of, spec_layout_of,
    LayoutStrategy, PyTypeInfo,
};
pub use types::PyCodeObject;
