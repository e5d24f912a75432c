//! Type markers for the objects that the runtime makes itself.

pub mod codeobject;

pub use codeobject::PyCodeObject;
