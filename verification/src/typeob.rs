//! What a type marker tells about the objects that are its instances.

use vstd::prelude::*;

verus! {

/// How the payload of an object is found from the object's address.
#[derive(Clone, Copy, Debug, PartialEq, Eq)]
pub enum LayoutStrategy {
    /// The payload is the object as the runtime laid it out: it starts at the
    /// object's own address.
    Embedded,
    /// The payload was placed behind the runtime's part of the object: it
    /// starts this many bytes after the object's address.
    Offset(usize),
}

/// The layout of a type's instances, declared once per type.
///
/// All of it is constant, so that whatever follows from it is settled where
/// the type is named and costs nothing when the program runs.
pub trait PyTypeInfo {
    /// The tag by which the runtime tells this type's instances from others.
    const TYPE_ID: u64;

    /// Whether the payload is the runtime's own object.
    const EMBEDDED: bool;

    /// Where the payload of an instance begins, in bytes from the object's
    /// address. Not looked at for an embedded type.
    const OFFSET: usize;

    /// How many bytes an instance takes, the runtime's part included.
    const SIZE: usize;
}

/// The layout strategy that `T` declares.
pub open spec fn spec_layout_of<T: PyTypeInfo>() -> LayoutStrategy {
    if T::EMBEDDED {
        LayoutStrategy::Embedded
    } else {
        LayoutStrategy::Offset(T::OFFSET)
    }
}

/// Whether the payload of a `T` begins inside the bytes that an instance
/// takes.
pub open spec fn payload_inside<T: PyTypeInfo>() -> bool {
    T::EMBEDDED || T::OFFSET <= T::SIZE
}

/// Where the payload of the object at `ptr` begins under `layout`.
pub open spec fn payload_address(layout: LayoutStrategy, ptr: usize) -> int {
    match layout {
        LayoutStrategy::Embedded => ptr as int,
        LayoutStrategy::Offset(offset) => ptr + offset,
    }
}

/// The layout strategy that `T` declares.
pub fn layout_of<T: PyTypeInfo>() -> (layout: LayoutStrategy)
    ensures
        layout == spec_layout_of::<T>(),
{
    if T::EMBEDDED {
        LayoutStrategy::Embedded
    } else {
        LayoutStrategy::Offset(T::OFFSET)
    }
}

/// Where the payload of `T` lies in the object at `ptr`.
pub open spec fn payload_of<T: PyTypeInfo>(ptr: usize) -> int {
    payload_address(spec_layout_of::<T>(), ptr)
}

/// Finds the payload of `T` in the object at `ptr`: the object's own address
/// for an embedded type, the address plus the type's offset for the others.
pub fn payload_at<T: PyTypeInfo>(ptr: usize) -> (addr: usize)
    requires
        payload_of::<T>(ptr) <= usize::MAX,
    ensures
        addr == payload_of::<T>(ptr),
{
    match layout_of::<T>() {
        LayoutStrategy::Embedded => ptr,
        LayoutStrategy::Offset(offset) => ptr + offset,
    }
}

} // verus!
