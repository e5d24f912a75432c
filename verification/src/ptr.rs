//! Addresses of foreign objects.

use vstd::prelude::*;

verus! {

/// The address of a foreign object, known not to be null.
///
/// The address is never followed: it names the object and nothing more. Two
/// addresses name the same object exactly when they are equal.
#[derive(Clone, Copy, Debug)]
pub struct NonNull {
    addr: usize,
}

impl View for NonNull {
    type V = usize;

    closed spec fn view(&self) -> usize {
        self.addr
    }
}

impl NonNull {
    #[verifier::type_invariant]
    spec fn inv(self) -> bool {
        self.addr != 0
    }

    /// Two addresses that are the same number are the same address.
    pub proof fn lemma_view_injective(a: NonNull, b: NonNull)
        requires
            a@ == b@,
        ensures
            a == b,
    {
    }

    /// `Some` for every address but the null address.
    pub fn new(addr: usize) -> (r: Option<NonNull>)
        ensures
            addr == 0 <==> r is None,
            r matches Some(p) ==> p@ == addr,
    {
        if addr == 0 {
            None
        } else {
            Some(NonNull { addr })
        }
    }

    /// The address itself, which is never null.
    pub fn as_ptr(self) -> (addr: usize)
        ensures
            addr == self@,
            addr != 0,
    {
        proof {
            use_type_invariant(self);
        }
        self.addr
    }
}

} // verus!
