//! The abstract state of the foreign runtime, and the steps that change it.
//!
//! Every contract in this crate that touches the runtime says what it does
//! by one of the steps defined here.

use vstd::prelude::*;

verus! {

/// The smallest address at which the runtime places an object.
pub const HEAP_BASE: usize = 4096;

/// The bytes that the runtime's own part of an object takes. No object is
/// smaller.
pub const HEADER_SIZE: usize = 16;

/// What the runtime knows of one object.
pub struct ObjectState {
    /// The object's reference count. The object is alive while it is
    /// positive; at zero the runtime has destroyed the object.
    pub refcnt: int,
    /// The tag of the object's type.
    pub type_id: u64,
}

/// How often `ptr` occurs in `s`.
pub open spec fn occurrences(s: Seq<usize>, ptr: usize) -> nat
    decreases s.len(),
{
    if s.len() == 0 {
        0
    } else {
        occurrences(s.drop_last(), ptr) + if s.last() == ptr {
            1nat
        } else {
            0nat
        }
    }
}

/// The bytes that an object of `size` bytes takes up in the address space.
pub open spec fn extent(size: usize) -> int {
    if size < HEADER_SIZE {
        HEADER_SIZE as int
    } else {
        size as int
    }
}

/// The state of the runtime as the contracts see it.
pub struct RuntimeState {
    /// Every object that the runtime ever made, by address.
    pub objects: Map<usize, ObjectState>,
    /// The releases that are still owed, oldest first: one entry for each
    /// unit that was given up while the lock was not held.
    pub pending: Seq<usize>,
    /// Whether the lock is held.
    pub gil_held: bool,
    /// The runtime's error indicator: the code of the error that a failed
    /// foreign call raised and that nobody has fetched yet.
    pub raised: Option<u64>,
    /// The address at which the next object will be placed.
    pub next_free: usize,
}

impl RuntimeState {
    /// The reference count of the object at `ptr`; zero where there is none.
    pub open spec fn refcnt(self, ptr: usize) -> int {
        if self.objects.contains_key(ptr) {
            self.objects[ptr].refcnt
        } else {
            0
        }
    }

    /// Whether there is a living object at `ptr`.
    pub open spec fn is_alive(self, ptr: usize) -> bool {
        self.refcnt(ptr) > 0
    }

    /// Whether the object at `ptr` is an instance of the type `type_id`.
    pub open spec fn is_instance(self, ptr: usize, type_id: u64) -> bool {
        self.objects.contains_key(ptr) && self.objects[ptr].type_id == type_id
    }

    /// How many releases of the object at `ptr` are owed.
    pub open spec fn owed(self, ptr: usize) -> nat {
        occurrences(self.pending, ptr)
    }

    /// The units on the object at `ptr` that are still somebody's: those
    /// that no owed release will take away.
    pub open spec fn held_units(self, ptr: usize) -> int {
        self.refcnt(ptr) - self.owed(ptr)
    }

    /// No object sits at the null address or beyond the allocation cursor,
    /// no count is negative, and no object owes more releases than it has
    /// units.
    pub open spec fn wf(self) -> bool {
        &&& HEAP_BASE <= self.next_free
        &&& forall|p: usize| #[trigger]
            self.objects.contains_key(p) ==> HEAP_BASE <= p < self.next_free
                && self.objects[p].refcnt >= 0
        &&& forall|p: usize| #[trigger] occurrences(self.pending, p) <= self.refcnt(p)
    }

    /// One more unit on the object at `ptr`.
    pub open spec fn incref(self, ptr: usize) -> RuntimeState {
        RuntimeState {
            objects: self.objects.insert(
                ptr,
                ObjectState { refcnt: self.refcnt(ptr) + 1, type_id: self.objects[ptr].type_id },
            ),
            ..self
        }
    }

    /// One unit less on the object at `ptr`.
    pub open spec fn decref(self, ptr: usize) -> RuntimeState {
        RuntimeState {
            objects: self.objects.insert(
                ptr,
                ObjectState { refcnt: self.refcnt(ptr) - 1, type_id: self.objects[ptr].type_id },
            ),
            ..self
        }
    }

    /// One unit less on the object at `ptr`, unless `ptr` is the null
    /// address, which names no object.
    pub open spec fn xdecref(self, ptr: usize) -> RuntimeState {
        if ptr == 0 {
            self
        } else {
            self.decref(ptr)
        }
    }

    /// One more release of the object at `ptr` is owed.
    pub open spec fn enqueue(self, ptr: usize) -> RuntimeState {
        RuntimeState { pending: self.pending.push(ptr), ..self }
    }

    /// Every owed release is carried out: each object loses one unit for
    /// each entry that names it, and nothing is owed any more.
    pub open spec fn drained(self) -> RuntimeState {
        RuntimeState {
            objects: Map::new(
                |p: usize| self.objects.contains_key(p),
                |p: usize|
                    ObjectState {
                        refcnt: self.objects[p].refcnt - occurrences(self.pending, p),
                        type_id: self.objects[p].type_id,
                    },
            ),
            pending: Seq::empty(),
            ..self
        }
    }

    /// The lock is taken, and what was owed is released under it.
    pub open spec fn acquire(self) -> RuntimeState {
        RuntimeState { gil_held: true, ..self.drained() }
    }

    /// What is owed is released, and the lock is given back.
    pub open spec fn release(self) -> RuntimeState {
        RuntimeState { gil_held: false, ..self.drained() }
    }

    /// A unit on the object at `ptr` is given up: released at once where the
    /// lock is held, owed where it is not.
    pub open spec fn give_up(self, ptr: usize) -> RuntimeState {
        if self.gil_held {
            self.decref(ptr)
        } else {
            self.enqueue(ptr)
        }
    }

    /// Whether an object of `size` bytes still fits into the address space.
    pub open spec fn can_create(self, size: usize) -> bool {
        self.next_free + extent(size) <= usize::MAX
    }

    /// A new object of the type `type_id` and of `size` bytes stands at the
    /// allocation cursor, with the one unit that belongs to whoever asked
    /// for it.
    pub open spec fn created(self, type_id: u64, size: usize) -> RuntimeState {
        RuntimeState {
            objects: self.objects.insert(self.next_free, ObjectState { refcnt: 1, type_id }),
            next_free: (self.next_free + extent(size)) as usize,
            ..self
        }
    }

    /// The error indicator holds `code`.
    pub open spec fn raise(self, code: u64) -> RuntimeState {
        RuntimeState { raised: Some(code), ..self }
    }

    /// The error indicator is empty.
    pub open spec fn fetched(self) -> RuntimeState {
        RuntimeState { raised: None, ..self }
    }
}

/// Appending `x` adds one occurrence of `x` and of nothing else.
pub proof fn lemma_occurrences_push(s: Seq<usize>, x: usize, ptr: usize)
    ensures
        occurrences(s.push(x), ptr) == occurrences(s, ptr) + if x == ptr {
            1nat
        } else {
            0nat
        },
{
    assert(s.push(x).drop_last() =~= s);
}

/// One element more in a prefix adds one occurrence of that element and of
/// nothing else.
pub proof fn lemma_occurrences_step(s: Seq<usize>, i: int, ptr: usize)
    requires
        0 <= i < s.len(),
    ensures
        occurrences(s.subrange(0, i + 1), ptr) == occurrences(s.subrange(0, i), ptr) + if s[i]
            == ptr {
            1nat
        } else {
            0nat
        },
{
    assert(s.subrange(0, i + 1).drop_last() =~= s.subrange(0, i));
}

/// A prefix holds no more occurrences than the whole.
pub proof fn lemma_occurrences_prefix(s: Seq<usize>, n: int, ptr: usize)
    requires
        0 <= n <= s.len(),
    ensures
        occurrences(s.subrange(0, n), ptr) <= occurrences(s, ptr),
    decreases s.len() - n,
{
    if n == s.len() {
        assert(s.subrange(0, n) =~= s);
    } else {
        lemma_occurrences_prefix(s, n + 1, ptr);
        assert(s.subrange(0, n + 1).drop_last() =~= s.subrange(0, n));
    }
}

} // verus!
