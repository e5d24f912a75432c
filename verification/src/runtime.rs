//! The foreign runtime: its objects, their reference counts, its lock.

use crate::err::ConstructionError;
use crate::ptr::NonNull;
use crate::python::{IntoPyPointer, Python};
use crate::pythonrun::{GILGuard, ReleasePool};
use crate::state::{
    lemma_occurrences_prefix, lemma_occurrences_push, lemma_occurrences_step, occurrences,
    ObjectState, RuntimeState, HEADER_SIZE, HEAP_BASE,
};
use std::collections::HashMap;
use vstd::prelude::*;

verus! {

#[derive(Clone, Copy)]
struct ObjectHeader {
    refcnt: isize,
    type_id: u64,
}

/// A foreign runtime.
///
/// It keeps a table of its objects with their reference counts and types,
/// hands out its one lock, and carries the registry of releases that are
/// owed to it. What it holds is told by its view, a [`RuntimeState`].
pub struct Runtime {
    objects: HashMap<usize, ObjectHeader>,
    pool: ReleasePool,
    gil_held: bool,
    raised: Option<u64>,
    next_free: usize,
}

impl View for Runtime {
    type V = RuntimeState;

    closed spec fn view(&self) -> RuntimeState {
        RuntimeState {
            objects: Map::new(
                |p: usize| self.objects@.contains_key(p),
                |p: usize|
                    ObjectState {
                        refcnt: self.objects@[p].refcnt as int,
                        type_id: self.objects@[p].type_id,
                    },
            ),
            pending: self.pool@,
            gil_held: self.gil_held,
            raised: self.raised,
            next_free: self.next_free,
        }
    }
}

impl Runtime {
    /// A runtime without objects, whose lock is free and to which nothing is
    /// owed.
    pub fn new() -> (rt: Runtime)
        ensures
            rt@.wf(),
            rt@.objects == Map::<usize, ObjectState>::empty(),
            rt@.pending == Seq::<usize>::empty(),
            !rt@.gil_held,
            rt@.raised is None,
            rt@.next_free == HEAP_BASE,
    {
        let rt = Runtime {
            objects: HashMap::new(),
            pool: ReleasePool::new(),
            gil_held: false,
            raised: None,
            next_free: HEAP_BASE,
        };
        assert(rt@.objects =~= Map::<usize, ObjectState>::empty());
        rt
    }

    /// Whether the lock is held.
    pub fn gil_is_held(&self) -> (held: bool)
        ensures
            held == self@.gil_held,
    {
        self.gil_held
    }

    /// How many releases are owed.
    pub fn pending(&self) -> (n: usize)
        ensures
            n == self@.pending.len(),
    {
        self.pool.len()
    }

    /// The reference count of the object at `ptr`; zero where there is no
    /// object. Only looks.
    pub fn refcnt(&self, ptr: usize) -> (count: isize)
        ensures
            count == self@.refcnt(ptr),
    {
        match self.objects.get(&ptr) {
            Some(header) => header.refcnt,
            None => 0,
        }
    }

    /// The type tag of the object at `ptr`, if there is an object.
    pub fn type_of(&self, ptr: usize) -> (type_id: Option<u64>)
        ensures
            type_id == if self@.objects.contains_key(ptr) {
                Some(self@.objects[ptr].type_id)
            } else {
                None
            },
    {
        match self.objects.get(&ptr) {
            Some(header) => Some(header.type_id),
            None => None,
        }
    }

    /// Adds one unit to the count of the living object at `ptr`.
    pub fn incref(&mut self, py: Python, ptr: usize)
        requires
            old(self)@.wf(),
            old(self)@.gil_held,
            old(self)@.is_alive(ptr),
            old(self)@.refcnt(ptr) < isize::MAX,
        ensures
            final(self)@ == old(self)@.incref(ptr),
            final(self)@.wf(),
    {
        let header = *self.objects.get(&ptr).unwrap();
        self.objects.insert(ptr, ObjectHeader { refcnt: header.refcnt + 1, type_id: header.type_id });
        proof {
            assert(final(self)@.objects =~= old(self)@.incref(ptr).objects);
            let before = old(self)@;
            let after = final(self)@;
            assert forall|p: usize| #[trigger] occurrences(after.pending, p) <= after.refcnt(p) by {
                assert(occurrences(before.pending, p) <= before.refcnt(p));
            }
        }
    }

    /// Takes one unit from the count of the object at `ptr`. The unit must
    /// be one that is held, not one whose release is owed already.
    pub fn decref(&mut self, py: Python, ptr: usize)
        requires
            old(self)@.wf(),
            old(self)@.gil_held,
            old(self)@.held_units(ptr) > 0,
        ensures
            final(self)@ == old(self)@.decref(ptr),
            final(self)@.wf(),
    {
        let header = *self.objects.get(&ptr).unwrap();
        self.objects.insert(ptr, ObjectHeader { refcnt: header.refcnt - 1, type_id: header.type_id });
        proof {
            assert(final(self)@.objects =~= old(self)@.decref(ptr).objects);
            let before = old(self)@;
            let after = final(self)@;
            assert forall|p: usize| #[trigger] occurrences(after.pending, p) <= after.refcnt(p) by {
                assert(occurrences(before.pending, p) <= before.refcnt(p));
            }
        }
    }

    /// Ends `ob` and releases its unit at once. An `ob` that names no object
    /// (the null address) is let go without a release.
    pub fn xdecref<P: IntoPyPointer>(&mut self, py: Python, ob: P)
        requires
            old(self)@.wf(),
            old(self)@.gil_held,
            ob.owned_ptr() != 0 ==> old(self)@.held_units(ob.owned_ptr()) > 0,
        ensures
            final(self)@ == old(self)@.xdecref(ob.owned_ptr()),
            final(self)@.wf(),
    {
        let ptr: usize = ob.into_ptr();
        if ptr != 0 {
            self.decref(py, ptr);
        }
    }

    /// Makes an object of the type `type_id` that takes `size` bytes, at the
    /// allocation cursor. Its count is one, and that unit is the caller's.
    pub fn create(&mut self, py: Python, type_id: u64, size: usize) -> (r: Result<
        usize,
        ConstructionError,
    >)
        requires
            old(self)@.wf(),
            old(self)@.gil_held,
        ensures
            final(self)@.wf(),
            match r {
                Ok(ptr) => old(self)@.can_create(size) && ptr == old(self)@.next_free
                    && final(self)@ == old(self)@.created(type_id, size),
                Err(e) => !old(self)@.can_create(size) && e == ConstructionError::OutOfMemory
                    && final(self)@ == old(self)@,
            },
    {
        let bytes: usize = if size < HEADER_SIZE {
            HEADER_SIZE
        } else {
            size
        };
        match self.next_free.checked_add(bytes) {
            Some(next) => {
                let ptr: usize = self.next_free;
                self.objects.insert(ptr, ObjectHeader { refcnt: 1, type_id });
                self.next_free = next;
                proof {
                    let before = old(self)@;
                    let after = self@;
                    assert(after.objects =~= before.created(type_id, size).objects);
                    assert(!before.objects.contains_key(ptr));
                    assert forall|p: usize| #[trigger]
                        occurrences(after.pending, p) <= after.refcnt(p) by {
                        assert(occurrences(before.pending, p) <= before.refcnt(p));
                    }
                }
                Ok(ptr)
            },
            None => Err(ConstructionError::OutOfMemory),
        }
    }

    /// Sets the error indicator, as a foreign call that fails does.
    pub fn raise(&mut self, py: Python, code: u64)
        requires
            old(self)@.gil_held,
        ensures
            final(self)@ == old(self)@.raise(code),
    {
        self.raised = Some(code);
    }

    /// Takes what the error indicator holds, and leaves it empty.
    pub fn fetch(&mut self, py: Python) -> (raised: Option<u64>)
        requires
            old(self)@.gil_held,
        ensures
            raised == old(self)@.raised,
            final(self)@ == old(self)@.fetched(),
    {
        let raised = self.raised;
        self.raised = None;
        raised
    }

    /// Writes down that a unit on the object at `ptr` is owed. Asks for no
    /// token: this is the one thing that may be done to a runtime whose lock
    /// is not held. The count stays as it is until the registry is drained.
    pub fn register_pointer(&mut self, ptr: NonNull)
        requires
            old(self)@.wf(),
            old(self)@.held_units(ptr@) > 0,
        ensures
            final(self)@ == old(self)@.enqueue(ptr@),
            final(self)@.wf(),
    {
        self.pool.register_pointer(ptr);
        proof {
            let before = old(self)@;
            let after = final(self)@;
            assert(after.objects =~= before.objects);
            assert forall|p: usize| #[trigger]
                occurrences(after.pending, p) <= after.refcnt(p) by {
                lemma_occurrences_push(before.pending, ptr@, p);
                assert(occurrences(before.pending, p) <= before.refcnt(p));
            }
        }
    }

    /// Carries out every owed release, oldest first, one decrement for each
    /// entry, and leaves the registry empty.
    pub fn drain_and_release(&mut self, py: Python)
        requires
            old(self)@.wf(),
            old(self)@.gil_held,
        ensures
            final(self)@ == old(self)@.drained(),
            final(self)@.wf(),
    {
        let ghost before = self@;
        let owed = self.pool.drain();
        let mut i: usize = 0;
        while i < owed.len()
            invariant
                i <= owed.len(),
                owed@ == before.pending,
                before.wf(),
                self.pool@ == Seq::<usize>::empty(),
                self.gil_held == before.gil_held,
                self.raised == before.raised,
                self.next_free == before.next_free,
                forall|p: usize|
                    self.objects@.contains_key(p) <==> #[trigger] before.objects.contains_key(p),
                forall|p: usize| #[trigger]
                    self.objects@.contains_key(p) ==> self.objects@[p].type_id
                        == before.objects[p].type_id && self.objects@[p].refcnt
                        == before.objects[p].refcnt - occurrences(owed@.subrange(0, i as int), p),
            decreases owed.len() - i,
        {
            let ptr: usize = owed[i];
            proof {
                lemma_occurrences_prefix(owed@, i + 1, ptr);
                lemma_occurrences_step(owed@, i as int, ptr);
                assert(occurrences(before.pending, ptr) <= before.refcnt(ptr));
            }
            let header = *self.objects.get(&ptr).unwrap();
            self.objects.insert(
                ptr,
                ObjectHeader { refcnt: header.refcnt - 1, type_id: header.type_id },
            );
            proof {
                assert forall|p: usize| #[trigger]
                    self.objects@.contains_key(p) implies self.objects@[p].type_id
                    == before.objects[p].type_id && self.objects@[p].refcnt
                    == before.objects[p].refcnt - occurrences(
                    owed@.subrange(0, i + 1),
                    p,
                ) by {
                    lemma_occurrences_step(owed@, i as int, p);
                }
            }
            i += 1;
        }
        proof {
            assert(owed@.subrange(0, i as int) =~= owed@);
            let after = self@;
            assert(after.objects =~= before.drained().objects);
            assert forall|p: usize| #[trigger]
                occurrences(after.pending, p) <= after.refcnt(p) by {
                assert(occurrences(before.pending, p) <= before.refcnt(p));
            }
        }
    }

    /// Takes the lock, and at once releases what was owed. The guard that
    /// comes back lends out the tokens.
    pub fn acquire_gil(&mut self) -> (guard: GILGuard)
        requires
            old(self)@.wf(),
            !old(self)@.gil_held,
        ensures
            final(self)@ == old(self)@.acquire(),
            final(self)@.wf(),
    {
        self.gil_held = true;
        let guard = GILGuard::new();
        self.drain_and_release(guard.python());
        guard
    }

    /// Releases what is owed, then gives the lock back. The guard ends here,
    /// and with it every token and view that was made under it.
    pub fn release_gil(&mut self, guard: GILGuard)
        requires
            old(self)@.wf(),
            old(self)@.gil_held,
        ensures
            final(self)@ == old(self)@.release(),
            final(self)@.wf(),
    {
        self.drain_and_release(guard.python());
        self.gil_held = false;
    }

    /// Gives up one held unit on the object at `ptr`: released at once where
    /// the lock is held, written into the registry where it is not.
    pub fn give_up(&mut self, ptr: NonNull)
        requires
            old(self)@.wf(),
            old(self)@.held_units(ptr@) > 0,
        ensures
            final(self)@ == old(self)@.give_up(ptr@),
            final(self)@.wf(),
    {
        if self.gil_held {
            self.decref(Python::assume_gil_acquired(), ptr.as_ptr());
        } else {
            self.register_pointer(ptr);
        }
    }
}

} // verus!
