//! The books of one object: that whatever is done with its handles, every
//! unit that a handle took is given back exactly once.

use crate::err::{PyErr, PyResult};
use crate::instance::{extracted, Py};
use crate::object::PyObject;
use crate::state::{lemma_occurrences_push, occurrences, RuntimeState};
use crate::typeob::PyTypeInfo;
use vstd::std_specs::convert::FromSpec;
use vstd::prelude::*;

verus! {

/// One thing that can happen to the handles of one object.
pub enum HandleOp {
    /// The lock is taken, and what was owed is released.
    Acquire,
    /// What is owed is released, and the lock is given back.
    Release,
    /// A handle takes over a unit that somebody else held on the object.
    FromOwned,
    /// A handle is made for the object, with a unit of its own.
    FromBorrowed,
    /// A handle is duplicated: the second handle has a unit of its own.
    Duplicate,
    /// A handle is given up, whether the lock is held or not.
    Drop,
}

/// The runtime's state together with the number of handles to one object
/// that are in somebody's hands.
pub struct Ledger {
    pub state: RuntimeState,
    pub handles: int,
}

impl Ledger {
    /// The books at the start: the runtime as it is, and no handle yet.
    pub open spec fn open(state: RuntimeState) -> Ledger {
        Ledger { state, handles: 0 }
    }

    /// Whether `op` may happen to the handles of the object at `ptr`.
    pub open spec fn enabled(self, ptr: usize, op: HandleOp) -> bool {
        match op {
            HandleOp::Acquire => !self.state.gil_held,
            HandleOp::Release => self.state.gil_held,
            HandleOp::FromOwned => self.state.held_units(ptr) > self.handles,
            HandleOp::FromBorrowed => self.state.gil_held && self.state.is_alive(ptr),
            HandleOp::Duplicate => self.state.gil_held && self.handles > 0,
            HandleOp::Drop => self.handles > 0,
        }
    }

    /// The books after `op` has happened to the handles of the object at
    /// `ptr`.
    pub open spec fn step(self, ptr: usize, op: HandleOp) -> Ledger {
        match op {
            HandleOp::Acquire => Ledger { state: self.state.acquire(), ..self },
            HandleOp::Release => Ledger { state: self.state.release(), ..self },
            HandleOp::FromOwned => Ledger { handles: self.handles + 1, ..self },
            HandleOp::FromBorrowed => Ledger {
                state: self.state.incref(ptr),
                handles: self.handles + 1,
            },
            HandleOp::Duplicate => Ledger {
                state: self.state.incref(ptr),
                handles: self.handles + 1,
            },
            HandleOp::Drop => Ledger {
                state: self.state.give_up(ptr),
                handles: self.handles - 1,
            },
        }
    }

    /// The books after all of `ops` have happened, first to last.
    pub open spec fn run(self, ptr: usize, ops: Seq<HandleOp>) -> Ledger
        decreases ops.len(),
    {
        if ops.len() == 0 {
            self
        } else {
            self.run(ptr, ops.drop_last()).step(ptr, ops.last())
        }
    }

    /// Whether each of `ops` may happen when its turn comes.
    pub open spec fn admits(self, ptr: usize, ops: Seq<HandleOp>) -> bool
        decreases ops.len(),
    {
        ops.len() == 0 || (self.admits(ptr, ops.drop_last()) && self.run(
            ptr,
            ops.drop_last(),
        ).enabled(ptr, ops.last()))
    }
}

/// How many of `ops` take over a unit that existed before.
pub open spec fn taken_over(ops: Seq<HandleOp>) -> nat
    decreases ops.len(),
{
    if ops.len() == 0 {
        0
    } else {
        taken_over(ops.drop_last()) + if ops.last() is FromOwned {
            1nat
        } else {
            0nat
        }
    }
}

/// Releasing what is owed keeps a well-formed state well-formed, and takes
/// from each object exactly the units that were owed.
pub proof fn lemma_drained(s: RuntimeState, ptr: usize)
    requires
        s.wf(),
    ensures
        s.drained().wf(),
        s.drained().refcnt(ptr) == s.refcnt(ptr) - s.owed(ptr),
        s.drained().owed(ptr) == 0,
{
    let d = s.drained();
    assert(occurrences(s.pending, ptr) <= s.refcnt(ptr));
    assert forall|p: usize| #[trigger] d.objects.contains_key(p) implies d.objects[p].refcnt
        >= 0 by {
        assert(occurrences(s.pending, p) <= s.refcnt(p));
    }
    assert forall|p: usize| #[trigger] occurrences(d.pending, p) <= d.refcnt(p) by {
        assert(occurrences(s.pending, p) <= s.refcnt(p));
    }
}

/// What holds of the books after any admitted run: the state is
/// well-formed, each handle has its unit, and the units that are held on
/// the object are those that were held at the start, one more for each
/// handle in somebody's hands, one less for each unit that a handle took
/// over.
pub proof fn lemma_books_balance(s: RuntimeState, ptr: usize, ops: Seq<HandleOp>)
    requires
        s.wf(),
        Ledger::open(s).admits(ptr, ops),
    ensures
        Ledger::open(s).run(ptr, ops).state.wf(),
        0 <= Ledger::open(s).run(ptr, ops).handles <= Ledger::open(s).run(
            ptr,
            ops,
        ).state.held_units(ptr),
        Ledger::open(s).run(ptr, ops).state.held_units(ptr) == s.held_units(ptr)
            + Ledger::open(s).run(ptr, ops).handles - taken_over(ops),
    decreases ops.len(),
{
    if ops.len() == 0 {
        assert(occurrences(s.pending, ptr) <= s.refcnt(ptr));
    } else {
        lemma_books_balance(s, ptr, ops.drop_last());
        let t = Ledger::open(s).run(ptr, ops.drop_last()).state;
        match ops.last() {
            HandleOp::Acquire => {
                lemma_drained(t, ptr);
            },
            HandleOp::Release => {
                lemma_drained(t, ptr);
            },
            HandleOp::FromOwned => {},
            HandleOp::FromBorrowed => {
                lemma_incref(t, ptr);
            },
            HandleOp::Duplicate => {
                lemma_incref(t, ptr);
            },
            HandleOp::Drop => {
                lemma_give_up(t, ptr);
            },
        }
    }
}

/// One more unit on a living object keeps the state well-formed and
/// changes nothing but that object's count.
pub proof fn lemma_incref(s: RuntimeState, ptr: usize)
    requires
        s.wf(),
        s.is_alive(ptr),
    ensures
        s.incref(ptr).wf(),
        s.incref(ptr).refcnt(ptr) == s.refcnt(ptr) + 1,
        s.incref(ptr).owed(ptr) == s.owed(ptr),
        forall|q: usize| q != ptr ==> s.incref(ptr).refcnt(q) == s.refcnt(q),
{
    let n = s.incref(ptr);
    assert forall|p: usize| #[trigger] occurrences(n.pending, p) <= n.refcnt(p) by {
        assert(occurrences(s.pending, p) <= s.refcnt(p));
    }
}

/// Giving up a held unit keeps the state well-formed and takes one unit
/// from those that are held: at once from the count where the lock is held,
/// by one more owed release where it is not.
pub proof fn lemma_give_up(s: RuntimeState, ptr: usize)
    requires
        s.wf(),
        s.held_units(ptr) > 0,
    ensures
        s.give_up(ptr).wf(),
        s.give_up(ptr).held_units(ptr) == s.held_units(ptr) - 1,
        s.gil_held ==> s.give_up(ptr).refcnt(ptr) == s.refcnt(ptr) - 1 && s.give_up(
            ptr,
        ).pending == s.pending,
        !s.gil_held ==> s.give_up(ptr).refcnt(ptr) == s.refcnt(ptr) && s.give_up(ptr).pending
            == s.pending.push(ptr),
{
    let n = s.give_up(ptr);
    assert(occurrences(s.pending, ptr) <= s.refcnt(ptr));
    if s.gil_held {
        assert forall|p: usize| #[trigger] occurrences(n.pending, p) <= n.refcnt(p) by {
            assert(occurrences(s.pending, p) <= s.refcnt(p));
        }
    } else {
        lemma_occurrences_push(s.pending, ptr, ptr);
        assert forall|p: usize| #[trigger] occurrences(n.pending, p) <= n.refcnt(p) by {
            lemma_occurrences_push(s.pending, ptr, p);
            assert(occurrences(s.pending, p) <= s.refcnt(p));
        }
    }
}

/// Whatever is done with the handles of an object, in whatever order and
/// with the lock held or not: once the last handle is given up and the
/// registry is drained, the object's count is what it would have been after
/// draining at the start, less one unit for each handle that took over a
/// unit that existed before.
pub proof fn lemma_balance(s: RuntimeState, ptr: usize, ops: Seq<HandleOp>)
    requires
        s.wf(),
        Ledger::open(s).admits(ptr, ops),
        Ledger::open(s).run(ptr, ops).handles == 0,
    ensures
        Ledger::open(s).run(ptr, ops).state.drained().refcnt(ptr) == s.drained().refcnt(ptr)
            - taken_over(ops),
{
    lemma_books_balance(s, ptr, ops);
    lemma_drained(s, ptr);
    lemma_drained(Ledger::open(s).run(ptr, ops).state, ptr);
}

/// Where nothing was owed on the object at the start and every handle came
/// with a unit of its own, the count after the last handle is given up and
/// the registry is drained is the count at the start.
pub proof fn lemma_balance_restores_count(s: RuntimeState, ptr: usize, ops: Seq<HandleOp>)
    requires
        s.wf(),
        s.owed(ptr) == 0,
        taken_over(ops) == 0,
        Ledger::open(s).admits(ptr, ops),
        Ledger::open(s).run(ptr, ops).handles == 0,
    ensures
        Ledger::open(s).run(ptr, ops).state.drained().refcnt(ptr) == s.refcnt(ptr),
{
    lemma_balance(s, ptr, ops);
    lemma_drained(s, ptr);
}

/// A handle that is given up while the lock is not held leaves the count as
/// it is and adds one entry to the registry. The next taking of the lock
/// carries that release out, together with whatever else was owed: the
/// registry is empty after it, and where nothing else was owed on the
/// object, its count is down by exactly one.
pub proof fn lemma_deferred_release(s: RuntimeState, ptr: usize)
    requires
        s.wf(),
        !s.gil_held,
        s.held_units(ptr) > 0,
    ensures
        s.give_up(ptr).refcnt(ptr) == s.refcnt(ptr),
        s.give_up(ptr).pending == s.pending.push(ptr),
        s.give_up(ptr).acquire().gil_held,
        s.give_up(ptr).acquire().pending == Seq::<usize>::empty(),
        s.give_up(ptr).acquire().refcnt(ptr) == s.refcnt(ptr) - s.owed(ptr) - 1,
        forall|q: usize| q != ptr ==> s.give_up(ptr).acquire().refcnt(q) == s.acquire().refcnt(q),
{
    lemma_give_up(s, ptr);
    lemma_drained(s.give_up(ptr), ptr);
    assert forall|q: usize| q != ptr implies s.give_up(ptr).acquire().refcnt(q) == s.acquire().refcnt(
        q,
    ) by {
        lemma_occurrences_push(s.pending, ptr, q);
    }
}

/// A typed handle that is turned into an erased one and extracted again as
/// the same type comes back as the handle that it was. The extraction adds
/// the unit of the handle that comes back; once the erased handle has given
/// up the unit that it carried, the runtime is as it was before.
pub proof fn lemma_erasure_round_trip<T: PyTypeInfo>(
    s: RuntimeState,
    typed: Py<T>,
    r: PyResult<Py<T>>,
    after: RuntimeState,
)
    requires
        s.wf(),
        s.gil_held,
        s.is_instance(typed@, T::TYPE_ID),
        extracted::<T>(s, PyObject::from_spec(typed)@, r, after),
    ensures
        PyObject::from_spec(typed)@ == typed@,
        r == Ok::<Py<T>, PyErr>(typed),
        after.refcnt(typed@) == s.refcnt(typed@) + 1,
        after.give_up(PyObject::from_spec(typed)@) == s,
{
    PyObject::lemma_from_not_null(typed.non_null());
    Py::lemma_view_injective(r->Ok_0, typed);
    assert(after.give_up(typed@).objects =~= s.objects);
}

/// An extraction as a type that the object is not an instance of names the
/// mismatch and leaves the runtime as it was: the erased handle holds its
/// unit as before, and nothing is owed that was not owed.
pub proof fn lemma_extract_mismatch<T: PyTypeInfo>(
    s: RuntimeState,
    ob: usize,
    r: PyResult<Py<T>>,
    after: RuntimeState,
)
    requires
        !s.is_instance(ob, T::TYPE_ID),
        extracted::<T>(s, ob, r, after),
    ensures
        r == Err::<Py<T>, PyErr>(
            PyErr::TypeMismatch { expected: T::TYPE_ID, found: s.objects[ob].type_id },
        ),
        after == s,
        after.held_units(ob) == s.held_units(ob),
{
}

} // verus!
