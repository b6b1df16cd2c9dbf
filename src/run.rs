//! What an emitted builder does when the program runs: `new` leaves every
//! keyword slot empty, each setter fills one, and `call` binds the values
//! for the body or stops at the first required slot left empty.
use crate::builder::{builds, BuilderDecl};
use crate::func::KwargsFn;
use vstd::prelude::*;

verus! {

/// A builder value over argument values of type `V`: the ordinary
/// arguments, then one slot per required and per optional keyword argument,
/// in the order of the builder's setters.
pub struct BuilderRun<V> {
    pub args: Vec<V>,
    pub required: Vec<Option<V>>,
    pub optional: Vec<Option<V>>,
}

/// The values that `call` binds before it runs the body.
pub struct Bindings<V> {
    pub args: Vec<V>,
    pub required: Vec<V>,
    pub optional: Vec<Option<V>>,
}

/// `n` empty slots.
pub open spec fn empty_slots<V>(n: nat) -> Seq<Option<V>> {
    Seq::new(n, |i: int| None::<V>)
}

/// Every slot is filled.
pub open spec fn all_set<V>(slots: Seq<Option<V>>) -> bool {
    forall|i: int| 0 <= i < slots.len() ==> (#[trigger] slots[i]) is Some
}

/// The values of filled slots.
pub open spec fn unwrapped<V>(slots: Seq<Option<V>>) -> Seq<V> {
    Seq::new(slots.len(), |i: int| slots[i]->0)
}

/// The slots after the setter calls `sets` (slot, value), in order.
pub open spec fn apply_sets<V>(slots: Seq<Option<V>>, sets: Seq<(int, V)>) -> Seq<Option<V>>
    decreases sets.len(),
{
    if sets.len() == 0 {
        slots
    } else {
        let (i, v) = sets.last();
        apply_sets(slots, sets.drop_last()).update(i, Some(v))
    }
}

/// Whether some call in `sets` fills slot `i`.
pub open spec fn sets_slot<V>(sets: Seq<(int, V)>, i: int) -> bool {
    exists|k: int| 0 <= k < sets.len() && (#[trigger] sets[k]).0 == i
}

impl<V> BuilderRun<V> {
    /// The builder that the stub returns: the ordinary arguments stored,
    /// every keyword slot empty.
    pub fn new(decl: &BuilderDecl, args: Vec<V>) -> (r: Self)
        requires
            args@.len() == decl.args@.len(),
        ensures
            r.args@ == args@,
            r.required@ == empty_slots::<V>(decl.required@.len()),
            r.optional@ == empty_slots::<V>(decl.optional@.len()),
    {
        BuilderRun {
            args,
            required: empty(decl.required.len()),
            optional: empty(decl.optional.len()),
        }
    }

    /// The setter of the `i`-th required keyword argument.
    pub fn set_required(self, i: usize, v: V) -> (r: Self)
        requires
            i < self.required@.len(),
        ensures
            r.args@ == self.args@,
            r.required@ == self.required@.update(i as int, Some(v)),
            r.optional@ == self.optional@,
    {
        let mut s = self;
        s.required.set(i, Some(v));
        s
    }

    /// The setter of the `i`-th optional keyword argument.
    pub fn set_optional(self, i: usize, v: V) -> (r: Self)
        requires
            i < self.optional@.len(),
        ensures
            r.args@ == self.args@,
            r.required@ == self.required@,
            r.optional@ == self.optional@.update(i as int, Some(v)),
    {
        let mut s = self;
        s.optional.set(i, Some(v));
        s
    }

    /// The terminal call: binds the ordinary arguments and the optional
    /// slots as they are and the values of the required slots. Where a
    /// required slot is empty the emitted code panics; here the result is
    /// `Err` with the position of the first such slot.
    pub fn call(self) -> (r: Result<Bindings<V>, usize>)
        ensures
            match r {
                Ok(b) => all_set(self.required@) && b.args@ == self.args@ && b.required@
                    == unwrapped(self.required@) && b.optional@ == self.optional@,
                Err(i) => i < self.required@.len() && self.required@[i as int] is None && forall|
                    j: int,
                | 0 <= j < i ==> (#[trigger] self.required@[j]) is Some,
            },
    {
        let ghost slots = self.required@;
        let BuilderRun { args, required, optional } = self;
        let n: usize = required.len();
        let mut rest = required;
        let mut values: Vec<V> = Vec::new();
        let mut i: usize = 0;
        while rest.len() > 0
            invariant
                slots == self.required@,
                slots.len() == n,
                i + rest@.len() == slots.len(),
                rest@ == slots.skip(i as int),
                values@.len() == i,
                forall|j: int| 0 <= j < i ==> (#[trigger] slots[j]) is Some,
                forall|j: int| 0 <= j < i ==> values@[j] == (#[trigger] slots[j])->0,
            decreases rest.len(),
        {
            assert(rest@[0] == slots[i as int]);
            let first = rest.remove(0);
            match first {
                Some(v) => {
                    values.push(v);
                },
                None => {
                    return Err(i);
                },
            }
            assert(rest@ =~= slots.skip(i + 1));
            i = i + 1;
        }
        assert(values@ =~= unwrapped(slots));
        Ok(Bindings { args, required: values, optional })
    }
}

proof fn lemma_apply_sets<V>(slots: Seq<Option<V>>, sets: Seq<(int, V)>)
    requires
        forall|k: int| 0 <= k < sets.len() ==> 0 <= (#[trigger] sets[k]).0 < slots.len(),
        forall|k: int, l: int| 0 <= k < l < sets.len() ==> (#[trigger] sets[k]).0 != (#[trigger] sets[l]).0,
    ensures
        apply_sets(slots, sets).len() == slots.len(),
        forall|k: int| 0 <= k < sets.len() ==> apply_sets(slots, sets)[(#[trigger] sets[k]).0] == Some(sets[k].1),
        forall|i: int| 0 <= i < slots.len() && !sets_slot(sets, i) ==> apply_sets(slots, sets)[i] == slots[i],
    decreases sets.len(),
{
    if sets.len() > 0 {
        let front = sets.drop_last();
        assert forall|k: int| 0 <= k < front.len() implies 0 <= (#[trigger] front[k]).0 < slots.len() by {
            assert(front[k] == sets[k]);
        }
        assert forall|k: int, l: int| 0 <= k < l < front.len() implies (#[trigger] front[k]).0 != (#[trigger] front[l]).0 by {
            assert(front[k] == sets[k] && front[l] == sets[l]);
        }
        lemma_apply_sets(slots, front);
        let last = sets.len() - 1;
        assert forall|k: int| 0 <= k < sets.len() implies apply_sets(slots, sets)[(#[trigger] sets[k]).0] == Some(sets[k].1) by {
            if k < last {
                assert(front[k] == sets[k]);
                assert(sets[k].0 != sets[last].0);
            }
        }
        assert forall|i: int| 0 <= i < slots.len() && !sets_slot(sets, i) implies apply_sets(slots, sets)[i] == slots[i] by {
            assert(sets[last].0 != i);
            if sets_slot(front, i) {
                let k = choose|k: int| 0 <= k < front.len() && (#[trigger] front[k]).0 == i;
                assert(sets[k] == front[k]);
            }
        }
    }
}

/// Setting every required keyword argument once, in any order, and then
/// calling the builder binds each argument to exactly the value that was
/// given for it.
pub proof fn law_round_trip<V>(n: nat, sets: Seq<(int, V)>)
    requires
        forall|i: int| 0 <= i < n ==> sets_slot(sets, i),
        forall|k: int| 0 <= k < sets.len() ==> 0 <= (#[trigger] sets[k]).0 < n,
        forall|k: int, l: int| 0 <= k < l < sets.len() ==> (#[trigger] sets[k]).0 != (#[trigger] sets[l]).0,
    ensures
        all_set(apply_sets(empty_slots::<V>(n), sets)),
        forall|k: int|
            0 <= k < sets.len() ==> unwrapped(apply_sets(empty_slots::<V>(n), sets))[(#[trigger] sets[k]).0]
                == sets[k].1,
{
    let slots = empty_slots::<V>(n);
    lemma_apply_sets(slots, sets);
    let after = apply_sets(slots, sets);
    assert forall|i: int| 0 <= i < after.len() implies (#[trigger] after[i]) is Some by {
        assert(sets_slot(sets, i));
        let k = choose|k: int| 0 <= k < sets.len() && (#[trigger] sets[k]).0 == i;
        assert(after[sets[k].0] == Some(sets[k].1));
    }
}

/// A required keyword argument that no setter call fills leaves its slot
/// empty, so the call stops there, whatever else was set.
pub proof fn law_missing_required<V>(n: nat, sets: Seq<(int, V)>, i: int)
    requires
        0 <= i < n,
        !sets_slot(sets, i),
        forall|k: int| 0 <= k < sets.len() ==> 0 <= (#[trigger] sets[k]).0 < n,
        forall|k: int, l: int| 0 <= k < l < sets.len() ==> (#[trigger] sets[k]).0 != (#[trigger] sets[l]).0,
    ensures
        apply_sets(empty_slots::<V>(n), sets)[i] is None,
        !all_set(apply_sets(empty_slots::<V>(n), sets)),
{
    lemma_apply_sets(empty_slots::<V>(n), sets);
}

/// A function whose marker is empty gets a builder without setters, and
/// calling a fresh one always succeeds and binds the ordinary arguments
/// alone, as a direct call of the function would.
pub proof fn law_no_keywords<V>(f: KwargsFn, d: BuilderDecl)
    requires
        f.kwargs.required@.len() == 0,
        f.kwargs.optional@.len() == 0,
        builds(f, d),
    ensures
        d.required@.len() == 0,
        d.optional@.len() == 0,
        all_set(empty_slots::<V>(d.required@.len())),
        unwrapped(empty_slots::<V>(d.required@.len())) == Seq::<V>::empty(),
{
    assert(unwrapped(empty_slots::<V>(d.required@.len())) =~= Seq::<V>::empty());
}

/// `n` empty slots.
fn empty<V>(n: usize) -> (r: Vec<Option<V>>)
    ensures
        r@ == empty_slots::<V>(n as nat),
{
    let mut out: Vec<Option<V>> = Vec::new();
    let mut i: usize = 0;
    while i < n
        invariant
            i <= n,
            out@ =~= empty_slots::<V>(i as nat),
        decreases n - i,
    {
        out.push(None);
        i = i + 1;
    }
    out
}

} // verus!
