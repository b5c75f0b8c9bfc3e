//! Tables: growable arrays of function references.

use vstd::prelude::*;
use crate::types::TableType;
use crate::values::{Val, ValType};

verus! {

/// What an empty slot holds, and what a read outside the table returns:
/// the null function reference.
pub open spec fn absent() -> Val {
    Val::FuncRef(None)
}

/// The element a read at `i` returns.
pub open spec fn table_get(elems: Seq<Val>, i: int) -> Val {
    if 0 <= i < elems.len() {
        elems[i]
    } else {
        absent()
    }
}

/// Outcome and elements after a write of `v` at `i`: only an index inside
/// the table is written.
pub open spec fn table_set(elems: Seq<Val>, i: int, v: Val) -> (bool, Seq<Val>) {
    if 0 <= i < elems.len() {
        (true, elems.update(i, v))
    } else {
        (false, elems)
    }
}

/// Outcome and elements after growing by `delta` slots filled with `init`:
/// growth succeeds when the new length stays within the declared maximum.
pub open spec fn table_grow(elems: Seq<Val>, max: u32, delta: nat, init: Val) -> (bool, Seq<Val>) {
    if elems.len() + delta <= max {
        (true, elems + Seq::new(delta, |_j: int| init))
    } else {
        (false, elems)
    }
}

/// A table of function references.
pub struct Table {
    ty: TableType,
    elements: Vec<Val>,
}

impl Table {
    pub closed spec fn ttype(&self) -> TableType {
        self.ty
    }

    pub closed spec fn elems(&self) -> Seq<Val> {
        self.elements@
    }

    pub open spec fn wf(&self) -> bool {
        &&& self.ttype().element == ValType::FuncRef
        &&& self.elems().len() <= u32::MAX
    }

    /// A table of the given type, with `limits.min` slots, each holding the
    /// null function reference. The element kind must be the function
    /// reference kind. `_init` is not used: fresh slots are always empty.
    pub fn new(ty: TableType, _init: Val) -> (r: Table)
        requires
            ty.element == ValType::FuncRef,
        ensures
            r.wf(),
            r.ttype() == ty,
            r.elems() == Seq::new(ty.limits.min as nat, |_j: int| absent()),
    {
        let elements = vec![Val::FuncRef(None); ty.limits.min as usize];
        let r = Table { ty, elements };
        assert(r.elems() =~= Seq::new(ty.limits.min as nat, |_j: int| absent()));
        r
    }

    pub fn ty(&self) -> (r: &TableType)
        ensures
            *r == self.ttype(),
    {
        &self.ty
    }

    /// The element at `index`, or the null function reference when `index`
    /// is outside the table.
    pub fn get(&self, index: u32) -> (r: Val)
        ensures
            r == table_get(self.elems(), index as int),
    {
        if (index as usize) < self.elements.len() {
            self.elements[index as usize]
        } else {
            Val::FuncRef(None)
        }
    }

    /// Writes `val` at `index`; returns `false`, changing nothing, when
    /// `index` is outside the table.
    pub fn set(&mut self, index: u32, val: Val) -> (r: bool)
        requires
            val.kind() == ValType::FuncRef,
        ensures
            (r, final(self).elems()) == table_set(old(self).elems(), index as int, val),
            final(self).ttype() == old(self).ttype(),
    {
        if (index as usize) < self.elements.len() {
            self.elements.set(index as usize, val);
            true
        } else {
            false
        }
    }

    /// The number of elements.
    pub fn size(&self) -> (r: u32)
        requires
            self.wf(),
        ensures
            r == self.elems().len(),
    {
        self.elements.len() as u32
    }

    /// Adds `delta` slots holding `init`; returns `false`, changing nothing,
    /// when the new size would exceed the declared maximum.
    pub fn grow(&mut self, delta: u32, init: Val) -> (r: bool)
        requires
            old(self).wf(),
            init.kind() == ValType::FuncRef,
        ensures
            final(self).wf(),
            final(self).ttype() == old(self).ttype(),
            (r, final(self).elems()) == table_grow(
                old(self).elems(),
                old(self).ttype().limits.max,
                delta as nat,
                init,
            ),
    {
        let len = self.elements.len();
        let max = self.ty.limits.max as usize;
        if len > max || delta as usize > max - len {
            return false;
        }
        let ghost before = self.elements@;
        let mut k: u32 = 0;
        while k < delta
            invariant
                k <= delta,
                self.ty == old(self).ty,
                before == old(self).elems(),
                self.elements@ == before + Seq::new(k as nat, |_j: int| init),
            decreases delta - k,
        {
            self.elements.push(init);
            k = k + 1;
            assert(self.elements@ =~= before + Seq::new(k as nat, |_j: int| init));
        }
        true
    }
}

/// In a freshly created table of `n` slots, a read at any index at or past
/// `n` returns the null function reference, and a write there fails and
/// leaves the elements, hence the size, as they were.
pub proof fn lemma_fresh_table_out_of_range(n: nat, i: int, v: Val)
    requires
        i >= n,
    ensures
        table_get(Seq::new(n, |_j: int| absent()), i) == absent(),
        table_set(Seq::new(n, |_j: int| absent()), i, v) == (false, Seq::new(n, |_j: int| absent())),
        table_set(Seq::new(n, |_j: int| absent()), i, v).1.len() == n,
{
}

/// Growing a table with room for `delta` more elements succeeds, adds
/// exactly `delta` slots that read back as `init`, and keeps the old ones;
/// growing past the declared maximum fails and changes nothing.
pub proof fn lemma_table_grow(elems: Seq<Val>, max: u32, delta: nat, init: Val)
    ensures
        elems.len() + delta <= max ==> {
            let (ok, after) = table_grow(elems, max, delta, init);
            &&& ok
            &&& after.len() == elems.len() + delta
            &&& forall|i: int| elems.len() <= i < after.len() ==> table_get(after, i) == init
            &&& forall|i: int| 0 <= i < elems.len() ==> table_get(after, i) == table_get(elems, i)
        },
        elems.len() + delta > max ==> table_grow(elems, max, delta, init) == (false, elems),
{
}

} // verus!
