//! `Extern`: one of the four kinds of entities an instance exposes.

use vstd::prelude::*;
use crate::func::{Callable, Func};
use crate::global::Global;
use crate::memory::Memory;
use crate::table::Table;
use crate::types::ExternType;

verus! {

/// A function, global, table or memory.
pub enum Extern<C> {
    Func(Func<C>),
    Global(Global),
    Table(Table),
    Memory(Memory),
}

/// The type an entity reports, tagged by its kind.
pub open spec fn extern_type_matches<C: Callable>(e: Extern<C>, t: ExternType) -> bool {
    match e {
        Extern::Func(f) => t is ExternFunc && t->ExternFunc_0.params@ == f.ftype_params()
            && t->ExternFunc_0.results@ == f.ftype_results(),
        Extern::Global(g) => t == ExternType::ExternGlobal(g.gtype()),
        Extern::Table(tb) => t == ExternType::ExternTable(tb.ttype()),
        Extern::Memory(m) => t == ExternType::ExternMemory(m.mtype()),
    }
}

impl<C: Callable> Extern<C> {
    /// The function held; the entity must be a function.
    pub fn func(&self) -> (r: &Func<C>)
        requires
            self is Func,
        ensures
            *r == self->Func_0,
    {
        match self {
            Extern::Func(func) => func,
            _ => vstd::pervasive::unreached(),
        }
    }

    /// The global held; the entity must be a global.
    pub fn global(&self) -> (r: &Global)
        requires
            self is Global,
        ensures
            *r == self->Global_0,
    {
        match self {
            Extern::Global(global) => global,
            _ => vstd::pervasive::unreached(),
        }
    }

    /// The table held; the entity must be a table.
    pub fn table(&self) -> (r: &Table)
        requires
            self is Table,
        ensures
            *r == self->Table_0,
    {
        match self {
            Extern::Table(table) => table,
            _ => vstd::pervasive::unreached(),
        }
    }

    /// The memory held; the entity must be a memory.
    pub fn memory(&self) -> (r: &Memory)
        requires
            self is Memory,
        ensures
            *r == self->Memory_0,
    {
        match self {
            Extern::Memory(memory) => memory,
            _ => vstd::pervasive::unreached(),
        }
    }

    /// The type of the entity, tagged by its kind.
    pub fn ty(&self) -> (r: ExternType)
        ensures
            extern_type_matches(*self, r),
    {
        match self {
            Extern::Func(f) => ExternType::ExternFunc(f.ty().duplicate()),
            Extern::Memory(m) => ExternType::ExternMemory(*m.ty()),
            Extern::Table(t) => ExternType::ExternTable(*t.ty()),
            Extern::Global(g) => ExternType::ExternGlobal(*g.ty()),
        }
    }
}

/// The type an entity reports carries the tag of the accessor that reaches
/// it: a function reports a function type, a global a global type, a table a
/// table type and a memory a memory type.
pub proof fn lemma_extern_type_tag<C: Callable>(e: Extern<C>, t: ExternType)
    requires
        extern_type_matches(e, t),
    ensures
        e is Func <==> t is ExternFunc,
        e is Global <==> t is ExternGlobal,
        e is Table <==> t is ExternTable,
        e is Memory <==> t is ExternMemory,
        e is Global ==> t->ExternGlobal_0 == e->Global_0.gtype(),
        e is Table ==> t->ExternTable_0 == e->Table_0.ttype(),
        e is Memory ==> t->ExternMemory_0 == e->Memory_0.mtype(),
{
}

} // verus!
