//! Type descriptors of the four kinds of external entities.

use vstd::prelude::*;
use crate::values::ValType;

verus! {

/// Whether a global may be written after creation.
#[derive(Debug, Clone, Copy, PartialEq, Eq, Structural)]
pub enum Mutability {
    Const,
    Var,
}

/// Size limits of a table (in elements) or a memory (in pages);
/// `u32::MAX` as maximum means "no declared maximum".
#[derive(Debug, Clone, Copy, PartialEq, Eq, Structural)]
pub struct Limits {
    pub min: u32,
    pub max: u32,
}

impl Limits {
    pub fn new(min: u32, max: u32) -> (r: Limits)
        ensures
            r == (Limits { min, max }),
    {
        Limits { min, max }
    }

    /// Limits with a minimum and no declared maximum.
    pub fn at_least(min: u32) -> (r: Limits)
        ensures
            r == (Limits { min, max: u32::MAX }),
    {
        Limits { min, max: u32::MAX }
    }

    pub fn min(&self) -> (r: u32)
        ensures
            r == self.min,
    {
        self.min
    }

    pub fn max(&self) -> (r: u32)
        ensures
            r == self.max,
    {
        self.max
    }
}

/// Parameter and result kinds of a function.
#[derive(Debug, Clone)]
pub struct FuncType {
    pub params: Vec<ValType>,
    pub results: Vec<ValType>,
}

impl FuncType {
    pub fn new(params: Vec<ValType>, results: Vec<ValType>) -> (r: FuncType)
        ensures
            r.params@ == params@,
            r.results@ == results@,
    {
        FuncType { params, results }
    }

    pub fn params(&self) -> (r: &[ValType])
        ensures
            r@ == self.params@,
    {
        self.params.as_slice()
    }

    pub fn results(&self) -> (r: &[ValType])
        ensures
            r@ == self.results@,
    {
        self.results.as_slice()
    }

    /// A copy with the same parameter and result kinds.
    pub fn duplicate(&self) -> (r: FuncType)
        ensures
            r.params@ == self.params@,
            r.results@ == self.results@,
    {
        let params = self.params.clone();
        let results = self.results.clone();
        assert(params@ =~= self.params@);
        assert(results@ =~= self.results@);
        FuncType { params, results }
    }
}

/// Content kind and mutability of a global.
#[derive(Debug, Clone, Copy, PartialEq, Eq, Structural)]
pub struct GlobalType {
    pub content: ValType,
    pub mutability: Mutability,
}

impl GlobalType {
    pub fn new(content: ValType, mutability: Mutability) -> (r: GlobalType)
        ensures
            r == (GlobalType { content, mutability }),
    {
        GlobalType { content, mutability }
    }

    pub fn content(&self) -> (r: ValType)
        ensures
            r == self.content,
    {
        self.content
    }

    pub fn mutability(&self) -> (r: Mutability)
        ensures
            r == self.mutability,
    {
        self.mutability
    }
}

/// Element kind and size limits of a table.
#[derive(Debug, Clone, Copy, PartialEq, Eq, Structural)]
pub struct TableType {
    pub element: ValType,
    pub limits: Limits,
}

impl TableType {
    pub fn new(element: ValType, limits: Limits) -> (r: TableType)
        ensures
            r == (TableType { element, limits }),
    {
        TableType { element, limits }
    }

    pub fn element(&self) -> (r: ValType)
        ensures
            r == self.element,
    {
        self.element
    }

    pub fn limits(&self) -> (r: Limits)
        ensures
            r == self.limits,
    {
        self.limits
    }
}

/// Page limits of a linear memory.
#[derive(Debug, Clone, Copy, PartialEq, Eq, Structural)]
pub struct MemoryType {
    pub limits: Limits,
}

impl MemoryType {
    pub fn new(limits: Limits) -> (r: MemoryType)
        ensures
            r == (MemoryType { limits }),
    {
        MemoryType { limits }
    }

    pub fn limits(&self) -> (r: Limits)
        ensures
            r == self.limits,
    {
        self.limits
    }
}

/// The type of an external entity, tagged by its kind.
#[derive(Debug, Clone)]
pub enum ExternType {
    ExternFunc(FuncType),
    ExternGlobal(GlobalType),
    ExternTable(TableType),
    ExternMemory(MemoryType),
}

} // verus!
