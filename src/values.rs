//! WebAssembly values and their kinds.

use vstd::prelude::*;

verus! {

/// The closed set of WebAssembly value kinds.
#[derive(Debug, Clone, Copy, PartialEq, Eq, Structural)]
pub enum ValType {
    I32,
    I64,
    F32,
    F64,
    AnyRef,
    FuncRef,
}

impl ValType {
    /// Kinds whose values are plain numbers held in a fixed-size cell.
    pub open spec fn is_num(self) -> bool {
        self is I32 || self is I64 || self is F32 || self is F64
    }

    pub fn is_num_exec(&self) -> (r: bool)
        ensures
            r == self.is_num(),
    {
        match self {
            ValType::I32 | ValType::I64 | ValType::F32 | ValType::F64 => true,
            _ => false,
        }
    }
}

/// A WebAssembly value. Floats are carried as their IEEE 754 bit patterns;
/// references are either null (`None`) or an opaque handle.
#[derive(Debug, Clone, Copy, PartialEq, Eq, Structural)]
pub enum Val {
    I32(i32),
    I64(i64),
    F32(u32),
    F64(u64),
    AnyRef(Option<u64>),
    FuncRef(Option<u64>),
}

impl Val {
    pub open spec fn kind(self) -> ValType {
        match self {
            Val::I32(_) => ValType::I32,
            Val::I64(_) => ValType::I64,
            Val::F32(_) => ValType::F32,
            Val::F64(_) => ValType::F64,
            Val::AnyRef(_) => ValType::AnyRef,
            Val::FuncRef(_) => ValType::FuncRef,
        }
    }

    /// The kind of this value.
    pub fn ty(&self) -> (r: ValType)
        ensures
            r == self.kind(),
    {
        match self {
            Val::I32(_) => ValType::I32,
            Val::I64(_) => ValType::I64,
            Val::F32(_) => ValType::F32,
            Val::F64(_) => ValType::F64,
            Val::AnyRef(_) => ValType::AnyRef,
            Val::FuncRef(_) => ValType::FuncRef,
        }
    }

    /// A 32-bit float value from its bit pattern.
    pub fn from_f32_bits(bits: u32) -> (r: Val)
        ensures
            r == Val::F32(bits),
    {
        Val::F32(bits)
    }

    /// A 64-bit float value from its bit pattern.
    pub fn from_f64_bits(bits: u64) -> (r: Val)
        ensures
            r == Val::F64(bits),
    {
        Val::F64(bits)
    }

    /// The null reference, which is also the value a fresh result slot holds.
    pub open spec fn null() -> Val {
        Val::AnyRef(None)
    }
}

impl Default for Val {
    fn default() -> (r: Val)
        ensures
            r == Val::null(),
    {
        Val::AnyRef(None)
    }
}

/// A failure raised while executing a function.
pub struct Trap {
    message: String,
}

impl Trap {
    pub closed spec fn msg(&self) -> Seq<char> {
        self.message@
    }

    pub fn new(message: String) -> (r: Trap)
        ensures
            r.msg() == message@,
    {
        Trap { message }
    }

    pub fn message(&self) -> (r: &str)
        ensures
            r@ == self.msg(),
    {
        self.message.as_str()
    }
}

} // verus!
