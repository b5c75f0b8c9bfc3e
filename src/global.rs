//! Globals: a typed cell holding one numeric value.

use vstd::prelude::*;
use crate::types::GlobalType;
use crate::values::{Val, ValType};

verus! {

/// Mask of the upper half of a cell, which a 32-bit write leaves in place.
pub const HIGH_HALF: u64 = 0xFFFF_FFFF_0000_0000;

/// The value a cell holds when read as the given numeric kind: 32-bit kinds
/// read the low four bytes, 64-bit kinds read all eight.
pub open spec fn read_cell(content: ValType, cell: u64) -> Val {
    match content {
        ValType::I32 => Val::I32(cell as u32 as i32),
        ValType::I64 => Val::I64(cell as i64),
        ValType::F32 => Val::F32(cell as u32),
        ValType::F64 => Val::F64(cell),
        _ => Val::null(),
    }
}

/// The cell after writing a numeric value: 32-bit kinds replace the low
/// four bytes only.
pub open spec fn write_cell(cell: u64, v: Val) -> u64 {
    match v {
        Val::I32(i) => (cell & HIGH_HALF) | (i as u32 as u64),
        Val::I64(i) => i as u64,
        Val::F32(f) => (cell & HIGH_HALF) | (f as u64),
        Val::F64(f) => f,
        _ => cell,
    }
}

/// A global variable. Its cell is owned by the global itself.
pub struct Global {
    ty: GlobalType,
    cell: u64,
}

impl Global {
    pub closed spec fn gtype(&self) -> GlobalType {
        self.ty
    }

    /// The raw bits of the backing cell.
    pub closed spec fn cell(&self) -> u64 {
        self.cell
    }

    /// Only numeric kinds can be held in a cell.
    pub open spec fn wf(&self) -> bool {
        self.gtype().content.is_num()
    }

    /// The value `get` reads.
    pub open spec fn value(&self) -> Val {
        read_cell(self.gtype().content, self.cell())
    }

    /// A global of the given type holding `val`.
    pub fn new(ty: GlobalType, val: Val) -> (r: Global)
        requires
            ty.content.is_num(),
            val.kind() == ty.content,
        ensures
            r.wf(),
            r.gtype() == ty,
            r.cell() == write_cell(0, val),
            r.value() == val,
    {
        let mut g = Global { ty, cell: 0 };
        g.set(val);
        g
    }

    pub fn ty(&self) -> (r: &GlobalType)
        ensures
            *r == self.gtype(),
    {
        &self.ty
    }

    /// Reads the cell according to the declared content kind.
    pub fn get(&self) -> (r: Val)
        requires
            self.wf(),
        ensures
            r == self.value(),
            r.kind() == self.gtype().content,
    {
        match self.ty.content {
            ValType::I32 => Val::I32(self.cell as u32 as i32),
            ValType::I64 => Val::I64(self.cell as i64),
            ValType::F32 => Val::from_f32_bits(self.cell as u32),
            _ => Val::from_f64_bits(self.cell),
        }
    }

    /// Writes `val` into the cell. The value's kind must be the declared
    /// content kind.
    pub fn set(&mut self, val: Val)
        requires
            old(self).gtype().content.is_num(),
            val.kind() == old(self).gtype().content,
        ensures
            final(self).gtype() == old(self).gtype(),
            final(self).cell() == write_cell(old(self).cell(), val),
            final(self).value() == val,
    {
        let c = self.cell;
        match val {
            Val::I32(i) => {
                self.cell = (c & HIGH_HALF) | (i as u32 as u64);
            },
            Val::I64(i) => {
                self.cell = i as u64;
            },
            Val::F32(f) => {
                self.cell = (c & HIGH_HALF) | (f as u64);
            },
            Val::F64(f) => {
                self.cell = f;
            },
            _ => {},
        }
        proof {
            lemma_read_after_write(c, val);
        }
    }
}

/// Reading a cell as the kind of the value last written to it gives that
/// value back, for every numeric kind.
pub proof fn lemma_read_after_write(cell: u64, v: Val)
    requires
        v.kind().is_num(),
    ensures
        read_cell(v.kind(), write_cell(cell, v)) == v,
{
    match v {
        Val::I32(i) => {
            let w = (cell & HIGH_HALF) | (i as u32 as u64);
            assert(((cell & 0xFFFF_FFFF_0000_0000u64) | (i as u32 as u64)) as u32 as i32 == i)
                by (bit_vector);
            assert(w as u32 as i32 == i);
        },
        Val::I64(i) => {
            assert((i as u64) as i64 == i) by (bit_vector);
        },
        Val::F32(f) => {
            assert(((cell & 0xFFFF_FFFF_0000_0000u64) | (f as u64)) as u32 == f) by (bit_vector);
        },
        _ => {},
    }
}

/// Round trip: `set` followed by `get` on a global returns the value written.
pub proof fn lemma_global_set_get(g: Global, v: Val)
    requires
        g.wf(),
        v.kind() == g.gtype().content,
    ensures
        read_cell(g.gtype().content, write_cell(g.cell(), v)) == v,
{
    lemma_read_after_write(g.cell(), v);
}

} // verus!
