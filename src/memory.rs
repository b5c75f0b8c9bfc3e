//! Linear memories: byte buffers sized in whole pages.

use vstd::prelude::*;
use crate::types::MemoryType;

verus! {

/// Bytes in one page of linear memory.
pub const WASM_PAGE_SIZE: u32 = 0x10000;

/// The most pages a linear memory can have.
pub const WASM_MAX_PAGES: u32 = 0x10000;

/// The most pages a memory with declared maximum `max` may reach.
pub open spec fn page_bound(max: u32) -> nat {
    if max < WASM_MAX_PAGES {
        max as nat
    } else {
        WASM_MAX_PAGES as nat
    }
}

/// Outcome and pages after growing a memory of `pages` pages by `delta`.
pub open spec fn memory_grow(pages: nat, max: u32, delta: nat) -> (bool, nat) {
    if pages + delta <= page_bound(max) {
        (true, pages + delta)
    } else {
        (false, pages)
    }
}

/// A linear memory, owning its bytes.
pub struct Memory {
    ty: MemoryType,
    bytes: Vec<u8>,
}

impl Memory {
    pub closed spec fn mtype(&self) -> MemoryType {
        self.ty
    }

    pub closed spec fn bytes(&self) -> Seq<u8> {
        self.bytes@
    }

    /// The number of pages.
    pub open spec fn pages(&self) -> nat {
        self.bytes().len() / (WASM_PAGE_SIZE as nat)
    }

    /// The byte length is a whole number of pages, at most the largest
    /// number of pages a memory can have.
    pub open spec fn wf(&self) -> bool {
        &&& self.bytes().len() % (WASM_PAGE_SIZE as nat) == 0
        &&& self.pages() <= WASM_MAX_PAGES
    }

    /// A memory of `limits.min` zeroed pages.
    pub fn new(ty: MemoryType) -> (r: Memory)
        requires
            ty.limits.min <= WASM_MAX_PAGES,
            ty.limits.min as nat * WASM_PAGE_SIZE as nat <= usize::MAX,
        ensures
            r.wf(),
            r.mtype() == ty,
            r.pages() == ty.limits.min,
            r.bytes() == Seq::new(ty.limits.min as nat * WASM_PAGE_SIZE as nat, |_j: int| 0u8),
    {
        let len = ty.limits.min as usize * WASM_PAGE_SIZE as usize;
        let bytes = vec![0u8; len];
        let r = Memory { ty, bytes };
        assert(r.bytes() =~= Seq::new(len as nat, |_j: int| 0u8));
        assert(len as nat / WASM_PAGE_SIZE as nat == ty.limits.min) by (nonlinear_arith)
            requires
                len == ty.limits.min as nat * 0x10000,
        ;
        assert(len as nat % WASM_PAGE_SIZE as nat == 0) by (nonlinear_arith)
            requires
                len == ty.limits.min as nat * 0x10000,
        ;
        r
    }

    pub fn ty(&self) -> (r: &MemoryType)
        ensures
            *r == self.mtype(),
    {
        &self.ty
    }

    /// The current contents. A later successful `grow` may move and extend
    /// them, so the view does not outlive the borrow.
    pub fn data(&self) -> (r: &[u8])
        ensures
            r@ == self.bytes(),
    {
        self.bytes.as_slice()
    }

    /// The current length in bytes.
    pub fn data_size(&self) -> (r: usize)
        ensures
            r == self.bytes().len(),
    {
        self.bytes.len()
    }

    /// The current length in pages.
    pub fn size(&self) -> (r: u32)
        requires
            self.wf(),
        ensures
            r == self.pages(),
    {
        (self.bytes.len() / WASM_PAGE_SIZE as usize) as u32
    }

    /// Adds `delta` zeroed pages. Returns `false`, changing nothing, when the
    /// declared maximum or the largest memory would be exceeded, or when the
    /// new length cannot be addressed on this machine.
    pub fn grow(&mut self, delta: u32) -> (r: bool)
        requires
            old(self).wf(),
        ensures
            final(self).wf(),
            final(self).mtype() == old(self).mtype(),
            r == (memory_grow(old(self).pages(), old(self).mtype().limits.max, delta as nat).0
                && (old(self).pages() + delta) * WASM_PAGE_SIZE as nat <= usize::MAX),
            r ==> final(self).pages() == old(self).pages() + delta,
            r ==> final(self).bytes() == old(self).bytes() + Seq::new(
                delta as nat * WASM_PAGE_SIZE as nat,
                |_j: int| 0u8,
            ),
            !r ==> *final(self) == *old(self),
    {
        let pages = self.bytes.len() / WASM_PAGE_SIZE as usize;
        let max = self.ty.limits.max;
        let bound: u64 = if max < WASM_MAX_PAGES {
            max as u64
        } else {
            WASM_MAX_PAGES as u64
        };
        let new_pages: u64 = pages as u64 + delta as u64;
        if new_pages > bound {
            return false;
        }
        let new_len: u64 = new_pages * WASM_PAGE_SIZE as u64;
        if new_len > usize::MAX as u64 {
            return false;
        }
        let ghost before = self.bytes@;
        let old_len = self.bytes.len();
        self.bytes.resize(new_len as usize, 0u8);
        proof {
            let p = pages as nat;
            let d = delta as nat;
            assert(before.len() == p * 0x10000) by (nonlinear_arith)
                requires
                    before.len() % 0x10000 == 0,
                    p == before.len() / 0x10000,
            ;
            assert(new_len == p * 0x10000 + d * 0x10000) by (nonlinear_arith)
                requires
                    new_len == (p + d) * 0x10000,
            ;
            assert(new_len as nat / 0x10000 == p + d && new_len as nat % 0x10000 == 0)
                by (nonlinear_arith)
                requires
                    new_len == (p + d) * 0x10000,
            ;
            if d > 0 {
                assert(self.bytes@ =~= before + Seq::new(d * 0x10000, |_j: int| 0u8)) by {
                    assert(self.bytes@.subrange(0, old_len as int) == before);
                    assert forall|i: int| 0 <= i < self.bytes@.len() implies self.bytes@[i] == (
                    before + Seq::new(d * 0x10000, |_j: int| 0u8))[i] by {
                        if i < old_len {
                            assert(self.bytes@.subrange(0, old_len as int)[i] == self.bytes@[i]);
                        }
                    }
                }
            } else {
                assert(self.bytes@ =~= before + Seq::new(d * 0x10000, |_j: int| 0u8));
            }
        }
        true
    }
}

/// A freshly created memory of `p` pages has size `p` and `p * 65536`
/// bytes.
pub proof fn lemma_fresh_memory_size(m: Memory, p: nat)
    requires
        m.bytes() == Seq::new(p * WASM_PAGE_SIZE as nat, |_j: int| 0u8),
    ensures
        m.pages() == p,
        m.bytes().len() == p * 65536,
{
    assert((p * 0x10000) / 0x10000 == p) by (nonlinear_arith);
}

/// Growing within capacity adds exactly `delta` pages; growing past it
/// fails and leaves the page count as it was.
pub proof fn lemma_memory_grow(pages: nat, max: u32, delta: nat)
    ensures
        pages + delta <= page_bound(max) ==> memory_grow(pages, max, delta) == (true, pages + delta),
        pages + delta > page_bound(max) ==> memory_grow(pages, max, delta) == (false, pages),
{
}

} // verus!
