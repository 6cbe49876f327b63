//! The capability-scoped allocator: each operation becomes exactly one call
//! into the native heap service, in the region of the handle's tag.
use core::marker::PhantomData;
use vstd::prelude::*;
use crate::caps::{Aligned32Bit, Caps, Dma, Internal, SpiRam};
use crate::heap::{HeapCall, Request, ZeroFill, NATURAL_ALIGN};
use crate::layout::{lemma_small_pow2, Layout};

verus! {

/// A stateless allocator handle whose every allocation lands in the region
/// selected by the tag `T`.
pub struct HeapCapsAlloc<T: Caps> {
    _t: PhantomData<T>,
}

/// Allocator of the region addressable only in 32-bit units.
pub fn alloc_aligned_32bit() -> (r: HeapCapsAlloc<Aligned32Bit>) {
    HeapCapsAlloc { _t: PhantomData }
}

/// Allocator of the DMA-capable region.
pub fn alloc_dma() -> (r: HeapCapsAlloc<Dma>) {
    HeapCapsAlloc { _t: PhantomData }
}

/// Allocator of internal RAM.
pub fn alloc_internal() -> (r: HeapCapsAlloc<Internal>) {
    HeapCapsAlloc { _t: PhantomData }
}

/// Allocator of external serial RAM.
pub fn alloc_spiram() -> (r: HeapCapsAlloc<SpiRam>) {
    HeapCapsAlloc { _t: PhantomData }
}

/// The call that a fresh allocation of `layout` in region `caps` makes:
/// the aligned entry point when the alignment exceeds the natural one,
/// the plain entry point otherwise.
pub open spec fn alloc_call(layout: Layout, caps: u32) -> HeapCall {
    if layout.spec_align() > NATURAL_ALIGN {
        HeapCall::AlignedAlloc { align: layout.spec_align(), size: layout.spec_size(), caps }
    } else {
        HeapCall::Malloc { size: layout.spec_size(), caps }
    }
}

/// The call that a zeroed allocation of `layout` in region `caps` makes:
/// `size` elements of one byte, through the zeroing entry points.
pub open spec fn calloc_call(layout: Layout, caps: u32) -> HeapCall {
    if layout.spec_align() > NATURAL_ALIGN {
        HeapCall::AlignedCalloc {
            align: layout.spec_align(),
            n: layout.spec_size(),
            size: 1,
            caps,
        }
    } else {
        HeapCall::Calloc { n: layout.spec_size(), size: 1, caps }
    }
}

/// The call that resizes the block at `ptr` to `new` in region `caps`.
/// The service takes no alignment here.
pub open spec fn realloc_call(ptr: usize, new: Layout, caps: u32) -> HeapCall {
    HeapCall::Realloc { addr: ptr, size: new.spec_size(), caps }
}

/// The request that `allocate` makes for `layout` in region `caps`.
pub open spec fn alloc_request(layout: Layout, caps: u32) -> Request {
    Request { call: alloc_call(layout, caps), len: layout.spec_size(), fill: None }
}

/// The request that `allocate_zeroed` makes for `layout` in region `caps`.
pub open spec fn calloc_request(layout: Layout, caps: u32) -> Request {
    Request { call: calloc_call(layout, caps), len: layout.spec_size(), fill: None }
}

/// The call that releases the block at `ptr`.
pub open spec fn free_call(ptr: usize) -> HeapCall {
    HeapCall::Free { addr: ptr }
}

/// The range that growing from `old` to `new` adds to a block.
pub open spec fn grown_tail(old: Layout, new: Layout) -> ZeroFill {
    ZeroFill { offset: old.spec_size(), len: (new.spec_size() - old.spec_size()) as usize }
}

impl<T: Caps> HeapCapsAlloc<T> {
    /// A handle of the region of `T`.
    pub fn new() -> (r: Self) {
        HeapCapsAlloc { _t: PhantomData }
    }

    /// The capability bitmask of the handle's region.
    pub fn caps(&self) -> (r: u32)
        ensures
            r == T::spec_caps(),
    {
        T::caps()
    }

    /// Allocates `layout.size()` bytes of uninitialised memory.
    pub fn allocate(&self, layout: Layout) -> (r: Request)
        ensures
            r == alloc_request(layout, T::spec_caps()),
    {
        let caps = T::caps();
        let call = if layout.align() > NATURAL_ALIGN {
            HeapCall::AlignedAlloc { align: layout.align(), size: layout.size(), caps }
        } else {
            HeapCall::Malloc { size: layout.size(), caps }
        };
        Request { call, len: layout.size(), fill: None }
    }

    /// Allocates `layout.size()` bytes that the service fills with zeros.
    pub fn allocate_zeroed(&self, layout: Layout) -> (r: Request)
        ensures
            r == calloc_request(layout, T::spec_caps()),
            r.call.zeroes(),
            r.call.requested_bytes() == layout.spec_size(),
    {
        let caps = T::caps();
        let call = if layout.align() > NATURAL_ALIGN {
            HeapCall::AlignedCalloc { align: layout.align(), n: layout.size(), size: 1, caps }
        } else {
            HeapCall::Calloc { n: layout.size(), size: 1, caps }
        };
        Request { call, len: layout.size(), fill: None }
    }

    /// Releases the block at `ptr`; release goes by the address alone.
    pub fn deallocate(&self, ptr: usize, layout: Layout) -> (r: HeapCall)
        requires
            ptr != 0,
        ensures
            r == free_call(ptr),
    {
        HeapCall::Free { addr: ptr }
    }

    /// Grows the block at `ptr` from `old` to `new`; the service keeps the
    /// first `old.size()` bytes and may move the block.
    pub fn grow(&self, ptr: usize, old: Layout, new: Layout) -> (r: Request)
        requires
            ptr != 0,
            new.spec_size() >= old.spec_size(),
        ensures
            r.call == realloc_call(ptr, new, T::spec_caps()),
            r.len == new.spec_size(),
            r.fill is None,
    {
        Request {
            call: HeapCall::Realloc { addr: ptr, size: new.size(), caps: T::caps() },
            len: new.size(),
            fill: None,
        }
    }

    /// Grows the block at `ptr` from `old` to `new`, then has the added
    /// bytes `[old.size(), new.size())` set to zero. Nothing is zeroed when
    /// the resize fails.
    pub fn grow_zeroed(&self, ptr: usize, old: Layout, new: Layout) -> (r: Request)
        requires
            ptr != 0,
            new.spec_size() >= old.spec_size(),
        ensures
            r.call == realloc_call(ptr, new, T::spec_caps()),
            r.len == new.spec_size(),
            r.fill == Some(grown_tail(old, new)),
    {
        let g = self.grow(ptr, old, new);
        let tail = ZeroFill { offset: old.size(), len: new.size() - old.size() };
        Request { call: g.call, len: g.len, fill: Some(tail) }
    }

    /// Shrinks the block at `ptr` from `old` to `new`; the service keeps the
    /// first `new.size()` bytes and may move the block.
    pub fn shrink(&self, ptr: usize, old: Layout, new: Layout) -> (r: Request)
        requires
            ptr != 0,
            new.spec_size() <= old.spec_size(),
        ensures
            r.call == realloc_call(ptr, new, T::spec_caps()),
            r.len == new.spec_size(),
            r.fill is None,
    {
        Request {
            call: HeapCall::Realloc { addr: ptr, size: new.size(), caps: T::caps() },
            len: new.size(),
            fill: None,
        }
    }
}

/// A fresh allocation in any region, zeroed or not, either fails or yields
/// a block of exactly the requested size whose address is a multiple of the
/// requested alignment, given that the service returns addresses with the
/// alignment its entry point documents.
pub proof fn lemma_allocation_aligned(layout: Layout, caps: u32, zeroed: bool, returned: usize)
    requires
        layout.wf(),
        (if zeroed {
            calloc_call(layout, caps)
        } else {
            alloc_call(layout, caps)
        }).honours_align(returned),
    ensures
        ({
            let req = if zeroed {
                calloc_request(layout, caps)
            } else {
                alloc_request(layout, caps)
            };
            match req.outcome(returned) {
                Ok(g) => g.block.addr as nat % layout.spec_align() as nat == 0
                    && g.block.len == layout.spec_size(),
                Err(e) => returned == 0,
            }
        }),
{
    let a = layout.spec_align() as nat;
    if returned != 0 && a <= NATURAL_ALIGN {
        lemma_small_pow2(a);
        let x = returned as nat;
        assert(x % 8 == 0);
        assert(x % a == 0) by (nonlinear_arith)
            requires
                x % 8 == 0,
                a == 1 || a == 2 || a == 4 || a == 8,
        ;
    }
}

/// After a successful `grow` the first `old.size()` bytes of the block equal
/// the old contents, given that the service's resize keeps the bytes that
/// the old and the new block share.
pub proof fn lemma_grow_keeps_prefix(
    ptr: usize,
    old: Layout,
    new: Layout,
    caps: u32,
    before: Seq<u8>,
    after: Seq<u8>,
)
    requires
        new.spec_size() >= old.spec_size(),
        before.len() == old.spec_size(),
        realloc_call(ptr, new, caps).keeps_contents(before, after),
    ensures
        after.len() == new.spec_size(),
        after.subrange(0, old.spec_size() as int) == before,
{
    assert(before.subrange(0, old.spec_size() as int) =~= before);
}

/// After a successful `shrink` the block holds the first `new.size()` bytes
/// of the old contents, given that the service's resize keeps the bytes that
/// the old and the new block share.
pub proof fn lemma_shrink_keeps_prefix(
    ptr: usize,
    old: Layout,
    new: Layout,
    caps: u32,
    before: Seq<u8>,
    after: Seq<u8>,
)
    requires
        new.spec_size() <= old.spec_size(),
        before.len() == old.spec_size(),
        realloc_call(ptr, new, caps).keeps_contents(before, after),
    ensures
        after == before.subrange(0, new.spec_size() as int),
{
    assert(after.subrange(0, new.spec_size() as int) =~= after);
}

/// After a successful `grow_zeroed` the block holds the old contents in
/// `[0, old.size())` and zeros in `[old.size(), new.size())`, given that the
/// service's resize keeps the bytes that the old and the new block share.
pub proof fn lemma_grow_zeroed_contents(
    ptr: usize,
    old: Layout,
    new: Layout,
    caps: u32,
    before: Seq<u8>,
    moved: Seq<u8>,
)
    requires
        new.spec_size() >= old.spec_size(),
        before.len() == old.spec_size(),
        realloc_call(ptr, new, caps).keeps_contents(before, moved),
    ensures
        ({
            let after = grown_tail(old, new).apply(moved);
            &&& after.len() == new.spec_size()
            &&& after.subrange(0, old.spec_size() as int) == before
            &&& forall|i: int| old.spec_size() <= i < new.spec_size() ==> after[i] == 0
        }),
{
    lemma_grow_keeps_prefix(ptr, old, new, caps, before, moved);
    let after = grown_tail(old, new).apply(moved);
    assert(after.subrange(0, old.spec_size() as int) =~= moved.subrange(0, old.spec_size() as int));
}

/// Releasing a block that `allocate` or `allocate_zeroed` handed out frees
/// exactly the address the service returned for it.
pub proof fn lemma_deallocate_after_allocate(layout: Layout, caps: u32, zeroed: bool, returned: usize)
    requires
        returned != 0,
    ensures
        ({
            let req = if zeroed {
                calloc_request(layout, caps)
            } else {
                alloc_request(layout, caps)
            };
            req.outcome(returned) matches Ok(g) && free_call(g.block.addr) == (HeapCall::Free {
                addr: returned,
            })
        }),
{
}

} // verus!
