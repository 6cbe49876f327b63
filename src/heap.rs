//! The native heap service's entry points, as calls to be made, and the
//! turning of their results into owned blocks.
use vstd::prelude::*;

verus! {

/// Alignment that the plain entry points guarantee without being asked.
pub const NATURAL_ALIGN: usize = 8;

/// One call into the native capability-flag heap service. Addresses are
/// plain integers; 0 is the null pointer.
#[derive(Clone, Copy, Debug, PartialEq, Eq, Structural)]
pub enum HeapCall {
    /// `heap_caps_malloc(size, caps)`
    Malloc { size: usize, caps: u32 },
    /// `heap_caps_aligned_alloc(align, size, caps)`
    AlignedAlloc { align: usize, size: usize, caps: u32 },
    /// `heap_caps_calloc(n, size, caps)`: `n * size` zeroed bytes.
    Calloc { n: usize, size: usize, caps: u32 },
    /// `heap_caps_aligned_calloc(align, n, size, caps)`: `n * size` zeroed bytes.
    AlignedCalloc { align: usize, n: usize, size: usize, caps: u32 },
    /// `heap_caps_realloc(addr, size, caps)`
    Realloc { addr: usize, size: usize, caps: u32 },
    /// `heap_caps_free(addr)`
    Free { addr: usize },
}

impl HeapCall {
    /// The alignment that the service guarantees for a non-null result of
    /// a fresh allocation made by this call.
    pub open spec fn guaranteed_align(self) -> nat {
        match self {
            HeapCall::AlignedAlloc { align, .. } => align as nat,
            HeapCall::AlignedCalloc { align, .. } => align as nat,
            _ => NATURAL_ALIGN as nat,
        }
    }

    /// The call hands out zero-filled memory.
    pub open spec fn zeroes(self) -> bool {
        self is Calloc || self is AlignedCalloc
    }

    /// Number of bytes the call asks for.
    pub open spec fn requested_bytes(self) -> nat {
        match self {
            HeapCall::Malloc { size, .. } => size as nat,
            HeapCall::AlignedAlloc { size, .. } => size as nat,
            HeapCall::Calloc { n, size, .. } => (n * size) as nat,
            HeapCall::AlignedCalloc { n, size, .. } => (n * size) as nat,
            HeapCall::Realloc { size, .. } => size as nat,
            HeapCall::Free { .. } => 0,
        }
    }

    /// Contents `after` of the block that a successful resize yields, given
    /// the contents `before` of the block it was handed: as long as asked,
    /// and equal to `before` on the bytes that both hold.
    pub open spec fn keeps_contents(self, before: Seq<u8>, after: Seq<u8>) -> bool {
        match self {
            HeapCall::Realloc { size, .. } => {
                let kept = if before.len() <= size as nat {
                    before.len() as int
                } else {
                    size as int
                };
                after.len() == size as nat && after.subrange(0, kept) == before.subrange(0, kept)
            },
            _ => false,
        }
    }

    /// A result of this call that the service's documented alignment allows:
    /// null, or an address that is a multiple of the guaranteed alignment.
    pub open spec fn honours_align(self, returned: usize) -> bool {
        returned == 0 || returned as nat % self.guaranteed_align() == 0
    }
}

/// The single failure of every operation: the service returned null.
#[derive(Clone, Copy, Debug, PartialEq, Eq, Structural)]
pub struct AllocError;

/// An owned block of memory: a non-null start address and a length in bytes.
#[derive(Clone, Copy, Debug, PartialEq, Eq, Structural)]
pub struct Block {
    pub addr: usize,
    pub len: usize,
}

impl Block {
    pub open spec fn wf(self) -> bool {
        self.addr != 0
    }
}

/// A byte range of a block, given relative to its start, to be set to zero.
#[derive(Clone, Copy, Debug, PartialEq, Eq, Structural)]
pub struct ZeroFill {
    pub offset: usize,
    pub len: usize,
}

impl ZeroFill {
    /// The contents `s` of a block after the range has been zeroed.
    pub open spec fn apply(self, s: Seq<u8>) -> Seq<u8> {
        Seq::new(
            s.len(),
            |i: int|
                if self.offset <= i < self.offset + self.len {
                    0u8
                } else {
                    s[i]
                },
        )
    }
}

/// A block handed to the caller, and a range of it that the caller must
/// zero-fill before use, if any.
#[derive(Clone, Copy, Debug, PartialEq, Eq, Structural)]
pub struct Grant {
    pub block: Block,
    pub fill: Option<ZeroFill>,
}

/// An allocator operation in flight: the call to make, the length of the
/// block it yields, and the range to zero-fill after it succeeds.
#[derive(Clone, Copy, Debug, PartialEq, Eq, Structural)]
pub struct Request {
    pub call: HeapCall,
    pub len: usize,
    pub fill: Option<ZeroFill>,
}

impl Request {
    /// What the operation yields once the service returned `returned`.
    pub open spec fn outcome(self, returned: usize) -> Result<Grant, AllocError> {
        if returned == 0 {
            Err(AllocError)
        } else {
            Ok(Grant { block: Block { addr: returned, len: self.len }, fill: self.fill })
        }
    }

    /// Completes the operation with the address the service returned: null
    /// is a failure, anything else a block of the requested length.
    pub fn finish(&self, returned: usize) -> (r: Result<Grant, AllocError>)
        ensures
            r == self.outcome(returned),
            r is Err <==> returned == 0,
            r matches Ok(g) ==> g.block.wf() && g.block.addr == returned && g.block.len
                == self.len && g.fill == self.fill,
    {
        if returned == 0 {
            Err(AllocError)
        } else {
            Ok(Grant { block: Block { addr: returned, len: self.len }, fill: self.fill })
        }
    }
}

} // verus!
