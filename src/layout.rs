//! Size and alignment of a requested block.
use vstd::prelude::*;

verus! {

/// `n` is a power of two (1, 2, 4, ...).
pub open spec fn is_pow2(n: nat) -> bool
    decreases n,
{
    if n == 1 {
        true
    } else if n == 0 || n % 2 == 1 {
        false
    } else {
        is_pow2(n / 2)
    }
}

/// Why a size/alignment pair was refused.
#[derive(Clone, Copy, Debug, PartialEq, Eq, Structural)]
pub enum LayoutError {
    /// The alignment is not a power of two.
    AlignNotPowerOfTwo,
}

/// A request for `size` bytes aligned to `align` bytes.
#[derive(Clone, Copy, Debug, PartialEq, Eq, Structural)]
pub struct Layout {
    size: usize,
    align: usize,
}

impl Layout {
    pub closed spec fn spec_size(self) -> usize {
        self.size
    }

    pub closed spec fn spec_align(self) -> usize {
        self.align
    }

    /// Every layout has a power-of-two alignment.
    pub open spec fn wf(self) -> bool {
        is_pow2(self.spec_align() as nat)
    }

    /// Builds a layout; the alignment must be a power of two. A size of zero
    /// is accepted.
    pub fn from_size_align(size: usize, align: usize) -> (r: Result<Layout, LayoutError>)
        ensures
            r is Ok <==> is_pow2(align as nat),
            r matches Ok(l) ==> l.wf() && l.spec_size() == size && l.spec_align() == align,
            r matches Err(e) ==> e == LayoutError::AlignNotPowerOfTwo,
    {
        if align == 0 {
            return Err(LayoutError::AlignNotPowerOfTwo);
        }
        let mut a: usize = align;
        while a > 1 && a % 2 == 0
            invariant
                a >= 1,
                is_pow2(a as nat) == is_pow2(align as nat),
            decreases a,
        {
            a = a / 2;
        }
        if a == 1 {
            Ok(Layout { size, align })
        } else {
            Err(LayoutError::AlignNotPowerOfTwo)
        }
    }

    pub fn size(&self) -> (r: usize)
        ensures
            r == self.spec_size(),
    {
        self.size
    }

    pub fn align(&self) -> (r: usize)
        ensures
            r == self.spec_align(),
    {
        self.align
    }
}

/// A power of two no greater than 8 is one of 1, 2, 4 and 8.
pub proof fn lemma_small_pow2(a: nat)
    requires
        is_pow2(a),
        a <= 8,
    ensures
        a == 1 || a == 2 || a == 4 || a == 8,
{
    reveal_with_fuel(is_pow2, 4);
}

} // verus!
