//! Capability tags: one marker type per heap region.
use vstd::prelude::*;
use crate::sealed::Sealed;

verus! {

/// Memory that can be accessed in 32-bit units only.
pub const MALLOC_CAP_32BIT: u32 = 0x2;

/// Memory that DMA engines can reach.
pub const MALLOC_CAP_DMA: u32 = 0x8;

/// External memory on the serial (SPI) RAM bus.
pub const MALLOC_CAP_SPIRAM: u32 = 0x400;

/// Memory inside the chip.
pub const MALLOC_CAP_INTERNAL: u32 = 0x800;

/// A compile-time marker that selects one heap region by its capability
/// bitmask. Only the tags of this crate implement it: a wrong bitmask would
/// silently route allocations to another region.
pub trait Caps: Sealed {
    /// The bitmask of the region.
    spec fn spec_caps() -> u32;

    fn caps() -> (r: u32)
        ensures
            r == Self::spec_caps(),
    ;
}

/// Tag of the region addressable only in 32-bit-aligned units.
pub struct Aligned32Bit;

/// Tag of the DMA-capable region.
pub struct Dma;

/// Tag of the internal RAM region.
pub struct Internal;

/// Tag of the external serial RAM region.
pub struct SpiRam;

impl Sealed for Aligned32Bit {}

impl Sealed for Dma {}

impl Sealed for Internal {}

impl Sealed for SpiRam {}

impl Caps for Aligned32Bit {
    open spec fn spec_caps() -> u32 {
        MALLOC_CAP_32BIT
    }

    fn caps() -> (r: u32) {
        MALLOC_CAP_32BIT
    }
}

impl Caps for Dma {
    open spec fn spec_caps() -> u32 {
        MALLOC_CAP_DMA
    }

    fn caps() -> (r: u32) {
        MALLOC_CAP_DMA
    }
}

impl Caps for Internal {
    open spec fn spec_caps() -> u32 {
        MALLOC_CAP_INTERNAL
    }

    fn caps() -> (r: u32) {
        MALLOC_CAP_INTERNAL
    }
}

impl Caps for SpiRam {
    open spec fn spec_caps() -> u32 {
        MALLOC_CAP_SPIRAM
    }

    fn caps() -> (r: u32) {
        MALLOC_CAP_SPIRAM
    }
}

/// The four tags select four different regions, each by a single capability
/// bit.
pub proof fn lemma_tags_distinct()
    ensures
        Aligned32Bit::spec_caps() != Dma::spec_caps(),
        Aligned32Bit::spec_caps() != Internal::spec_caps(),
        Aligned32Bit::spec_caps() != SpiRam::spec_caps(),
        Dma::spec_caps() != Internal::spec_caps(),
        Dma::spec_caps() != SpiRam::spec_caps(),
        Internal::spec_caps() != SpiRam::spec_caps(),
        Aligned32Bit::spec_caps() & (Aligned32Bit::spec_caps() - 1) as u32 == 0,
        Dma::spec_caps() & (Dma::spec_caps() - 1) as u32 == 0,
        Internal::spec_caps() & (Internal::spec_caps() - 1) as u32 == 0,
        SpiRam::spec_caps() & (SpiRam::spec_caps() - 1) as u32 == 0,
{
    assert(0x2u32 & 0x1u32 == 0) by (bit_vector);
    assert(0x8u32 & 0x7u32 == 0) by (bit_vector);
    assert(0x400u32 & 0x3ffu32 == 0) by (bit_vector);
    assert(0x800u32 & 0x7ffu32 == 0) by (bit_vector);
}

} // verus!
