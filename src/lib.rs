//! Capability-scoped heap allocation.
//!
//! A platform heap is split into regions that differ in hardware properties
//! (fast internal RAM, DMA-capable RAM, RAM addressable only in 32-bit units,
//! external serial RAM). Each region is selected by a capability bitmask.
//! This library decides, for every allocator operation, which entry point of
//! the native capability-flag heap service to call and with which arguments,
//! turns the service's null result into a typed failure, and says which part
//! of a grown block must be zero-filled. Performing the call itself is left
//! to the caller.
use vstd::prelude::*;

pub mod allocator;
pub mod caps;
pub mod heap;
pub mod layout;
mod sealed;

pub use allocator::{HeapCapsAlloc, alloc_aligned_32bit, alloc_dma, alloc_internal, alloc_spiram};
pub use caps::{Aligned32Bit, Caps, Dma, Internal, SpiRam};
pub use heap::{AllocError, Block, Grant, HeapCall, Request, ZeroFill, NATURAL_ALIGN};
pub use layout::{Layout, LayoutError};

verus! {

} // verus!
