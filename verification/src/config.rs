//! Sizes and limits shared by the whole kernel core.

use vstd::prelude::*;

verus! {

/// Size in bytes of one page and of one physical frame.
pub const PAGE_SIZE: usize = 4096;

/// Size in bytes of the kernel stack that every task owns.
pub const KERNEL_STACK_SIZE: usize = 16384;

/// Lowest user virtual address.
pub const USER_ASPACE_BASE: u64 = 0;

/// Number of bytes of the user half of an address space. Addresses are
/// machine words; the constants that describe the 64-bit layout are kept
/// as 64-bit numbers.
pub const USER_ASPACE_SIZE: u64 = 0x7fff_ffff_f000;

/// Lowest kernel virtual address.
pub const KERNEL_ASPACE_BASE: u64 = 0xffff_ff80_0000_0000;

/// Number of bytes of the kernel half of an address space.
pub const KERNEL_ASPACE_SIZE: u64 = 0x0000_007f_ffff_f000;

/// Distance from a physical address to the kernel virtual address that
/// maps it.
pub const PHYS_VIRT_OFFSET: u64 = 0xffff_ff80_0000_0000;

} // verus!
