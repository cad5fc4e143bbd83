//! Verified core of a staged BIOS boot loader: the disk adapter and its
//! byte cursor, the partition table reader, descriptor and page table
//! construction, the real-mode call trampoline with its scratch buffer,
//! the CPU mode sequencer and the stage-one block list.
use vstd::prelude::*;

pub mod a20;
pub mod blocklist;
pub mod bytes;
pub mod cpu;
pub mod disk;
pub mod error;
pub mod gdt;
pub mod layout;
pub mod mbr;
pub mod paging;
pub mod stages;
pub mod trampoline;
pub mod video;

verus! {

/// Size in bytes of one disk sector.
pub const SECTOR_SIZE: u16 = 512;

} // verus!
