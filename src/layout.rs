//! Where the stages live in memory.
use vstd::prelude::*;

verus! {

/// The real-mode segment that the boot stages run in.
pub const BOOT_SEGMENT: u16 = 0x07c0;
/// The firmware number of the boot drive.
pub const BOOT_DRIVE: u8 = 0x80;

/// The linear address of offset `offset` in segment `segment`.
pub open spec fn linear_spec(segment: u16, offset: u32) -> int {
    16 * segment + offset
}

/// The linear address of offset `offset` in segment `segment`.
pub fn linear(segment: u16, offset: u32) -> (r: u32)
    requires
        linear_spec(segment, offset) <= u32::MAX,
    ensures
        r == linear_spec(segment, offset),
{
    (segment as u32) * 16 + offset
}

/// The offset within `segment` of linear address `addr`, where the
/// segment's 64 KiB reach it.
pub fn segment_offset(segment: u16, addr: u32) -> (r: Option<u16>)
    ensures
        r is Some <==> 16 * segment <= addr < 16 * segment + 0x10000,
        r is Some ==> linear_spec(segment, r->Some_0 as u32) == addr,
{
    let base = (segment as u32) * 16;
    if addr < base || addr - base >= 0x10000 {
        None
    } else {
        Some((addr - base) as u16)
    }
}

} // verus!
