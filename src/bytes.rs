//! Little-endian field access on byte buffers.
use byteorder::ByteOrder;
use vstd::prelude::*;

verus! {

/// The value of two bytes read least significant first.
pub open spec fn le16(b0: u8, b1: u8) -> int {
    b0 as int + 256 * (b1 as int)
}

/// The value of four bytes read least significant first.
pub open spec fn le32(s: Seq<u8>) -> int
    recommends s.len() >= 4,
{
    le16(s[0], s[1]) + 65536 * le16(s[2], s[3])
}

/// The value of eight bytes read least significant first.
pub open spec fn le64(s: Seq<u8>) -> int
    recommends s.len() >= 8,
{
    le32(s) + 0x1_0000_0000 * le32(s.subrange(4, 8))
}

/// Relies on byteorder's `LittleEndian::read_u16`: the first two bytes of
/// `buf`, least significant first; it panics on a shorter buffer.
#[verifier::external_body]
pub(crate) fn read_le_u16(buf: &[u8]) -> (r: u16)
    requires
        buf@.len() >= 2,
    ensures
        r as int == le16(buf@[0], buf@[1]),
{
    byteorder::LittleEndian::read_u16(buf)
}

/// Relies on byteorder's `LittleEndian::read_u32`: the first four bytes of
/// `buf`, least significant first; it panics on a shorter buffer.
#[verifier::external_body]
pub(crate) fn read_le_u32(buf: &[u8]) -> (r: u32)
    requires
        buf@.len() >= 4,
    ensures
        r as int == le32(buf@),
{
    byteorder::LittleEndian::read_u32(buf)
}

/// Relies on byteorder's `LittleEndian::read_u64`: the first eight bytes of
/// `buf`, least significant first; it panics on a shorter buffer.
#[verifier::external_body]
pub(crate) fn read_le_u64(buf: &[u8]) -> (r: u64)
    requires
        buf@.len() >= 8,
    ensures
        r as int == le64(buf@),
{
    byteorder::LittleEndian::read_u64(buf)
}

/// Appends `x` as two bytes, least significant first.
pub fn push_le_u16(out: &mut Vec<u8>, x: u16)
    ensures
        final(out)@.len() == old(out)@.len() + 2,
        final(out)@.subrange(0, old(out)@.len() as int) == old(out)@,
        le16(final(out)@[old(out)@.len() as int], final(out)@[old(out)@.len() + 1int]) == x,
{
    out.push((x % 256) as u8);
    out.push((x / 256) as u8);
    proof {
        assert(final(out)@.subrange(0, old(out)@.len() as int) =~= old(out)@);
    }
}

/// Appends `x` as four bytes, least significant first.
pub fn push_le_u32(out: &mut Vec<u8>, x: u32)
    ensures
        final(out)@.len() == old(out)@.len() + 4,
        final(out)@.subrange(0, old(out)@.len() as int) == old(out)@,
        le32(final(out)@.subrange(old(out)@.len() as int, old(out)@.len() + 4int)) == x,
{
    let ghost n: int = out@.len() as int;
    push_le_u16(out, (x % 65536) as u16);
    push_le_u16(out, (x / 65536) as u16);
    proof {
        assert(final(out)@.subrange(0, n) =~= old(out)@);
        let t = final(out)@.subrange(n, n + 4);
        assert(t[0] == final(out)@[n] && t[1] == final(out)@[n + 1]);
        assert(t[2] == final(out)@[n + 2] && t[3] == final(out)@[n + 3]);
    }
}

/// Appends `x` as eight bytes, least significant first.
pub fn push_le_u64(out: &mut Vec<u8>, x: u64)
    ensures
        final(out)@.len() == old(out)@.len() + 8,
        final(out)@.subrange(0, old(out)@.len() as int) == old(out)@,
        le64(final(out)@.subrange(old(out)@.len() as int, old(out)@.len() + 8int)) == x,
{
    let ghost n: int = out@.len() as int;
    push_le_u32(out, (x % 0x1_0000_0000) as u32);
    let ghost mid = out@;
    push_le_u32(out, (x / 0x1_0000_0000) as u32);
    proof {
        assert(final(out)@.subrange(0, n) =~= old(out)@);
        let t = final(out)@.subrange(n, n + 8);
        assert(t.subrange(0, 4) =~= mid.subrange(n, n + 4));
        assert(t.subrange(4, 8) =~= final(out)@.subrange(n + 4, n + 8));
        assert(t[0] == t.subrange(0, 4)[0] && t[1] == t.subrange(0, 4)[1]);
        assert(t[2] == t.subrange(0, 4)[2] && t[3] == t.subrange(0, 4)[3]);
    }
}

} // verus!
