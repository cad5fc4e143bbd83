//! The partition table of a boot sector.
use vstd::prelude::*;

use crate::bytes::{le16, le32, read_le_u16, read_le_u32};
use crate::error::LoaderError;

verus! {

/// Offset of the 32-bit disk signature in a boot sector.
pub const SIGNATURE_OFFSET: usize = 440;
/// Offset of the 16-bit copy-protection marker.
pub const COPY_PROTECT_OFFSET: usize = 444;
/// Offset of the first of the four 16-byte partition entries.
pub const TABLE_OFFSET: usize = 446;
/// Size of one partition entry.
pub const ENTRY_SIZE: usize = 16;
/// Marker value that flags a copy-protected disk.
pub const COPY_PROTECT_MARKER: u16 = 0x5a5a;

/// A cylinder/head/sector address: `CHS(cylinder, head, sector)`.
#[derive(Clone, Copy, Debug, PartialEq, Eq, Structural)]
pub struct CHS(pub u16, pub u8, pub u8);

/// One slot of the partition table.
#[derive(Clone, Copy, Debug, PartialEq, Eq, Structural)]
pub struct PartitionEntry {
    pub status: u8,
    pub first: CHS,
    pub typ: u8,
    pub last: CHS,
    pub first_lba: u32,
    pub sectors: u32,
}

/// The disk signature, the copy-protection flag and the four entries of a
/// boot sector.
#[derive(Clone, Copy, Debug)]
pub struct PartitionTable {
    pub signature: u32,
    pub copy_protected: bool,
    pub table: [PartitionEntry; 4],
}

/// Three packed address bytes: head, then sector in the low six bits with
/// the cylinder's bits 8 and 9 above it, then the cylinder's low byte.
pub open spec fn chs_spec(b: Seq<u8>) -> CHS {
    CHS(
        (b[2] as int + 256 * (b[1] as int / 64)) as u16,
        b[0],
        (b[1] as int % 64) as u8,
    )
}

/// The entry that sixteen bytes describe.
pub open spec fn entry_spec(b: Seq<u8>) -> PartitionEntry {
    PartitionEntry {
        status: b[0],
        first: chs_spec(b.subrange(1, 4)),
        typ: b[4],
        last: chs_spec(b.subrange(5, 8)),
        first_lba: le32(b.subrange(8, 12)) as u32,
        sectors: le32(b.subrange(12, 16)) as u32,
    }
}

/// The entry of an unused slot.
pub open spec fn empty_entry() -> PartitionEntry {
    PartitionEntry { status: 0, first: CHS(0, 0, 0), typ: 0, last: CHS(0, 0, 0), first_lba: 0, sectors: 0 }
}

/// Whether a boot sector ends with the bytes `0x55, 0xAA`.
pub open spec fn has_boot_signature(data: Seq<u8>) -> bool {
    data[510] == 0x55 && data[511] == 0xaa
}

/// The `i`-th partition entry of a boot sector.
pub open spec fn sector_entry(data: Seq<u8>, i: int) -> PartitionEntry {
    entry_spec(data.subrange(446 + 16 * i, 446 + 16 * i + 16))
}

impl CHS {
    /// Decodes a packed three-byte address.
    pub fn read(data: &[u8]) -> (r: CHS)
        requires
            data@.len() == 3,
        ensures
            r == chs_spec(data@),
    {
        let head = data[0];
        let sector = data[1] & 0x3f;
        let high = data[1] & 0xc0;
        let cylinder = (data[2] as u16) | ((high as u16) << 2u16);
        let b1 = data[1];
        let b2 = data[2];
        assert(b1 & 0x3f == b1 % 64) by (bit_vector);
        assert(((b2 as u16) | (((b1 & 0xc0u8) as u16) << 2u16)) == (b2 as u16) + 256 * ((b1 / 64) as u16))
            by (bit_vector);
        CHS(cylinder, head, sector)
    }
}

impl PartitionEntry {
    /// An unused slot.
    pub fn empty() -> (r: PartitionEntry)
        ensures
            r == empty_entry(),
    {
        PartitionEntry {
            status: 0,
            first: CHS(0, 0, 0),
            typ: 0,
            last: CHS(0, 0, 0),
            first_lba: 0,
            sectors: 0,
        }
    }

    /// Decodes one 16-byte partition entry.
    pub fn read(data: &[u8]) -> (r: PartitionEntry)
        requires
            data@.len() == 16,
        ensures
            r == entry_spec(data@),
    {
        let status = data[0];
        let first = CHS::read(&data[1..4]);
        let typ = data[4];
        let last = CHS::read(&data[5..8]);
        let first_lba = read_le_u32(&data[8..12]);
        let sectors = read_le_u32(&data[12..16]);
        PartitionEntry { status, first, typ, last, first_lba, sectors }
    }
}

impl PartitionTable {
    /// A table with no signature and four unused slots.
    pub fn new() -> (r: PartitionTable)
        ensures
            r.signature == 0,
            !r.copy_protected,
            forall|i: int| 0 <= i < 4 ==> r.table[i] == empty_entry(),
    {
        PartitionTable {
            signature: 0,
            copy_protected: false,
            table: [
                PartitionEntry::empty(),
                PartitionEntry::empty(),
                PartitionEntry::empty(),
                PartitionEntry::empty(),
            ],
        }
    }

    /// Fills the table from a 512-byte boot sector; a sector without the
    /// `0x55, 0xAA` signature is refused and leaves the table as it was.
    pub fn load_boot_sector(&mut self, data: &[u8]) -> (r: Result<(), LoaderError>)
        requires
            data@.len() == 512,
        ensures
            r is Err <==> !has_boot_signature(data@),
            r is Err ==> r == Err::<(), LoaderError>(LoaderError::FormatError) && *final(self) == *old(self),
            r is Ok ==> {
                &&& final(self).signature as int == le32(data@.subrange(440, 444))
                &&& final(self).copy_protected == (le16(data@[444], data@[445]) == 0x5a5a)
                &&& forall|i: int| 0 <= i < 4 ==> #[trigger] final(self).table[i] == sector_entry(data@, i)
            },
    {
        if data[510] != 0x55 || data[511] != 0xaa {
            return Err(LoaderError::FormatError);
        }
        self.signature = read_le_u32(&data[SIGNATURE_OFFSET..SIGNATURE_OFFSET + 4]);
        self.copy_protected = read_le_u16(&data[COPY_PROTECT_OFFSET..COPY_PROTECT_OFFSET + 2])
            == COPY_PROTECT_MARKER;
        let e0 = PartitionEntry::read(&data[446..462]);
        let e1 = PartitionEntry::read(&data[462..478]);
        let e2 = PartitionEntry::read(&data[478..494]);
        let e3 = PartitionEntry::read(&data[494..510]);
        self.table = [e0, e1, e2, e3];
        proof {
            assert(data@.subrange(440, 444) =~= data@.subrange(440, 512).subrange(0, 4));
        }
        Ok(())
    }
}

} // verus!
