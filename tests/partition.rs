use blue_loader::disk::Disk;
use blue_loader::error::LoaderError;
use blue_loader::mbr::{PartitionEntry, PartitionTable, CHS};

fn put_entry(sector: &mut [u8], at: usize, raw: [u8; 16]) {
    sector[at..at + 16].copy_from_slice(&raw);
}

fn reference_sector() -> Vec<u8> {
    let mut s = vec![0u8; 512];
    s[440..444].copy_from_slice(&[0x78, 0x56, 0x34, 0x12]);
    s[444] = 0x5a;
    s[445] = 0x5a;
    // status, head, sector|cyl-high, cyl-low, type, head, sector|cyl-high, cyl-low, lba, count
    put_entry(
        &mut s,
        446,
        [0x80, 0x20, 0x21, 0x00, 0x0c, 0xfe, 0xff, 0xff, 0x00, 0x08, 0x00, 0x00, 0x00, 0x78, 0x00, 0x00],
    );
    put_entry(
        &mut s,
        462,
        [0x00, 0x01, 0xc5, 0x07, 0x83, 0x02, 0x43, 0x10, 0x01, 0x02, 0x03, 0x04, 0xff, 0xff, 0xff, 0xff],
    );
    s[510] = 0x55;
    s[511] = 0xaa;
    s
}

#[test]
fn boot_signature_is_required() {
    let mut s = reference_sector();
    for (a, b) in [(0x00u8, 0x00u8), (0xaa, 0x55), (0x55, 0x00), (0x00, 0xaa)] {
        s[510] = a;
        s[511] = b;
        let mut t = PartitionTable::new();
        assert_eq!(t.load_boot_sector(&s), Err(LoaderError::FormatError));
        assert_eq!(t.signature, 0);
        assert_eq!(t.table[0], PartitionEntry::empty());
    }
}

#[test]
fn four_entries_decoded_field_for_field() {
    let s = reference_sector();
    let mut t = PartitionTable::new();
    assert_eq!(t.load_boot_sector(&s), Ok(()));
    assert_eq!(t.signature, 0x1234_5678);
    assert!(t.copy_protected);
    assert_eq!(
        t.table[0],
        PartitionEntry {
            status: 0x80,
            first: CHS(0, 0x20, 0x21),
            typ: 0x0c,
            last: CHS(0x3ff, 0xfe, 0x3f),
            first_lba: 2048,
            sectors: 0x7800,
        }
    );
    assert_eq!(
        t.table[1],
        PartitionEntry {
            status: 0,
            first: CHS(0x307, 1, 5),
            typ: 0x83,
            last: CHS(0x110, 2, 3),
            first_lba: 0x0403_0201,
            sectors: 0xffff_ffff,
        }
    );
    assert_eq!(t.table[2], PartitionEntry::empty());
    assert_eq!(t.table[3], PartitionEntry::empty());
}

#[test]
fn chs_packs_cylinder_high_bits_in_sector_byte() {
    assert_eq!(CHS::read(&[0x10, 0x81, 0x02]), CHS(0x202, 0x10, 1));
    assert_eq!(PartitionEntry::read(&[0u8; 16]), PartitionEntry::empty());
}

#[test]
fn table_read_through_disk_and_partition_opened() {
    let mut params = vec![0u8; 26];
    params[16..24].copy_from_slice(&40000u64.to_le_bytes());
    let disk = Disk::open(0x80, 0, 0, &params).unwrap();
    let pd = disk.read_table(&reference_sector()).unwrap();
    let cur = pd.open(0).unwrap();
    assert_eq!(cur.disk().start(), 2048);
    assert_eq!(cur.disk().length(), 0x7800);
    assert_eq!(cur.position(), 0);
    // slot 1 runs past the end of the disk, slots 2 and 3 are empty
    assert_eq!(pd.open(1).err(), Some(LoaderError::RangeError));
    assert_eq!(pd.open(2).err(), Some(LoaderError::FormatError));
    assert_eq!(pd.open(4).err(), Some(LoaderError::FormatError));
    let mut bad = reference_sector();
    bad[511] = 0;
    assert_eq!(disk.read_table(&bad).err(), Some(LoaderError::FormatError));
}
