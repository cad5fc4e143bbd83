use std::io::{Cursor, Read, Seek, Write};

use blue_loader::blocklist::{
    boot_code, parse_blocklist, stage_two_requests, Blocklist, BLOCKLIST_BYTES, BLOCKLIST_OFFSET,
};
use blue_loader::disk::{Disk, DiskCursor, ReadOutcome, SeekFrom};
use blue_loader::error::LoaderError;
use blue_loader::layout::BOOT_DRIVE;
use blue_loader::video::inform;

const SECTOR: usize = 512;
const FS_START: usize = 2048;
const DISK_SECTORS: usize = 2 * 1024 * 16;

fn pattern(len: usize, seed: u32) -> Vec<u8> {
    let mut x = seed.wrapping_mul(2654435761).wrapping_add(12345);
    (0..len)
        .map(|_| {
            x ^= x << 13;
            x ^= x >> 17;
            x ^= x << 5;
            (x >> 8) as u8
        })
        .collect()
}

/// A read-only byte stream over a partition, driving the library cursor
/// with sector reads from the in-memory image.
struct Stream<'a> {
    cursor: DiskCursor,
    image: &'a [u8],
}

fn io_err(_: LoaderError) -> std::io::Error {
    std::io::Error::new(std::io::ErrorKind::Other, "loader error")
}

impl Read for Stream<'_> {
    fn read(&mut self, buf: &mut [u8]) -> std::io::Result<usize> {
        loop {
            match self.cursor.read(buf.len()).map_err(io_err)? {
                ReadOutcome::Bytes(b) => {
                    buf[..b.len()].copy_from_slice(&b);
                    return Ok(b.len());
                }
                ReadOutcome::NeedSector(lba) => {
                    let dap = self.cursor.disk().read_request(lba, 0x1000).map_err(io_err)?;
                    let at = dap.startlba as usize * SECTOR;
                    let data = Disk::complete_read(0, &self.image[at..at + SECTOR]).map_err(io_err)?;
                    self.cursor.fill(lba, &data);
                }
            }
        }
    }
}

impl Seek for Stream<'_> {
    fn seek(&mut self, pos: std::io::SeekFrom) -> std::io::Result<u64> {
        let from = match pos {
            std::io::SeekFrom::Start(o) => SeekFrom::Start(o),
            std::io::SeekFrom::End(o) => SeekFrom::End(o),
            std::io::SeekFrom::Current(o) => SeekFrom::Current(o),
        };
        self.cursor.seek(from).map_err(io_err)
    }
}

impl Write for Stream<'_> {
    fn write(&mut self, _buf: &[u8]) -> std::io::Result<usize> {
        Err(std::io::Error::new(std::io::ErrorKind::Other, "read-only volume"))
    }
    fn flush(&mut self) -> std::io::Result<()> {
        Ok(())
    }
}

fn build_image(stage1: &[u8], stage2: &[u8], stage3: &[u8], payload: &[u8]) -> Vec<u8> {
    let part_sectors = DISK_SECTORS - FS_START;
    let mut part = vec![0u8; part_sectors * SECTOR];
    fatfs::format_volume(Cursor::new(&mut part[..]), fatfs::FormatVolumeOptions::new()).unwrap();
    {
        let fs = fatfs::FileSystem::new(Cursor::new(&mut part[..]), fatfs::FsOptions::new()).unwrap();
        let root = fs.root_dir();
        root.create_file("blue-loader-stage2.bin").unwrap().write_all(stage2).unwrap();
        root.create_file("blue-loader-stage3.bin").unwrap().write_all(stage3).unwrap();
        root.create_file("hello.txt").unwrap().write_all(payload).unwrap();
    }
    // where stage two's data landed, one sector at a time
    let mut list = Blocklist::new();
    for (k, chunk) in stage2.chunks(SECTOR).enumerate() {
        let at = (0..part.len() / SECTOR)
            .map(|s| s * SECTOR)
            .find(|&o| part[o..o + chunk.len()] == *chunk && (k > 0 || o > 0))
            .unwrap();
        list.push((FS_START * SECTOR + at) as u64, chunk.len() as u32).unwrap();
    }
    assert_eq!(list.extents().len(), 1);

    let mut image = vec![0u8; FS_START * SECTOR];
    let code = boot_code(stage1, &list.encode().unwrap()).unwrap();
    image[..code.len()].copy_from_slice(&code);
    let entry = 446;
    image[entry] = 0x80;
    image[entry + 4] = 0x0c;
    image[entry + 8..entry + 12].copy_from_slice(&(FS_START as u32).to_le_bytes());
    image[entry + 12..entry + 16].copy_from_slice(&(part_sectors as u32).to_le_bytes());
    image[510] = 0x55;
    image[511] = 0xaa;
    image.extend_from_slice(&part);
    image
}

fn open_partition(image: &[u8]) -> DiskCursor {
    let mut params = Disk::parameters_request();
    params[16..24].copy_from_slice(&((image.len() / SECTOR) as u64).to_le_bytes());
    let disk = Disk::open(BOOT_DRIVE, 0, 0, &params).unwrap();
    let dap = disk.read_request(0, 0x1000).unwrap();
    let sector0 = Disk::complete_read(0, &image[dap.startlba as usize * SECTOR..][..SECTOR]).unwrap();
    disk.read_table(&sector0).unwrap().open(0).unwrap()
}

fn read_file(image: &[u8], name: &str) -> Vec<u8> {
    let stream = Stream { cursor: open_partition(image), image };
    let fs = fatfs::FileSystem::new(stream, fatfs::FsOptions::new()).unwrap();
    let mut file = fs.root_dir().open_file(name).unwrap();
    let mut out = Vec::new();
    file.read_to_end(&mut out).unwrap();
    out
}

#[test]
fn image_boots_through_all_stages_and_prints_payload() {
    let stage1 = pattern(300, 1);
    let stage2 = pattern(0x1a00, 2);
    let stage3 = pattern(0x2345, 3);
    let payload = b"Hello, blue!".to_vec();
    let image = build_image(&stage1, &stage2, &stage3, &payload);
    assert_eq!(&image[..300], &stage1[..]);

    // stage one: walk the stored block list into the boot segment
    let list = parse_blocklist(&image[BLOCKLIST_OFFSET..BLOCKLIST_OFFSET + BLOCKLIST_BYTES]);
    let reads = stage_two_requests(&list, 0x200).unwrap();
    assert_eq!(reads.len(), 1);
    let mut memory = vec![0u8; 0x20000];
    for dap in &reads {
        let linear = ((dap.buffer >> 16) as usize) * 16 + (dap.buffer & 0xffff) as usize;
        let from = dap.startlba as usize * SECTOR;
        let n = dap.sectors as usize * SECTOR;
        memory[linear..linear + n].copy_from_slice(&image[from..from + n]);
    }
    assert_eq!(&memory[0x7e00..0x7e00 + stage2.len()], &stage2[..]);

    // stage two: find stage three on the partition
    assert_eq!(read_file(&image, "blue-loader-stage3.bin"), stage3);

    // stage three: read the payload and print it
    let text = read_file(&image, "hello.txt");
    let printed: Vec<u8> = inform(&text).iter().map(|ax| (ax & 0xff) as u8).collect();
    assert!(inform(&text).iter().all(|ax| ax >> 8 == 0x0e));
    assert_eq!(printed, payload);
}
