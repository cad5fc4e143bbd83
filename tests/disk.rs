use blue_loader::disk::{Dap, Disk, DiskCursor, ReadOutcome, SeekFrom};
use blue_loader::error::LoaderError;

fn image(sectors: usize) -> Vec<u8> {
    (0..sectors * 512).map(|i| ((i * 7 + i / 512) % 251) as u8).collect()
}

fn params(sectors: u64) -> Vec<u8> {
    let mut p = Disk::parameters_request();
    p[16..24].copy_from_slice(&sectors.to_le_bytes());
    p
}

/// Issues the firmware read that `dap` describes against `img`.
fn firmware_read(img: &[u8], dap: &Dap) -> Vec<u8> {
    let at = dap.startlba as usize * 512;
    img[at..at + 512].to_vec()
}

fn sector_read(d: &Disk, img: &[u8], lba: u64) -> Result<Vec<u8>, LoaderError> {
    let dap = d.read_request(lba, 0x2000)?;
    Disk::complete_read(0, &firmware_read(img, &dap))
}

fn cursor_read(c: &mut DiskCursor, img: &[u8], want: usize) -> Result<Vec<u8>, LoaderError> {
    loop {
        match c.read(want)? {
            ReadOutcome::Bytes(b) => return Ok(b),
            ReadOutcome::NeedSector(lba) => {
                let data = sector_read(&c.disk(), img, lba)?;
                c.fill(lba, &data);
            }
        }
    }
}

#[test]
fn parameter_request_carries_its_size() {
    let p = Disk::parameters_request();
    assert_eq!(p.len(), 26);
    assert_eq!(&p[..2], &[26, 0]);
    assert!(p[2..].iter().all(|&b| b == 0));
}

#[test]
fn open_reports_device_errors() {
    assert_eq!(Disk::open(0x80, 1, 0, &params(10)).err(), Some(LoaderError::DeviceError));
    assert_eq!(Disk::open(0x80, 0, 0x80, &params(10)).err(), Some(LoaderError::DeviceError));
    assert_eq!(Disk::open(0x80, 0, 0, &params(u64::MAX)).err(), Some(LoaderError::DeviceError));
    let d = Disk::open(0x81, 0, 0, &params(1234)).unwrap();
    assert_eq!((d.id(), d.start(), d.length()), (0x81, 0, 1234));
}

#[test]
fn dap_layout() {
    let dap = Dap::new(3, 0x07c0_1234, 0x0102_0304_0506_0708);
    assert_eq!(
        dap.to_bytes(),
        vec![16, 0, 3, 0, 0x34, 0x12, 0xc0, 0x07, 8, 7, 6, 5, 4, 3, 2, 1]
    );
}

#[test]
fn read_request_bounds_and_offsets() {
    let d = Disk::open(0x80, 0, 0, &params(100)).unwrap();
    let n = d.narrow(10, 20).unwrap();
    assert_eq!(n.read_request(0, 0x500), Ok(Dap::new(1, 0x500, 10)));
    assert_eq!(n.read_request(19, 0x500), Ok(Dap::new(1, 0x500, 29)));
    assert_eq!(n.read_request(20, 0x500), Err(LoaderError::RangeError));
    assert_eq!(Disk::complete_read(1, &[0u8; 512]), Err(LoaderError::DeviceError));
}

#[test]
fn narrow_rejects_windows_past_the_end() {
    let d = Disk::open(0x80, 0, 0, &params(100)).unwrap();
    assert_eq!(d.narrow(90, 11).err(), Some(LoaderError::RangeError));
    assert_eq!(d.narrow(101, 0).err(), Some(LoaderError::RangeError));
    assert_eq!(d.narrow(u64::MAX, 2).err(), Some(LoaderError::RangeError));
    let n = d.narrow(90, 10).unwrap();
    assert_eq!((n.start(), n.length()), (90, 10));
    let nn = n.narrow(5, 5).unwrap();
    assert_eq!((nn.id(), nn.start(), nn.length()), (0x80, 95, 5));
    assert_eq!(n.narrow(5, 6).err(), Some(LoaderError::RangeError));
}

#[test]
fn narrowed_reads_equal_parent_reads() {
    let img = image(64);
    let d = Disk::open(0x80, 0, 0, &params(64)).unwrap();
    for (start, len) in [(0u64, 64u64), (3, 10), (63, 1), (20, 44)] {
        let n = d.narrow(start, len).unwrap();
        for lba in 0..len {
            assert_eq!(sector_read(&n, &img, lba), sector_read(&d, &img, start + lba));
        }
        assert_eq!(sector_read(&n, &img, len), Err(LoaderError::RangeError));
    }
}

#[test]
fn seek_then_read_one_byte_matches_sector_read() {
    let img = image(8);
    let d = Disk::open(0x80, 0, 0, &params(8)).unwrap().narrow(2, 5).unwrap();
    let mut c = d.cursor();
    for p in [0u64, 1, 511, 512, 700, 2047, 2048, 5 * 512 - 1] {
        assert_eq!(c.seek(SeekFrom::Start(p)), Ok(p));
        let got = cursor_read(&mut c, &img, 1).unwrap();
        let sector = sector_read(&d, &img, p / 512).unwrap();
        assert_eq!(got, vec![sector[(p % 512) as usize]]);
        assert_eq!(c.position(), p + 1);
    }
}

#[test]
fn reads_at_the_end_of_the_window() {
    let img = image(4);
    let d = Disk::open(0x80, 0, 0, &params(4)).unwrap();
    let mut c = d.cursor();
    // exactly at the end: no bytes
    assert_eq!(c.seek(SeekFrom::End(0)), Ok(2048));
    assert_eq!(cursor_read(&mut c, &img, 10).unwrap(), Vec::<u8>::new());
    assert_eq!(c.position(), 2048);
    // mid-sector, asking past the end: only the bytes up to the end
    assert_eq!(c.seek(SeekFrom::Start(2048 - 100)), Ok(1948));
    let tail = cursor_read(&mut c, &img, 300).unwrap();
    assert_eq!(tail, img[1948..2048].to_vec());
    assert_eq!(cursor_read(&mut c, &img, 300).unwrap(), Vec::<u8>::new());
    // ending exactly at the boundary
    assert_eq!(c.seek(SeekFrom::Start(1536)), Ok(1536));
    assert_eq!(cursor_read(&mut c, &img, 512).unwrap(), img[1536..2048].to_vec());
    // a read never crosses a sector boundary
    assert_eq!(c.seek(SeekFrom::Start(500)), Ok(500));
    assert_eq!(cursor_read(&mut c, &img, 100).unwrap(), img[500..512].to_vec());
    assert_eq!(c.position(), 512);
}

#[test]
fn cached_sector_is_reused_and_replaced() {
    let d = Disk::open(0x80, 0, 0, &params(4)).unwrap();
    let mut c = d.cursor();
    assert!(matches!(c.read(4), Ok(ReadOutcome::NeedSector(0))));
    c.fill(0, &[9u8; 512]);
    assert!(matches!(c.read(4), Ok(ReadOutcome::Bytes(ref b)) if b == &vec![9u8; 4]));
    c.seek(SeekFrom::Current(600)).unwrap();
    assert!(matches!(c.read(4), Ok(ReadOutcome::NeedSector(1))));
}

#[test]
fn seek_bounds() {
    let d = Disk::open(0x80, 0, 0, &params(2)).unwrap();
    let mut c = d.cursor();
    assert_eq!(c.seek(SeekFrom::Start(1025)), Err(LoaderError::RangeError));
    assert_eq!(c.position(), 0);
    assert_eq!(c.seek(SeekFrom::End(-24)), Ok(1000));
    assert_eq!(c.seek(SeekFrom::Current(-1001)), Err(LoaderError::RangeError));
    assert_eq!(c.position(), 1000);
    assert_eq!(c.seek(SeekFrom::Current(-1000)), Ok(0));
    assert_eq!(c.seek(SeekFrom::End(1)), Err(LoaderError::RangeError));
    assert_eq!(c.seek(SeekFrom::End(i64::MIN)), Err(LoaderError::RangeError));
    assert_eq!(c.seek(SeekFrom::Current(i64::MAX)), Err(LoaderError::RangeError));
}

#[test]
fn empty_disk_has_no_table() {
    let d = Disk::open(0x80, 0, 0, &params(0)).unwrap();
    assert_eq!(d.read_table(&[0u8; 512]).err(), Some(LoaderError::RangeError));
}
