//! Sector access to one firmware drive, windows onto it, and a seekable byte
//! cursor over a window.
//!
//! The firmware itself is driven by the caller: this module decides which
//! request to issue and what its reply means.
use vstd::prelude::*;

use crate::bytes::{le16, le32, le64, push_le_u16, push_le_u32, push_le_u64, read_le_u64};
use crate::error::LoaderError;
use crate::mbr::{has_boot_signature, sector_entry, PartitionTable};

verus! {

/// Bytes in one sector, as a `usize`.
pub const SECTOR_BYTES: usize = 512;
/// The largest drive whose size in bytes still fits in 64 bits.
pub const MAX_SECTORS: u64 = 0x007f_ffff_ffff_ffff;
/// Size of a disk address packet.
pub const DAP_SIZE: u8 = 16;
/// Size of the buffer that the drive parameter query fills.
pub const PARAMETERS_SIZE: u16 = 26;
/// Offset of the total sector count in the drive parameter buffer.
pub const PARAMETERS_SECTORS_OFFSET: usize = 16;

/// A disk address packet: the request block of an extended sector read.
#[derive(Clone, Copy, Debug, PartialEq, Eq, Structural)]
pub struct Dap {
    pub size: u8,
    pub zero: u8,
    pub sectors: u16,
    pub buffer: u32,
    pub startlba: u64,
}

impl Dap {
    /// A packet that reads `sectors` sectors from `startlba` to `buffer`.
    pub fn new(sectors: u16, buffer: u32, startlba: u64) -> (r: Dap)
        ensures
            r == (Dap { size: DAP_SIZE, zero: 0, sectors, buffer, startlba }),
    {
        Dap { size: DAP_SIZE, zero: 0, sectors, buffer, startlba }
    }

    /// The packet as the firmware reads it from memory.
    pub fn to_bytes(&self) -> (r: Vec<u8>)
        ensures
            r@.len() == 16,
            r@[0] == self.size,
            r@[1] == self.zero,
            le16(r@[2], r@[3]) == self.sectors,
            le32(r@.subrange(4, 8)) == self.buffer,
            le64(r@.subrange(8, 16)) == self.startlba,
    {
        let mut r: Vec<u8> = Vec::new();
        r.push(self.size);
        r.push(self.zero);
        let ghost r1 = r@;
        push_le_u16(&mut r, self.sectors);
        let ghost r2 = r@;
        push_le_u32(&mut r, self.buffer);
        let ghost r3 = r@;
        push_le_u64(&mut r, self.startlba);
        proof {
            assert(r3.subrange(0, 4) == r2);
            assert(r@.subrange(0, 8) == r3);
            assert(r@.subrange(4, 8) =~= r3.subrange(4, 8));
            assert(r2.subrange(0, 2) == r1);
            assert(r@[0] == r@.subrange(0, 8)[0] && r3[0] == r3.subrange(0, 4)[0]);
            assert(r@[1] == r@.subrange(0, 8)[1] && r3[1] == r3.subrange(0, 4)[1]);
            assert(r2[0] == r2.subrange(0, 2)[0] && r2[1] == r2.subrange(0, 2)[1]);
            assert(r@[2] == r2[2] && r@[3] == r2[3]);
        }
        r
    }
}

/// What a disk handle stands for: a drive and a window of its sectors.
pub struct DiskView {
    pub id: u8,
    pub start: nat,
    pub length: nat,
}

/// A window of `length` sectors, from sector `start`, of firmware drive `id`.
#[derive(Clone, Copy, Debug)]
pub struct Disk {
    id: u8,
    start: u64,
    length: u64,
}

/// Bytes in a window.
pub open spec fn total_bytes(d: DiskView) -> nat {
    d.length * 512
}

/// The drive sector that window sector `lba` is, if the window holds it.
pub open spec fn device_sector(d: DiskView, lba: nat) -> Option<nat> {
    if lba < d.length {
        Some(d.start + lba)
    } else {
        None
    }
}

/// The window that narrowing `d` to `length` sectors from `start` gives.
pub open spec fn narrow_spec(d: DiskView, start: nat, length: nat) -> Option<DiskView> {
    if start + length <= d.length {
        Some(DiskView { id: d.id, start: d.start + start, length })
    } else {
        None
    }
}

/// A window of a drive whose sector numbers and byte size fit in 64 bits.
pub open spec fn window_wf(d: DiskView) -> bool {
    d.start + d.length <= u64::MAX && d.length <= MAX_SECTORS
}

/// The sector count that a filled drive parameter buffer reports.
pub open spec fn reported_sectors(parameters: Seq<u8>) -> nat {
    le64(parameters.subrange(16, 24)) as nat
}

impl View for Disk {
    type V = DiskView;

    closed spec fn view(&self) -> DiskView {
        DiskView { id: self.id, start: self.start as nat, length: self.length as nat }
    }
}

impl Disk {
    /// Whether the handle addresses a window that fits in 64 bits.
    pub closed spec fn wf(&self) -> bool {
        window_wf(self@)
    }

    /// The firmware drive number.
    pub fn id(&self) -> (r: u8)
        ensures
            r == self@.id,
    {
        self.id
    }

    /// The first drive sector of the window.
    pub fn start(&self) -> (r: u64)
        ensures
            r == self@.start,
    {
        self.start
    }

    /// The number of sectors in the window.
    pub fn length(&self) -> (r: u64)
        ensures
            r == self@.length,
    {
        self.length
    }

    /// The buffer to hand to the extended drive parameter query: its size
    /// in the first two bytes, zeros after.
    pub fn parameters_request() -> (r: Vec<u8>)
        ensures
            r@.len() == PARAMETERS_SIZE,
            le16(r@[0], r@[1]) == PARAMETERS_SIZE,
            forall|i: int| 2 <= i < PARAMETERS_SIZE ==> r@[i] == 0,
    {
        let mut r: Vec<u8> = Vec::new();
        push_le_u16(&mut r, PARAMETERS_SIZE);
        while r.len() < PARAMETERS_SIZE as usize
            invariant
                2 <= r@.len() <= PARAMETERS_SIZE,
                le16(r@[0], r@[1]) == PARAMETERS_SIZE,
                forall|i: int| 2 <= i < r@.len() ==> r@[i] == 0,
            decreases PARAMETERS_SIZE - r@.len(),
        {
            r.push(0);
        }
        r
    }

    /// Opens drive `id` from the replies of the firmware: the status of the
    /// drive reset, then the status and buffer of the parameter query.
    /// A nonzero status, or a size that does not fit in 64-bit byte
    /// offsets, is a device error.
    pub fn open(id: u8, reset_status: u8, query_status: u8, parameters: &[u8]) -> (r: Result<
        Disk,
        LoaderError,
    >)
        requires
            parameters@.len() == PARAMETERS_SIZE,
        ensures
            r is Err <==> (reset_status != 0 || query_status != 0 || reported_sectors(parameters@)
                > MAX_SECTORS),
            r is Err ==> r == Err::<Disk, LoaderError>(LoaderError::DeviceError),
            r is Ok ==> r->Ok_0.wf() && r->Ok_0@ == (DiskView {
                id,
                start: 0,
                length: reported_sectors(parameters@),
            }),
    {
        if reset_status != 0 {
            return Err(LoaderError::DeviceError);
        }
        if query_status != 0 {
            return Err(LoaderError::DeviceError);
        }
        let sectors = read_le_u64(
            &parameters[PARAMETERS_SECTORS_OFFSET..PARAMETERS_SECTORS_OFFSET + 8],
        );
        if sectors > MAX_SECTORS {
            return Err(LoaderError::DeviceError);
        }
        Ok(Disk { id, start: 0, length: sectors })
    }

    /// A window of `length` sectors from sector `start` of this one.
    pub fn narrow(&self, start: u64, length: u64) -> (r: Result<Disk, LoaderError>)
        requires
            self.wf(),
        ensures
            match narrow_spec(self@, start as nat, length as nat) {
                Some(v) => r is Ok && r->Ok_0@ == v && r->Ok_0.wf(),
                None => r == Err::<Disk, LoaderError>(LoaderError::RangeError),
            },
    {
        if start > self.length || length > self.length - start {
            return Err(LoaderError::RangeError);
        }
        Ok(Disk { id: self.id, start: self.start + start, length })
    }

    /// The packet that reads window sector `lba` into `buffer`.
    pub fn read_request(&self, lba: u64, buffer: u32) -> (r: Result<Dap, LoaderError>)
        requires
            self.wf(),
        ensures
            match device_sector(self@, lba as nat) {
                Some(s) => r == Ok::<Dap, LoaderError>(Dap::new_spec(1, buffer, s as u64)),
                None => r == Err::<Dap, LoaderError>(LoaderError::RangeError),
            },
    {
        if lba >= self.length {
            return Err(LoaderError::RangeError);
        }
        Ok(Dap::new(1, buffer, self.start + lba))
    }

    /// The sector that a finished read delivers, given the firmware status
    /// and the transfer buffer.
    pub fn complete_read(status: u8, transfer: &[u8]) -> (r: Result<Vec<u8>, LoaderError>)
        requires
            transfer@.len() == 512,
        ensures
            status != 0 ==> r == Err::<Vec<u8>, LoaderError>(LoaderError::DeviceError),
            status == 0 ==> r is Ok && r->Ok_0@ == transfer@,
    {
        if status != 0 {
            return Err(LoaderError::DeviceError);
        }
        Ok(copy_bytes(transfer))
    }

    /// A cursor at the start of the window, with nothing cached.
    pub fn cursor(&self) -> (r: DiskCursor)
        requires
            self.wf(),
        ensures
            r.wf(),
            r@ == (CursorView { disk: self@, pos: 0, cached: None }),
    {
        DiskCursor { disk: *self, pos: 0, lba_in_buffer: None, buffer: zero_sector() }
    }

    /// Reads the partition table from `sector0`, the window's first sector.
    pub fn read_table(&self, sector0: &[u8]) -> (r: Result<PartitionedDisk, LoaderError>)
        requires
            self.wf(),
            sector0@.len() == 512,
        ensures
            self@.length == 0 ==> r == Err::<PartitionedDisk, LoaderError>(LoaderError::RangeError),
            self@.length > 0 && !has_boot_signature(sector0@) ==> r == Err::<
                PartitionedDisk,
                LoaderError,
            >(LoaderError::FormatError),
            self@.length > 0 && has_boot_signature(sector0@) ==> r is Ok && r->Ok_0.disk@ == self@
                && r->Ok_0.disk.wf() && r->Ok_0.table.signature as int == le32(
                sector0@.subrange(440, 444),
            ) && r->Ok_0.table.copy_protected == (le16(sector0@[444], sector0@[445]) == 0x5a5a)
                && forall|i: int|
                0 <= i < 4 ==> #[trigger] r->Ok_0.table.table[i] == sector_entry(sector0@, i),
    {
        if self.length == 0 {
            return Err(LoaderError::RangeError);
        }
        let mut table = PartitionTable::new();
        match table.load_boot_sector(sector0) {
            Ok(()) => Ok(PartitionedDisk { disk: *self, table }),
            Err(e) => Err(e),
        }
    }
}

impl Dap {
    /// The packet that `new` builds.
    pub open spec fn new_spec(sectors: u16, buffer: u32, startlba: u64) -> Dap {
        Dap { size: DAP_SIZE, zero: 0, sectors, buffer, startlba }
    }
}

/// A copy of a byte slice.
fn copy_bytes(s: &[u8]) -> (r: Vec<u8>)
    ensures
        r@ == s@,
{
    let mut r: Vec<u8> = Vec::new();
    let mut i: usize = 0;
    while i < s.len()
        invariant
            i <= s@.len(),
            r@ == s@.subrange(0, i as int),
        decreases s@.len() - i,
    {
        r.push(s[i]);
        i += 1;
        proof {
            assert(r@ =~= s@.subrange(0, i as int));
        }
    }
    proof {
        assert(r@ =~= s@);
    }
    r
}

/// A sector of zeros.
fn zero_sector() -> (r: Vec<u8>)
    ensures
        r@.len() == 512,
{
    let mut r: Vec<u8> = Vec::new();
    while r.len() < SECTOR_BYTES
        invariant
            r@.len() <= 512,
        decreases 512 - r@.len(),
    {
        r.push(0);
    }
    r
}

/// A drive with a partition table read from its first sector.
#[derive(Clone, Copy, Debug)]
pub struct PartitionedDisk {
    pub disk: Disk,
    pub table: PartitionTable,
}

impl PartitionedDisk {
    /// A cursor over partition `index`. A slot out of range or with no
    /// sectors is a format error; one that overruns the disk, a range error.
    pub fn open(&self, index: usize) -> (r: Result<DiskCursor, LoaderError>)
        requires
            self.disk.wf(),
        ensures
            index >= 4 ==> r == Err::<DiskCursor, LoaderError>(LoaderError::FormatError),
            index < 4 ==> {
                let e = self.table.table[index as int];
                if e.sectors == 0 {
                    r == Err::<DiskCursor, LoaderError>(LoaderError::FormatError)
                } else {
                    match narrow_spec(self.disk@, e.first_lba as nat, e.sectors as nat) {
                        Some(v) => r is Ok && r->Ok_0.wf() && r->Ok_0@ == (CursorView {
                            disk: v,
                            pos: 0,
                            cached: None,
                        }),
                        None => r == Err::<DiskCursor, LoaderError>(LoaderError::RangeError),
                    }
                }
            },
    {
        if index >= 4 {
            return Err(LoaderError::FormatError);
        }
        let entry = self.table.table[index];
        if entry.sectors == 0 {
            return Err(LoaderError::FormatError);
        }
        match self.disk.narrow(entry.first_lba as u64, entry.sectors as u64) {
            Ok(d) => Ok(d.cursor()),
            Err(e) => Err(e),
        }
    }
}

/// What a cursor stands for: its window, its byte position and the sector
/// it holds, if any.
pub struct CursorView {
    pub disk: DiskView,
    pub pos: nat,
    pub cached: Option<(nat, Seq<u8>)>,
}

/// A seekable, read-only byte stream over a window, holding one sector.
#[derive(Debug)]
pub struct DiskCursor {
    disk: Disk,
    pos: u64,
    lba_in_buffer: Option<u64>,
    buffer: Vec<u8>,
}

/// Where a seek counts from.
#[derive(Clone, Copy, Debug, PartialEq, Eq, Structural)]
pub enum SeekFrom {
    Start(u64),
    End(i64),
    Current(i64),
}

/// What a read asks of its caller, or hands over.
pub enum ReadView {
    Bytes(Seq<u8>),
    NeedSector(nat),
}

/// The result of one read step.
#[derive(Debug)]
pub enum ReadOutcome {
    /// The bytes read; none at the end of the window.
    Bytes(Vec<u8>),
    /// The window sector to read and `fill` in before the read can go on.
    NeedSector(u64),
}

impl View for ReadOutcome {
    type V = ReadView;

    open spec fn view(&self) -> ReadView {
        match self {
            ReadOutcome::Bytes(b) => ReadView::Bytes(b@),
            ReadOutcome::NeedSector(s) => ReadView::NeedSector(*s as nat),
        }
    }
}

/// The view of a read result.
pub open spec fn outcome_view(r: Result<ReadOutcome, LoaderError>) -> Result<ReadView, LoaderError> {
    match r {
        Ok(o) => Ok(o@),
        Err(e) => Err(e),
    }
}

/// Whether a cursor's state is one that its window allows.
pub open spec fn cursor_wf(c: CursorView) -> bool {
    &&& window_wf(c.disk)
    &&& c.pos <= total_bytes(c.disk)
    &&& match c.cached {
        Some((lba, data)) => lba < c.disk.length && data.len() == 512,
        None => true,
    }
}

/// One read of at most `want` bytes, and the cursor after it.
pub open spec fn read_spec(c: CursorView, want: nat) -> (Result<ReadView, LoaderError>, CursorView) {
    let sector = c.pos / 512;
    let offset = c.pos % 512;
    if sector >= c.disk.length {
        if offset == 0 {
            (Ok(ReadView::Bytes(Seq::empty())), c)
        } else {
            (Err(LoaderError::RangeError), c)
        }
    } else if c.cached is Some && c.cached->Some_0.0 == sector {
        let amount = if want < 512 - offset { want } else { (512 - offset) as nat };
        (
            Ok(ReadView::Bytes(c.cached->Some_0.1.subrange(offset as int, (offset + amount) as int))),
            CursorView { pos: c.pos + amount, ..c },
        )
    } else {
        (Ok(ReadView::NeedSector(sector)), c)
    }
}

/// The cursor after sector `lba` of its window, read as `data`, is cached.
pub open spec fn fill_spec(c: CursorView, lba: nat, data: Seq<u8>) -> CursorView {
    CursorView { cached: Some((lba, data)), ..c }
}

/// The position that a seek aims at.
pub open spec fn seek_target(c: CursorView, from: SeekFrom) -> int {
    match from {
        SeekFrom::Start(o) => o as int,
        SeekFrom::End(o) => total_bytes(c.disk) + o,
        SeekFrom::Current(o) => c.pos + o,
    }
}

/// The cursor after a seek, or none where the target lies before the start
/// or past the end of the window.
pub open spec fn seek_spec(c: CursorView, from: SeekFrom) -> Option<CursorView> {
    let t = seek_target(c, from);
    if 0 <= t <= total_bytes(c.disk) {
        Some(CursorView { pos: t as nat, ..c })
    } else {
        None
    }
}

/// A window narrowed to `length` sectors from `start` reads, for each of its
/// sectors `lba`, the same drive sector as its parent reads for sector
/// `start + lba`, and refuses every sector from `length` on.
pub proof fn narrowed_reads_match_parent(parent: DiskView, start: nat, length: nat, lba: nat)
    requires
        start + length <= parent.length,
    ensures
        narrow_spec(parent, start, length) is Some,
        lba < length ==> device_sector(narrow_spec(parent, start, length)->Some_0, lba)
            == device_sector(parent, start + lba),
        lba >= length ==> device_sector(narrow_spec(parent, start, length)->Some_0, lba) is None,
{
}

/// Whether `sectors` are the window's sectors as direct reads give them,
/// and the cursor's cached sector, if any, is one of them.
pub open spec fn cache_matches(c: CursorView, sectors: Seq<Seq<u8>>) -> bool {
    &&& sectors.len() == c.disk.length
    &&& forall|k: int| 0 <= k < sectors.len() ==> #[trigger] sectors[k].len() == 512
    &&& c.cached is Some ==> c.cached->Some_0.1 == sectors[c.cached->Some_0.0 as int]
}

/// Filling the cache with a sector as a direct read gives it, and reading,
/// keep the cache true to the window.
pub proof fn cache_stays_true(c: CursorView, sectors: Seq<Seq<u8>>, lba: nat, want: nat)
    requires
        cursor_wf(c),
        cache_matches(c, sectors),
        lba < c.disk.length,
    ensures
        cache_matches(fill_spec(c, lba, sectors[lba as int]), sectors),
        cache_matches(read_spec(c, want).1, sectors),
{
}

/// Seeking to byte `p` of the window and reading one byte gives the byte
/// that a direct read of window sector `p / 512` holds at `p % 512`: at
/// once where that sector is cached, else after the cursor asks for it and
/// is given it.
pub proof fn seek_then_read_byte(c: CursorView, p: u64, sectors: Seq<Seq<u8>>)
    requires
        cursor_wf(c),
        cache_matches(c, sectors),
        p < total_bytes(c.disk),
    ensures
        seek_spec(c, SeekFrom::Start(p)) is Some,
        ({
            let s = seek_spec(c, SeekFrom::Start(p))->Some_0;
            let sector = p as nat / 512;
            let byte = sectors[sector as int][(p % 512) as int];
            &&& s.pos == p
            &&& cache_matches(s, sectors)
            &&& device_sector(s.disk, sector) == Some(c.disk.start + sector)
            &&& (s.cached is Some && s.cached->Some_0.0 == sector) ==> read_spec(s, 1) == (
                Ok::<ReadView, LoaderError>(ReadView::Bytes(seq![byte])),
                CursorView { pos: (p + 1) as nat, ..s },
            )
            &&& !(s.cached is Some && s.cached->Some_0.0 == sector) ==> read_spec(s, 1).0 == Ok::<
                ReadView,
                LoaderError,
            >(ReadView::NeedSector(sector))
            &&& read_spec(fill_spec(s, sector, sectors[sector as int]), 1).0 == Ok::<
                ReadView,
                LoaderError,
            >(ReadView::Bytes(seq![byte]))
        }),
{
    let s = seek_spec(c, SeekFrom::Start(p))->Some_0;
    let len = c.disk.length;
    let sector = p as nat / 512;
    assert(sector < len) by (nonlinear_arith)
        requires
            p < len * 512,
            sector == p as nat / 512,
    ;
    let data = sectors[sector as int];
    assert(data.len() == 512);
    assert(data.subrange((p % 512) as int, (p % 512) as int + 1) =~= seq![data[(p % 512) as int]]);
}

/// At the end of the window a read yields no bytes and leaves the cursor as
/// it is. A read of `k` bytes from `k` before the end yields the last `k`
/// bytes of the last sector as a direct read gives them, at once where that
/// sector is cached, else after the cursor asks for it and is given it; the
/// cursor then stands at the end.
pub proof fn reads_at_boundaries(c: CursorView, sectors: Seq<Seq<u8>>, k: nat, want: nat)
    requires
        cursor_wf(c),
        cache_matches(c, sectors),
    ensures
        c.pos == total_bytes(c.disk) ==> read_spec(c, want) == (
            Ok::<ReadView, LoaderError>(ReadView::Bytes(Seq::empty())),
            c,
        ),
        ({
            let last = c.disk.length - 1;
            let tail = sectors[last].subrange(512 - k, 512);
            let end = CursorView { pos: total_bytes(c.disk), ..c };
            (1 <= k <= 512 && c.disk.length > 0 && c.pos + k == total_bytes(c.disk)) ==> {
                &&& (c.cached is Some && c.cached->Some_0.0 == last) ==> read_spec(c, k) == (
                    Ok::<ReadView, LoaderError>(ReadView::Bytes(tail)),
                    end,
                )
                &&& !(c.cached is Some && c.cached->Some_0.0 == last) ==> read_spec(c, k).0
                    == Ok::<ReadView, LoaderError>(ReadView::NeedSector(last as nat))
                &&& read_spec(fill_spec(c, last as nat, sectors[last]), k) == (
                    Ok::<ReadView, LoaderError>(ReadView::Bytes(tail)),
                    CursorView { pos: total_bytes(c.disk), ..fill_spec(c, last as nat, sectors[last]) },
                )
                &&& read_spec(read_spec(fill_spec(c, last as nat, sectors[last]), k).1, want).0
                    == Ok::<ReadView, LoaderError>(ReadView::Bytes(Seq::empty()))
            }
        }),
{
    let len = c.disk.length;
    if c.pos == total_bytes(c.disk) {
        assert(c.pos / 512 == len && c.pos % 512 == 0) by (nonlinear_arith)
            requires
                c.pos == len * 512,
        ;
    }
    if 1 <= k <= 512 && len > 0 && c.pos + k == total_bytes(c.disk) {
        assert(c.pos / 512 == len - 1 && c.pos % 512 == 512 - k) by (nonlinear_arith)
            requires
                c.pos + k == len * 512,
                1 <= k <= 512,
                len > 0,
        ;
        assert(total_bytes(c.disk) / 512 == len && total_bytes(c.disk) % 512 == 0) by (nonlinear_arith)
            requires
                total_bytes(c.disk) == len * 512,
        ;
    }
}

impl View for DiskCursor {
    type V = CursorView;

    closed spec fn view(&self) -> CursorView {
        CursorView {
            disk: self.disk@,
            pos: self.pos as nat,
            cached: match self.lba_in_buffer {
                Some(l) => Some((l as nat, self.buffer@)),
                None => None,
            },
        }
    }
}

impl DiskCursor {
    /// Whether the cursor lies within its window and holds a whole sector.
    pub closed spec fn wf(&self) -> bool {
        &&& cursor_wf(self@)
        &&& self.buffer@.len() == 512
    }

    /// The window the cursor reads.
    pub fn disk(&self) -> (r: Disk)
        requires
            self.wf(),
        ensures
            r@ == self@.disk,
            r.wf(),
    {
        self.disk
    }

    /// The byte position.
    pub fn position(&self) -> (r: u64)
        ensures
            r == self@.pos,
    {
        self.pos
    }

    /// Reads at most `want` bytes from the cached sector that holds the
    /// position. Asks for that sector first where it is not cached; gives
    /// no bytes at the end of the window.
    pub fn read(&mut self, want: usize) -> (r: Result<ReadOutcome, LoaderError>)
        requires
            old(self).wf(),
        ensures
            final(self).wf(),
            (outcome_view(r), final(self)@) == read_spec(old(self)@, want as nat),
    {
        let sector = self.pos / 512;
        let offset = (self.pos % 512) as usize;
        if sector >= self.disk.length {
            if offset == 0 {
                return Ok(ReadOutcome::Bytes(Vec::new()));
            }
            return Err(LoaderError::RangeError);
        }
        match self.lba_in_buffer {
            Some(l) => {
                if l != sector {
                    return Ok(ReadOutcome::NeedSector(sector));
                }
            },
            None => {
                return Ok(ReadOutcome::NeedSector(sector));
            },
        }
        let amount = if want < SECTOR_BYTES - offset {
            want
        } else {
            SECTOR_BYTES - offset
        };
        let mut out: Vec<u8> = Vec::new();
        let mut i: usize = 0;
        while i < amount
            invariant
                self.wf(),
                offset + amount <= 512,
                i <= amount,
                out@ == self.buffer@.subrange(offset as int, offset + i),
            decreases amount - i,
        {
            out.push(self.buffer[offset + i]);
            i += 1;
            proof {
                assert(out@ =~= self.buffer@.subrange(offset as int, offset + i));
            }
        }
        proof {
            assert(self.pos + amount <= self.disk.length * 512) by (nonlinear_arith)
                requires
                    sector == self.pos / 512,
                    sector < self.disk.length,
                    offset == self.pos % 512,
                    offset + amount <= 512,
            ;
        }
        self.pos = self.pos + amount as u64;
        Ok(ReadOutcome::Bytes(out))
    }

    /// Caches `data` as window sector `lba`.
    pub fn fill(&mut self, lba: u64, data: &[u8])
        requires
            old(self).wf(),
            lba < old(self)@.disk.length,
            data@.len() == 512,
        ensures
            final(self).wf(),
            final(self)@ == fill_spec(old(self)@, lba as nat, data@),
    {
        self.buffer = copy_bytes(data);
        self.lba_in_buffer = Some(lba);
    }

    /// Moves the position; a target before the start or past the end of the
    /// window is a range error and leaves the cursor where it was.
    pub fn seek(&mut self, from: SeekFrom) -> (r: Result<u64, LoaderError>)
        requires
            old(self).wf(),
        ensures
            final(self).wf(),
            match seek_spec(old(self)@, from) {
                Some(v) => r == Ok::<u64, LoaderError>(v.pos as u64) && final(self)@ == v,
                None => r == Err::<u64, LoaderError>(LoaderError::RangeError) && final(self)@
                    == old(self)@,
            },
    {
        let total: i128 = self.disk.length as i128 * 512;
        let target: i128 = match from {
            SeekFrom::Start(o) => o as i128,
            SeekFrom::End(o) => total + o as i128,
            SeekFrom::Current(o) => self.pos as i128 + o as i128,
        };
        if target < 0 || target > total {
            return Err(LoaderError::RangeError);
        }
        self.pos = target as u64;
        Ok(self.pos)
    }
}

} // verus!
