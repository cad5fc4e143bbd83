//! The block list that stage one walks to load stage two: built from a
//! file's extents, stored in the boot sector, and turned into sector reads.
use vstd::prelude::*;

use crate::bytes::{le32, push_le_u32, read_le_u32};
use crate::disk::Dap;
use crate::error::LoaderError;
use crate::layout::BOOT_SEGMENT;

verus! {

/// Entries the boot sector has room for.
pub const BLOCKLIST_CAPACITY: usize = 10;
/// Bytes of one stored entry: first sector, then sector count.
pub const BLOCK_BYTES: usize = 8;
/// Bytes of the stored list.
pub const BLOCKLIST_BYTES: usize = 80;
/// Offset of the stored list in the boot sector.
pub const BLOCKLIST_OFFSET: usize = 360;
/// Bytes of loader code that fit before the partition table.
pub const BOOT_CODE_BYTES: usize = 440;

/// A run of bytes on disk.
#[derive(Clone, Copy, Debug, PartialEq, Eq, Structural)]
pub struct ByteExtent {
    pub start: u64,
    pub size: u32,
}

/// A stored entry: `count` sectors from sector `offset`; a zero count ends
/// the list.
#[derive(Clone, Copy, Debug, PartialEq, Eq, Structural)]
pub struct Blocks {
    pub offset: u32,
    pub count: u32,
}

/// The list after `e` is added: merged into the last extent where it
/// starts where that one ends, else appended; none where it would be the
/// eleventh entry.
pub open spec fn push_spec(list: Seq<ByteExtent>, e: ByteExtent) -> Option<Seq<ByteExtent>> {
    if list.len() > 0 && list.last().start + list.last().size == e.start && list.last().size + e.size
        <= u32::MAX {
        Some(
            list.update(
                list.len() - 1,
                ByteExtent { start: list.last().start, size: (list.last().size + e.size) as u32 },
            ),
        )
    } else if list.len() < BLOCKLIST_CAPACITY {
        Some(list.push(e))
    } else {
        None
    }
}

/// The extents of a file in disk order, adjacent ones merged, at most ten.
#[derive(Debug)]
pub struct Blocklist {
    extents: Vec<ByteExtent>,
}

impl View for Blocklist {
    type V = Seq<ByteExtent>;

    closed spec fn view(&self) -> Seq<ByteExtent> {
        self.extents@
    }
}

impl Blocklist {
    /// An empty list.
    pub fn new() -> (r: Blocklist)
        ensures
            r@ == Seq::<ByteExtent>::empty(),
    {
        Blocklist { extents: Vec::new() }
    }

    /// The extents.
    pub fn extents(&self) -> (r: Vec<ByteExtent>)
        ensures
            r@ == self@,
    {
        self.extents.clone()
    }

    /// Adds the next extent of the file; a list that would need more than
    /// ten entries is a capacity error and stays as it was.
    pub fn push(&mut self, start: u64, size: u32) -> (r: Result<(), LoaderError>)
        requires
            old(self)@.len() <= BLOCKLIST_CAPACITY,
        ensures
            final(self)@.len() <= BLOCKLIST_CAPACITY,
            match push_spec(old(self)@, ByteExtent { start, size }) {
                Some(l) => r is Ok && final(self)@ == l,
                None => r == Err::<(), LoaderError>(LoaderError::CapacityError) && final(self)@
                    == old(self)@,
            },
    {
        let n = self.extents.len();
        if n > 0 {
            let last = self.extents[n - 1];
            if last.start as u128 + last.size as u128 == start as u128 && last.size as u64
                + size as u64 <= u32::MAX as u64 {
                self.extents[n - 1] = ByteExtent { start: last.start, size: last.size + size };
                return Ok(());
            }
        }
        if n >= BLOCKLIST_CAPACITY {
            return Err(LoaderError::CapacityError);
        }
        self.extents.push(ByteExtent { start, size });
        Ok(())
    }

    /// The list as stage one reads it: for each extent its first sector
    /// and its length rounded up to whole sectors, then zeros up to eighty
    /// bytes. An extent that does not start on a sector boundary, or past
    /// what 32 bits can number, is a format error.
    pub fn encode(&self) -> (r: Result<Vec<u8>, LoaderError>)
        requires
            self@.len() <= BLOCKLIST_CAPACITY,
        ensures
            r is Err <==> exists|i: int|
                0 <= i < self@.len() && !(#[trigger] self@[i].start % 512 == 0 && self@[i].start / 512
                    <= u32::MAX),
            r is Err ==> r == Err::<Vec<u8>, LoaderError>(LoaderError::FormatError),
            r is Ok ==> {
                let b = r->Ok_0@;
                &&& b.len() == BLOCKLIST_BYTES
                &&& forall|i: int|
                    0 <= i < self@.len() ==> le32(#[trigger] b.subrange(8 * i, 8 * i + 4))
                        == self@[i].start / 512 && le32(b.subrange(8 * i + 4, 8 * i + 8)) == (
                    self@[i].size + 511) / 512
                &&& forall|k: int| 8 * self@.len() <= k < BLOCKLIST_BYTES ==> b[k] == 0
            },
    {
        let mut out: Vec<u8> = Vec::new();
        let mut i: usize = 0;
        while i < self.extents.len()
            invariant
                i <= self@.len() <= BLOCKLIST_CAPACITY,
                out@.len() == 8 * i,
                forall|j: int|
                    0 <= j < i ==> (#[trigger] self@[j].start % 512 == 0 && self@[j].start / 512
                        <= u32::MAX),
                forall|j: int|
                    0 <= j < i ==> le32(#[trigger] out@.subrange(8 * j, 8 * j + 4)) == self@[j].start
                        / 512 && le32(out@.subrange(8 * j + 4, 8 * j + 8)) == (self@[j].size + 511)
                        / 512,
            decreases self@.len() - i,
        {
            let e = self.extents[i];
            if e.start % 512 != 0 || e.start / 512 > u32::MAX as u64 {
                return Err(LoaderError::FormatError);
            }
            let ghost before = out@;
            push_le_u32(&mut out, (e.start / 512) as u32);
            let ghost mid = out@;
            push_le_u32(&mut out, ((e.size as u64 + 511) / 512) as u32);
            proof {
                assert forall|j: int| 0 <= j < i + 1 implies le32(
                    #[trigger] out@.subrange(8 * j, 8 * j + 4),
                ) == self@[j].start / 512 && le32(out@.subrange(8 * j + 4, 8 * j + 8)) == (
                self@[j].size + 511) / 512 by {
                    if j < i {
                        assert(out@.subrange(8 * j, 8 * j + 4) =~= before.subrange(8 * j, 8 * j + 4));
                        assert(out@.subrange(8 * j + 4, 8 * j + 8) =~= before.subrange(
                            8 * j + 4,
                            8 * j + 8,
                        ));
                    } else {
                        assert(out@.subrange(8 * j, 8 * j + 4) =~= mid.subrange(8 * j, 8 * j + 4));
                    }
                }
            }
            i += 1;
        }
        let ghost filled = out@;
        while out.len() < BLOCKLIST_BYTES
            invariant
                8 * self@.len() <= out@.len() <= BLOCKLIST_BYTES,
                out@.subrange(0, 8 * self@.len() as int) == filled.subrange(0, 8 * self@.len() as int),
                filled.len() == 8 * self@.len(),
                forall|k: int| 8 * self@.len() <= k < out@.len() ==> out@[k] == 0,
            decreases BLOCKLIST_BYTES - out@.len(),
        {
            let ghost prev = out@;
            out.push(0);
            assert(out@.subrange(0, 8 * self@.len() as int) =~= prev.subrange(0, 8 * self@.len() as int));
        }
        proof {
            let n = 8 * self@.len() as int;
            assert(filled.subrange(0, n) =~= filled);
            assert forall|j: int| 0 <= j < self@.len() implies le32(
                #[trigger] out@.subrange(8 * j, 8 * j + 4),
            ) == self@[j].start / 512 && le32(out@.subrange(8 * j + 4, 8 * j + 8)) == (self@[j].size
                + 511) / 512 by {
                assert(out@.subrange(8 * j, 8 * j + 4) =~= out@.subrange(0, n).subrange(8 * j, 8 * j + 4));
                assert(out@.subrange(8 * j + 4, 8 * j + 8) =~= out@.subrange(0, n).subrange(
                    8 * j + 4,
                    8 * j + 8,
                ));
            }
        }
        Ok(out)
    }
}

/// Two extents where the second starts where the first ends make one
/// entry; two with a gap between them stay two.
pub proof fn contiguous_extents_coalesce(a: ByteExtent, b: ByteExtent)
    requires
        a.size + b.size <= u32::MAX,
    ensures
        ({
            let one = push_spec(Seq::empty(), a)->Some_0;
            &&& push_spec(Seq::empty(), a) is Some
            &&& a.start + a.size == b.start ==> push_spec(one, b) == Some(
                seq![ByteExtent { start: a.start, size: (a.size + b.size) as u32 }],
            )
            &&& a.start + a.size != b.start ==> push_spec(one, b) == Some(seq![a, b])
        }),
{
    let one = push_spec(Seq::empty(), a)->Some_0;
    assert(one =~= seq![a]);
    assert(seq![a].update(0, ByteExtent { start: a.start, size: (a.size + b.size) as u32 })
        =~= seq![ByteExtent { start: a.start, size: (a.size + b.size) as u32 }]);
    assert(seq![a].push(b) =~= seq![a, b]);
}

/// A list of ten entries, none of which the next extent continues, refuses
/// it.
pub proof fn eleventh_extent_refused(list: Seq<ByteExtent>, e: ByteExtent)
    requires
        list.len() == BLOCKLIST_CAPACITY,
        list.last().start + list.last().size != e.start,
    ensures
        push_spec(list, e) is None,
{
}

/// The entries of a stored list before the first zero count.
pub open spec fn live_blocks(entries: Seq<Blocks>) -> Seq<Blocks>
    decreases entries.len(),
{
    if entries.len() == 0 || entries[0].count == 0 {
        Seq::empty()
    } else {
        seq![entries[0]] + live_blocks(entries.drop_first())
    }
}

/// The sectors that the first `n` entries cover.
pub open spec fn sectors_before(entries: Seq<Blocks>, n: int) -> int
    decreases n,
{
    if n <= 0 {
        0
    } else {
        sectors_before(entries, n - 1) + entries[n - 1].count
    }
}

/// Decodes the stored list: ten entries of first sector and count.
pub fn parse_blocklist(bytes: &[u8]) -> (r: Vec<Blocks>)
    requires
        bytes@.len() == BLOCKLIST_BYTES,
    ensures
        r@.len() == BLOCKLIST_CAPACITY,
        forall|i: int|
            0 <= i < BLOCKLIST_CAPACITY ==> #[trigger] r@[i] == (Blocks {
                offset: le32(bytes@.subrange(8 * i, 8 * i + 4)) as u32,
                count: le32(bytes@.subrange(8 * i + 4, 8 * i + 8)) as u32,
            }),
{
    let mut r: Vec<Blocks> = Vec::new();
    let mut i: usize = 0;
    while i < BLOCKLIST_CAPACITY
        invariant
            bytes@.len() == BLOCKLIST_BYTES,
            i <= BLOCKLIST_CAPACITY,
            r@.len() == i,
            forall|j: int|
                0 <= j < i ==> #[trigger] r@[j] == (Blocks {
                    offset: le32(bytes@.subrange(8 * j, 8 * j + 4)) as u32,
                    count: le32(bytes@.subrange(8 * j + 4, 8 * j + 8)) as u32,
                }),
        decreases BLOCKLIST_CAPACITY - i,
    {
        let offset = read_le_u32(&bytes[8 * i..8 * i + 4]);
        let count = read_le_u32(&bytes[8 * i + 4..8 * i + 8]);
        r.push(Blocks { offset, count });
        i += 1;
    }
    r
}

/// Whether `reqs` are the reads of stage one for the entries of `entries`
/// before the first zero count: each entry read whole into the boot segment
/// at `dest`, advanced by the sectors of the entries before it.
pub open spec fn stage_two_reads(entries: Seq<Blocks>, dest: u32, reqs: Seq<Dap>) -> bool {
    let live = live_blocks(entries);
    &&& reqs.len() == live.len()
    &&& forall|i: int|
        0 <= i < reqs.len() ==> #[trigger] reqs[i] == Dap::new_spec(
            live[i].count as u16,
            ((BOOT_SEGMENT as int) * 0x10000 + dest + 512 * sectors_before(live, i)) as u32,
            live[i].offset as u64,
        )
}

proof fn lemma_live_step(entries: Seq<Blocks>, i: int)
    requires
        0 <= i <= entries.len(),
        forall|j: int| 0 <= j < i ==> #[trigger] entries[j].count != 0,
    ensures
        live_blocks(entries).len() >= i,
        forall|j: int| 0 <= j < i ==> #[trigger] live_blocks(entries)[j] == entries[j],
        i < entries.len() && entries[i].count == 0 ==> live_blocks(entries).len() == i,
        i == entries.len() ==> live_blocks(entries).len() == i,
    decreases i,
{
    if i > 0 {
        let rest = entries.drop_first();
        assert forall|j: int| 0 <= j < i - 1 implies #[trigger] rest[j].count != 0 by {
            assert(rest[j] == entries[j + 1]);
        }
        lemma_live_step(rest, i - 1);
        assert forall|j: int| 0 <= j < i implies #[trigger] live_blocks(entries)[j] == entries[j] by {
            if j > 0 {
                assert(live_blocks(rest)[j - 1] == rest[j - 1]);
            }
        }
    }
}

proof fn lemma_sectors_prefix(a: Seq<Blocks>, b: Seq<Blocks>, n: int)
    requires
        0 <= n <= a.len(),
        n <= b.len(),
        forall|j: int| 0 <= j < n ==> a[j] == b[j],
    ensures
        sectors_before(a, n) == sectors_before(b, n),
    decreases n,
{
    if n > 0 {
        lemma_sectors_prefix(a, b, n - 1);
    }
}

proof fn lemma_sectors_monotone(s: Seq<Blocks>, a: int, b: int)
    requires
        0 <= a <= b,
    ensures
        sectors_before(s, a) <= sectors_before(s, b),
    decreases b - a,
{
    if a < b {
        lemma_sectors_monotone(s, a, b - 1);
    }
}

/// The reads of stage one for a stored list, into the boot segment from
/// offset `dest`; a destination that would leave the 64 KiB segment, or an
/// entry too long for one read, is a capacity error.
pub fn stage_two_requests(entries: &[Blocks], dest: u16) -> (r: Result<Vec<Dap>, LoaderError>)
    ensures
        r is Ok ==> stage_two_reads(entries@, dest as u32, r->Ok_0@),
        r is Err ==> r == Err::<Vec<Dap>, LoaderError>(LoaderError::CapacityError),
        r is Ok <==> (forall|i: int|
            0 <= i < live_blocks(entries@).len() ==> #[trigger] live_blocks(entries@)[i].count
                <= 0xffff) && dest + 512 * sectors_before(
            live_blocks(entries@),
            live_blocks(entries@).len() as int,
        ) <= 0x10000,
{
    let mut reqs: Vec<Dap> = Vec::new();
    let mut at: u32 = dest as u32;
    let mut i: usize = 0;
    let ghost live = live_blocks(entries@);
    proof {
        lemma_live_step(entries@, 0);
        lemma_sectors_monotone(live, 0, live.len() as int);
    }
    loop
        invariant
            i <= entries@.len(),
            live == live_blocks(entries@),
            forall|j: int| 0 <= j < i ==> #[trigger] entries@[j].count != 0,
            live.len() >= i,
            forall|j: int| 0 <= j < i ==> #[trigger] live[j] == entries@[j],
            reqs@.len() == i,
            forall|j: int| 0 <= j < i ==> #[trigger] live[j].count <= 0xffff,
            at == dest + 512 * sectors_before(live, i as int),
            at <= 0x10000,
            forall|j: int|
                0 <= j < i ==> #[trigger] reqs@[j] == Dap::new_spec(
                    live[j].count as u16,
                    ((BOOT_SEGMENT as int) * 0x10000 + dest + 512 * sectors_before(live, j)) as u32,
                    live[j].offset as u64,
                ),
            (forall|j: int| 0 <= j < live.len() ==> #[trigger] live[j].count <= 0xffff) && dest + 512
                * sectors_before(live, live.len() as int) <= 0x10000 ==> sectors_before(live, i as int)
                <= sectors_before(live, live.len() as int),
        ensures
            reqs@.len() == live.len(),
            forall|j: int| 0 <= j < live.len() ==> #[trigger] live[j].count <= 0xffff,
            at == dest + 512 * sectors_before(live, live.len() as int),
            at <= 0x10000,
            forall|j: int|
                0 <= j < reqs@.len() ==> #[trigger] reqs@[j] == Dap::new_spec(
                    live[j].count as u16,
                    ((BOOT_SEGMENT as int) * 0x10000 + dest + 512 * sectors_before(live, j)) as u32,
                    live[j].offset as u64,
                ),
        decreases entries@.len() - i,
    {
        if i >= entries.len() {
            proof {
                lemma_live_step(entries@, i as int);
            }
            break;
        }
        let chunk = entries[i];
        if chunk.count == 0 {
            proof {
                lemma_live_step(entries@, i as int);
            }
            break;
        }
        proof {
            lemma_live_step(entries@, i as int + 1);
            lemma_sectors_monotone(live, i as int + 1, live.len() as int);
        }
        if chunk.count > 0xffff || chunk.count as u64 * 512 > 0x10000 - at as u64 {
            return Err(LoaderError::CapacityError);
        }
        let buffer = ((BOOT_SEGMENT as u32) << 16u32) | at;
        assert(((BOOT_SEGMENT as u32) << 16u32) | at == 0x07c0 * 0x10000 + at) by (bit_vector)
            requires
                at < 0x10000,
                BOOT_SEGMENT == 0x07c0,
        ;
        reqs.push(Dap::new(chunk.count as u16, buffer, chunk.offset as u64));
        at = at + chunk.count * 512;
        i += 1;
    }
    Ok(reqs)
}

/// The loader code of the boot sector: stage one, zero-padded to 440
/// bytes, with the stored list at its fixed offset. Stage one must leave
/// the list's bytes free: a longer one is a capacity error.
pub fn boot_code(stage1: &[u8], list: &[u8]) -> (r: Result<Vec<u8>, LoaderError>)
    requires
        list@.len() == BLOCKLIST_BYTES,
    ensures
        stage1@.len() > BOOT_CODE_BYTES ==> r == Err::<Vec<u8>, LoaderError>(LoaderError::CapacityError),
        stage1@.len() <= BOOT_CODE_BYTES ==> r is Ok && {
            let b = r->Ok_0@;
            &&& b.len() == BOOT_CODE_BYTES
            &&& b.subrange(BLOCKLIST_OFFSET as int, BOOT_CODE_BYTES as int) == list@
            &&& forall|k: int|
                0 <= k < BLOCKLIST_OFFSET ==> b[k] == if k < stage1@.len() {
                    stage1@[k]
                } else {
                    0u8
                }
        },
{
    if stage1.len() > BOOT_CODE_BYTES {
        return Err(LoaderError::CapacityError);
    }
    let mut out: Vec<u8> = Vec::new();
    while out.len() < BLOCKLIST_OFFSET
        invariant
            out@.len() <= BLOCKLIST_OFFSET,
            forall|k: int| 0 <= k < out@.len() ==> out@[k] == if k < stage1@.len() {
                stage1@[k]
            } else {
                0u8
            },
        decreases BLOCKLIST_OFFSET - out@.len(),
    {
        let k = out.len();
        if k < stage1.len() {
            out.push(stage1[k]);
        } else {
            out.push(0);
        }
    }
    let mut j: usize = 0;
    while j < BLOCKLIST_BYTES
        invariant
            out@.len() == BLOCKLIST_OFFSET + j,
            j <= BLOCKLIST_BYTES,
            list@.len() == BLOCKLIST_BYTES,
            forall|k: int| 0 <= k < BLOCKLIST_OFFSET ==> out@[k] == if k < stage1@.len() {
                stage1@[k]
            } else {
                0u8
            },
            out@.subrange(BLOCKLIST_OFFSET as int, out@.len() as int) == list@.subrange(0, j as int),
        decreases BLOCKLIST_BYTES - j,
    {
        out.push(list[j]);
        j += 1;
        assert(out@.subrange(BLOCKLIST_OFFSET as int, out@.len() as int) =~= list@.subrange(0, j as int));
    }
    assert(list@.subrange(0, BLOCKLIST_BYTES as int) =~= list@);
    Ok(out)
}

} // verus!
