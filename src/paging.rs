//! Four-level page tables that identity-map the first 2 MiB.
use vstd::prelude::*;

verus! {

/// The physical frame bits of an entry.
pub const ADDRMASK: u64 = 0x000f_ffff_ffff_f000;
/// Entry bit: the mapping is present.
pub const PRESENT: u64 = 1;
/// Entry bit: the mapping is writable.
pub const WRITABLE: u64 = 2;
/// Entry bit: the entry maps a large page.
pub const HUGE_PAGE: u64 = 0x80;
/// Entries in one table.
pub const ENTRIES: usize = 512;
/// Control register 4 for long mode: physical address extension and
/// global pages.
pub const CR4_PAE_PGE: u64 = 0b1010_0000;

/// The entry that maps `addr` with `flags`.
pub open spec fn entry_spec(addr: u64, flags: u64) -> u64 {
    (addr & ADDRMASK) | flags
}

/// The low 32 bits of a 64-bit value.
pub open spec fn low_half(v: u64) -> u32 {
    (v & 0xffff_ffff) as u32
}

/// The high 32 bits of a 64-bit value.
pub open spec fn high_half(v: u64) -> u32 {
    (v >> 32) as u32
}

/// Writes a 64-bit slot as two 32-bit stores, low half first. The slot
/// holds neither value between the stores: nothing may read it then.
pub fn write_wide(slot: &mut u64, low: u32, high: u32)
    ensures
        low_half(*final(slot)) == low,
        high_half(*final(slot)) == high,
        *final(slot) == (high as u64) * 0x1_0000_0000 + low as u64,
{
    let old_value = *slot;
    let with_low = (old_value & 0xffff_ffff_0000_0000) | (low as u64);
    *slot = with_low;
    let with_high = (with_low & 0xffff_ffff) | ((high as u64) << 32u64);
    *slot = with_high;
    assert({
        &&& (with_high & 0xffff_ffff) as u32 == low
        &&& (with_high >> 32u64) as u32 == high
        &&& with_high == (high as u64) * 0x1_0000_0000 + low as u64
    }) by (bit_vector)
        requires
            with_low == (old_value & 0xffff_ffff_0000_0000) | (low as u64),
            with_high == (with_low & 0xffff_ffff) | ((high as u64) << 32u64),
    ;
}

/// One level of the paging hierarchy: 512 entries.
#[derive(Clone, Copy, Debug)]
pub struct PageTable {
    entries: [u64; 512],
}

impl View for PageTable {
    type V = Seq<u64>;

    closed spec fn view(&self) -> Seq<u64> {
        self.entries@
    }
}

impl PageTable {
    /// A table with every entry clear.
    pub fn new() -> (r: PageTable)
        ensures
            r@ == Seq::new(512, |i: int| 0u64),
            r@.len() == 512,
    {
        let r = PageTable { entries: [0u64; 512] };
        assert(r@ =~= Seq::new(512, |i: int| 0u64));
        r
    }

    /// Clears every entry.
    pub fn clear(&mut self)
        ensures
            final(self)@ == Seq::new(512, |i: int| 0u64),
            final(self)@.len() == 512,
    {
        self.entries = [0u64; 512];
        assert(self@ =~= Seq::new(512, |i: int| 0u64));
    }

    /// The entry at `index`.
    pub fn entry(&self, index: usize) -> (r: u64)
        requires
            index < 512,
        ensures
            r == self@[index as int],
            self@.len() == 512,
    {
        self.entries[index]
    }

    /// Points entry `index` at the frame of `addr` with `flags`, writing it
    /// in two halves.
    pub fn map_flags(&mut self, index: usize, addr: u64, flags: u64)
        requires
            index < 512,
        ensures
            final(self)@ == old(self)@.update(index as int, entry_spec(addr, flags)),
            final(self)@.len() == 512,
    {
        let value = (addr & ADDRMASK) | flags;
        let high = (value >> 32u64) as u32;
        let low = (value & 0xffff_ffff) as u32;
        let mut slot = self.entries[index];
        write_wide(&mut slot, low, high);
        assert(slot == value) by (bit_vector)
            requires
                slot == (high as u64) * 0x1_0000_0000 + low as u64,
                high == (value >> 32u64) as u32,
                low == (value & 0xffff_ffff) as u32,
        ;
        self.entries[index] = slot;
        assert(self@ =~= old(self)@.update(index as int, entry_spec(addr, flags)));
    }

    /// Maps a table or a page, present and writable.
    pub fn map(&mut self, index: usize, addr: u64)
        requires
            index < 512,
        ensures
            final(self)@ == old(self)@.update(index as int, entry_spec(addr, PRESENT | WRITABLE)),
            final(self)@.len() == 512,
    {
        self.map_flags(index, addr, PRESENT | WRITABLE);
    }

    /// Maps a large page, present and writable.
    pub fn map_huge(&mut self, index: usize, addr: u64)
        requires
            index < 512,
        ensures
            final(self)@ == old(self)@.update(
                index as int,
                entry_spec(addr, PRESENT | WRITABLE | HUGE_PAGE),
            ),
            final(self)@.len() == 512,
    {
        self.map_flags(index, addr, PRESENT | WRITABLE | HUGE_PAGE);
    }
}

/// Where the four tables lie in physical memory.
#[derive(Clone, Copy, Debug, PartialEq, Eq, Structural)]
pub struct PagingLayout {
    pub p1: u64,
    pub p2: u64,
    pub p3: u64,
    pub p4: u64,
}

/// Whether a table address is page aligned and within the frame bits.
pub open spec fn frame_ok(a: u64) -> bool {
    a % 0x1000 == 0 && a < 0x10_0000_0000_0000
}

/// The four levels, top level `p4`.
#[derive(Clone, Copy, Debug)]
pub struct PageTables {
    pub p4: PageTable,
    pub p3: PageTable,
    pub p2: PageTable,
    pub p1: PageTable,
}

/// The frame that an entry points at, if it is present.
pub open spec fn frame_of(e: u64) -> Option<u64> {
    if e & PRESENT == PRESENT {
        Some(e & ADDRMASK)
    } else {
        None
    }
}

/// The index that virtual address `va` takes at `level` (1 to 4).
pub open spec fn level_index(va: u64, level: u64) -> int {
    ((va >> (12 + 9 * (level - 1)) as u64) & 511) as int
}

/// Walks the tables for `va`: each level's entry must be present and point
/// at the next table of `layout`; gives the frame of the last level.
pub open spec fn translate(t: PageTables, layout: PagingLayout, va: u64) -> Option<u64> {
    let e4 = t.p4@[level_index(va, 4)];
    let e3 = t.p3@[level_index(va, 3)];
    let e2 = t.p2@[level_index(va, 2)];
    let e1 = t.p1@[level_index(va, 1)];
    if frame_of(e4) == Some(layout.p3) && frame_of(e3) == Some(layout.p2) && frame_of(e2) == Some(
        layout.p1,
    ) {
        frame_of(e1)
    } else {
        None
    }
}

/// Whether every entry of the walk for `va` allows writes.
pub open spec fn writable_path(t: PageTables, va: u64) -> bool {
    &&& t.p4@[level_index(va, 4)] & WRITABLE == WRITABLE
    &&& t.p3@[level_index(va, 3)] & WRITABLE == WRITABLE
    &&& t.p2@[level_index(va, 2)] & WRITABLE == WRITABLE
    &&& t.p1@[level_index(va, 1)] & WRITABLE == WRITABLE
}

/// Builds the hierarchy that identity-maps the first 2 MiB page by page,
/// each level after the top holding one entry, to the next table.
pub fn identity_map(layout: PagingLayout) -> (r: PageTables)
    requires
        frame_ok(layout.p1),
        frame_ok(layout.p2),
        frame_ok(layout.p3),
        frame_ok(layout.p4),
    ensures
        r.p1@.len() == 512 && r.p2@.len() == 512 && r.p3@.len() == 512 && r.p4@.len() == 512,
        forall|i: int|
            0 <= i < 512 ==> #[trigger] r.p1@[i] == entry_spec((i as u64) << 12u64, PRESENT | WRITABLE),
        r.p2@[0] == entry_spec(layout.p1, PRESENT | WRITABLE),
        r.p3@[0] == entry_spec(layout.p2, PRESENT | WRITABLE),
        r.p4@[0] == entry_spec(layout.p3, PRESENT | WRITABLE),
        forall|i: int| 1 <= i < 512 ==> #[trigger] r.p2@[i] == 0 && r.p3@[i] == 0 && r.p4@[i] == 0,
        forall|va: u64|
            va < 0x20_0000 ==> #[trigger] translate(r, layout, va) == Some(
                (va & 0xffff_ffff_ffff_f000) as u64,
            ),
        forall|va: u64| va < 0x20_0000 ==> #[trigger] writable_path(r, va),
{
    let mut p1 = PageTable::new();
    assert(PRESENT | WRITABLE == 3) by (bit_vector);
    let mut i: usize = 0;
    while i < ENTRIES
        invariant
            i <= 512,
            p1@.len() == 512,
            PRESENT | WRITABLE == 3,
            forall|j: int| 0 <= j < i ==> #[trigger] p1@[j] == entry_spec((j as u64) << 12u64, 3),
        decreases 512 - i,
    {
        p1.map(i, (i as u64) << 12u64);
        assert(p1@[i as int] == entry_spec(((i as int) as u64) << 12u64, 3));
        i += 1;
    }
    let mut p2 = PageTable::new();
    p2.map(0, layout.p1);
    let mut p3 = PageTable::new();
    p3.map(0, layout.p2);
    let mut p4 = PageTable::new();
    p4.map(0, layout.p3);
    let r = PageTables { p4, p3, p2, p1 };
    assert forall|va: u64| va < 0x20_0000 implies #[trigger] translate(r, layout, va) == Some(
        (va & 0xffff_ffff_ffff_f000) as u64,
    ) by {
        let j = (va >> 12u64) & 511;
        assert({
            &&& j < 512
            &&& (va >> 21u64) & 511 == 0
            &&& (va >> 30u64) & 511 == 0
            &&& (va >> 39u64) & 511 == 0
            &&& (j << 12u64) == va & 0xffff_ffff_ffff_f000
            &&& (((j << 12u64) & 0x000f_ffff_ffff_f000) | 3) & 1 == 1
            &&& (((j << 12u64) & 0x000f_ffff_ffff_f000) | 3) & 0x000f_ffff_ffff_f000 == (j << 12u64)
        }) by (bit_vector)
            requires
                va < 0x20_0000,
                j == (va >> 12u64) & 511,
        ;
        assert forall|a: u64| frame_ok(a) implies ((a & 0x000f_ffff_ffff_f000) | 3) & 1 == 1 && ((a
            & 0x000f_ffff_ffff_f000) | 3) & 0x000f_ffff_ffff_f000 == a by {
            assert(a % 0x1000 == 0 && a < 0x10_0000_0000_0000 ==> ((a & 0x000f_ffff_ffff_f000) | 3)
                & 1 == 1 && ((a & 0x000f_ffff_ffff_f000) | 3) & 0x000f_ffff_ffff_f000 == a)
                by (bit_vector);
        }
        assert(p1@[j as int] == entry_spec(j << 12u64, 3));
        assert(level_index(va, 1) == j as int);
        assert(level_index(va, 2) == 0);
        assert(level_index(va, 3) == 0);
        assert(level_index(va, 4) == 0);
    }
    assert forall|va: u64| va < 0x20_0000 implies #[trigger] writable_path(r, va) by {
        let j = (va >> 12u64) & 511;
        assert(j < 512 && (va >> 21u64) & 511 == 0 && (va >> 30u64) & 511 == 0 && (va >> 39u64) & 511
            == 0) by (bit_vector)
            requires
                va < 0x20_0000,
                j == (va >> 12u64) & 511,
        ;
        assert forall|a: u64| #[trigger] entry_spec(a, 3) & 2 == 2 by {
            assert(((a & 0x000f_ffff_ffff_f000) | 3) & 2 == 2) by (bit_vector);
        }
        assert(level_index(va, 1) == j as int);
        assert(level_index(va, 2) == 0);
        assert(level_index(va, 3) == 0);
        assert(level_index(va, 4) == 0);
        assert(p1@[j as int] == entry_spec(j << 12u64, 3));
    }
    r
}

} // verus!
