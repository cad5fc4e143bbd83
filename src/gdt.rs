//! Segment descriptors and the global descriptor table.
use vstd::prelude::*;

use crate::error::LoaderError;

verus! {

/// Slots in the table, the null slot included.
pub const GDT_SLOTS: usize = 8;
/// Bytes in one descriptor.
pub const DESCRIPTOR_BYTES: usize = 8;

/// The operand of the table-load instructions.
#[derive(Clone, Copy, Debug, PartialEq, Eq, Structural)]
pub struct DescriptorTablePointer {
    pub limit: u16,
    pub base: u32,
}

/// A protection ring.
#[derive(Clone, Copy, Debug, PartialEq, Eq, Structural)]
pub enum PrivilegeLevel {
    Ring0,
    Ring1,
    Ring2,
    Ring3,
}

/// Whether a segment holds code or data.
#[derive(Clone, Copy, Debug, PartialEq, Eq, Structural)]
pub enum SegmentType {
    Data,
    Code,
}

/// The operand size of a segment.
#[derive(Clone, Copy, Debug, PartialEq, Eq, Structural)]
pub enum SegmentSize {
    Code16,
    Code32,
    Code64,
}

/// The ring number.
pub open spec fn ring(p: PrivilegeLevel) -> u64 {
    match p {
        PrivilegeLevel::Ring0 => 0,
        PrivilegeLevel::Ring1 => 1,
        PrivilegeLevel::Ring2 => 2,
        PrivilegeLevel::Ring3 => 3,
    }
}

/// The executable bit of the access byte.
pub open spec fn type_bit(t: SegmentType) -> u64 {
    match t {
        SegmentType::Data => 0,
        SegmentType::Code => 1,
    }
}

/// The size bits of the flags nibble: long mode in bit 0, 32-bit operands
/// in bit 1.
pub open spec fn size_bits(s: SegmentSize) -> u64 {
    match s {
        SegmentSize::Code16 => 0,
        SegmentSize::Code32 => 2,
        SegmentSize::Code64 => 1,
    }
}

/// Access byte: present, the ring, a code or data segment, its type, and
/// read or write allowed.
pub open spec fn access_byte(p: PrivilegeLevel, t: SegmentType) -> u64 {
    (0x80 + 32 * ring(p) + 0x10 + 8 * type_bit(t) + 0x02) as u64
}

/// Flags nibble: 4 KiB granularity and the size bits.
pub open spec fn flags_nibble(s: SegmentSize) -> u64 {
    (8 + 2 * size_bits(s)) as u64
}

/// Whether `e` is the descriptor of a segment with these properties: each
/// of its six fields holds its part of the base, the limit, the access
/// byte or the flags.
pub open spec fn encodes_segment(
    e: u64,
    base: u32,
    limit: u32,
    p: PrivilegeLevel,
    t: SegmentType,
    s: SegmentSize,
) -> bool {
    &&& e & 0xffff == limit & 0xffff
    &&& (e >> 16) & 0xff_ffff == base & 0xff_ffff
    &&& (e >> 40) & 0xff == access_byte(p, t)
    &&& (e >> 48) & 0xf == (limit >> 16) & 0xf
    &&& (e >> 52) & 0xf == flags_nibble(s)
    &&& e >> 56 == base >> 24
}

impl PrivilegeLevel {
    /// The ring number.
    pub fn bits(&self) -> (r: u64)
        ensures
            r == ring(*self),
    {
        match self {
            PrivilegeLevel::Ring0 => 0,
            PrivilegeLevel::Ring1 => 1,
            PrivilegeLevel::Ring2 => 2,
            PrivilegeLevel::Ring3 => 3,
        }
    }
}

impl SegmentType {
    /// The executable bit.
    pub fn bits(&self) -> (r: u64)
        ensures
            r == type_bit(*self),
    {
        match self {
            SegmentType::Data => 0,
            SegmentType::Code => 1,
        }
    }
}

impl SegmentSize {
    /// The size bits.
    pub fn bits(&self) -> (r: u64)
        ensures
            r == size_bits(*self),
    {
        match self {
            SegmentSize::Code16 => 0,
            SegmentSize::Code32 => 2,
            SegmentSize::Code64 => 1,
        }
    }
}

/// Encodes a segment descriptor.
pub fn encode_descriptor(
    base: u32,
    limit: u32,
    privilege: PrivilegeLevel,
    typ: SegmentType,
    size: SegmentSize,
) -> (e: u64)
    ensures
        encodes_segment(e, base, limit, privilege, typ, size),
{
    let b = base as u64;
    let l = limit as u64;
    let rg = privilege.bits();
    let ty = typ.bits();
    let sz = size.bits();
    let access: u64 = 0x80 | (rg << 5u64) | 0x10 | (ty << 3u64) | 0x02;
    let flags: u64 = 0x08 | (sz << 1u64);
    let e: u64 = ((b & 0xff00_0000) << 32u64) | ((b & 0x00ff_ffff) << 16u64) | ((l & 0x000f_0000)
        << 32u64) | (l & 0xffff) | (access << 40u64) | ((flags & 0xf) << 52u64);
    assert(access == 0x80 + 32 * rg + 0x10 + 8 * ty + 0x02) by (bit_vector)
        requires
            rg < 4,
            ty < 2,
            access == 0x80 | (rg << 5u64) | 0x10 | (ty << 3u64) | 0x02,
    ;
    assert(flags == 8 + 2 * sz) by (bit_vector)
        requires
            sz < 4,
            flags == 0x08 | (sz << 1u64),
    ;
    assert({
        &&& e & 0xffff == l & 0xffff
        &&& (e >> 16) & 0xff_ffff == b & 0xff_ffff
        &&& (e >> 40) & 0xff == access
        &&& (e >> 48) & 0xf == (l >> 16) & 0xf
        &&& (e >> 52) & 0xf == flags
        &&& e >> 56 == b >> 24
    }) by (bit_vector)
        requires
            b < 0x1_0000_0000,
            l < 0x1_0000_0000,
            access < 0x100,
            flags < 0x10,
            e == ((b & 0xff00_0000) << 32u64) | ((b & 0x00ff_ffff) << 16u64) | ((l & 0x000f_0000)
                << 32u64) | (l & 0xffff) | (access << 40u64) | ((flags & 0xf) << 52u64),
    ;
    e
}

/// What a table stands for: its slots and the index of the next free one.
pub struct GdtView {
    pub entries: Seq<u64>,
    pub next: nat,
}

/// A global descriptor table of eight slots; slot 0 stays null.
#[derive(Clone, Copy, Debug)]
pub struct GlobalDescriptorTable {
    table: [u64; 8],
    next: usize,
}

impl View for GlobalDescriptorTable {
    type V = GdtView;

    closed spec fn view(&self) -> GdtView {
        GdtView { entries: self.table@, next: self.next as nat }
    }
}

/// The selector of slot `index` at ring `rpl`.
pub open spec fn selector_spec(index: nat, rpl: u64) -> int {
    8 * index + rpl
}

/// The table after `entry` goes in the next free slot; none when it is
/// full.
pub open spec fn add_spec(v: GdtView, entry: u64) -> Option<GdtView> {
    if v.next < 8 {
        Some(GdtView { entries: v.entries.update(v.next as int, entry), next: v.next + 1 })
    } else {
        None
    }
}

/// The table after each of `entries` is added in turn; none once one is
/// refused.
pub open spec fn add_all(v: GdtView, entries: Seq<u64>) -> Option<GdtView>
    decreases entries.len(),
{
    if entries.len() == 0 {
        Some(v)
    } else {
        match add_spec(v, entries[0]) {
            Some(w) => add_all(w, entries.drop_first()),
            None => None,
        }
    }
}

proof fn lemma_add_all_next(v: GdtView, entries: Seq<u64>)
    requires
        1 <= v.next <= 8,
    ensures
        v.next + entries.len() <= 8 ==> add_all(v, entries) is Some && add_all(v, entries)->Some_0.next
            == v.next + entries.len(),
        v.next + entries.len() > 8 ==> add_all(v, entries) is None,
    decreases entries.len(),
{
    if entries.len() > 0 {
        if v.next < 8 {
            let w = add_spec(v, entries[0])->Some_0;
            lemma_add_all_next(w, entries.drop_first());
        }
    }
}

/// A table with only the null slot used takes seven descriptors, whatever
/// they are, and refuses an eighth.
pub proof fn seven_descriptors_fit(fresh: GdtView, entries: Seq<u64>)
    requires
        fresh.next == 1,
    ensures
        entries.len() <= 7 ==> add_all(fresh, entries) is Some,
        entries.len() == 7 ==> add_spec(add_all(fresh, entries)->Some_0, 0) is None,
        entries.len() >= 8 ==> add_all(fresh, entries) is None,
{
    lemma_add_all_next(fresh, entries);
}

impl GlobalDescriptorTable {
    /// Whether the null slot is null and `next` counts the used slots.
    pub closed spec fn wf(&self) -> bool {
        &&& 1 <= self.next <= 8
        &&& self.table[0] == 0
    }

    /// The slots still free.
    pub open spec fn free_slots(&self) -> int {
        8 - self@.next
    }

    /// A table with only the null slot used.
    pub fn new() -> (r: GlobalDescriptorTable)
        ensures
            r.wf(),
            r@.next == 1,
            r.free_slots() == 7,
            r@.entries == Seq::new(8, |i: int| 0u64),
    {
        let r = GlobalDescriptorTable { table: [0u64; 8], next: 1 };
        assert(r@.entries =~= Seq::new(8, |i: int| 0u64));
        r
    }

    /// Puts a raw descriptor in the next free slot and returns its selector;
    /// a full table is a capacity error and stays as it was.
    pub fn add_raw(&mut self, entry: u64) -> (r: Result<u16, LoaderError>)
        requires
            old(self).wf(),
        ensures
            final(self).wf(),
            match add_spec(old(self)@, entry) {
                Some(v) => r == Ok::<u16, LoaderError>(
                    selector_spec(old(self)@.next, (entry >> 45) & 3) as u16,
                ) && final(self)@ == v,
                None => r == Err::<u16, LoaderError>(LoaderError::CapacityError) && final(self)@
                    == old(self)@,
            },
    {
        if self.next >= GDT_SLOTS {
            return Err(LoaderError::CapacityError);
        }
        let index = self.next;
        self.table[index] = entry;
        self.next = self.next + 1;
        Ok(self.selector(index))
    }

    /// Encodes a segment descriptor into the next free slot and returns its
    /// selector, which carries the segment's ring; a full table is a
    /// capacity error and stays as it was.
    pub fn add_entry(
        &mut self,
        base: u32,
        limit: u32,
        privilege: PrivilegeLevel,
        typ: SegmentType,
        size: SegmentSize,
    ) -> (r: Result<u16, LoaderError>)
        requires
            old(self).wf(),
        ensures
            final(self).wf(),
            r is Ok <==> old(self).free_slots() > 0,
            r is Err ==> r == Err::<u16, LoaderError>(LoaderError::CapacityError) && final(self)@
                == old(self)@,
            r is Ok ==> {
                &&& add_spec(old(self)@, final(self)@.entries[old(self)@.next as int]) == Some(
                    final(self)@,
                )
                &&& encodes_segment(
                    final(self)@.entries[old(self)@.next as int],
                    base,
                    limit,
                    privilege,
                    typ,
                    size,
                )
                &&& r->Ok_0 == selector_spec(old(self)@.next, ring(privilege))
                &&& r->Ok_0 & 3 == ring(privilege)
            },
    {
        let e = encode_descriptor(base, limit, privilege, typ, size);
        let rg = privilege.bits();
        let ty = typ.bits();
        assert((e >> 45) & 3 == rg) by (bit_vector)
            requires
                rg < 4,
                ty < 2,
                (e >> 40) & 0xff == 0x80 + 32 * rg + 0x10 + 8 * ty + 0x02,
        ;
        let idx = self.next as u16;
        let r = self.add_raw(e);
        if let Ok(sel) = r {
            assert(sel & 3 == rg) by (bit_vector)
                requires
                    rg < 4,
                    sel == 8 * idx + rg,
                    idx < 8,
            ;
        }
        r
    }

    /// The descriptor in slot `index`.
    pub fn entry(&self, index: usize) -> (r: u64)
        requires
            index < 8,
        ensures
            r == self@.entries[index as int],
    {
        self.table[index]
    }

    /// The selector of slot `index`: the index, and the ring that the
    /// slot's descriptor holds.
    pub fn selector(&self, index: usize) -> (r: u16)
        requires
            index < 8,
        ensures
            r == selector_spec(index as nat, (self@.entries[index as int] >> 45) & 3),
    {
        let e = self.table[index];
        let bits = (e >> 45u64) & 3;
        assert(bits < 4) by (bit_vector)
            requires
                bits == (e >> 45u64) & 3,
        ;
        let rpl = bits as u16;
        let i = index as u16;
        assert(((i << 3u16) | rpl) == 8 * i + rpl) by (bit_vector)
            requires
                i < 8,
                rpl < 4,
        ;
        (i << 3u16) | rpl
    }

    /// The operand that loads this table when it lies at offset
    /// `table_offset` of the segment at `segment_base`: the bytes in use,
    /// less one, and the table's linear address.
    pub fn pointer(&self, table_offset: u32, segment_base: u32) -> (r: DescriptorTablePointer)
        requires
            self.wf(),
            table_offset + segment_base <= u32::MAX,
        ensures
            r.limit == 8 * self@.next - 1,
            r.base == table_offset + segment_base,
    {
        DescriptorTablePointer {
            limit: (self.next * DESCRIPTOR_BYTES - 1) as u16,
            base: table_offset + segment_base,
        }
    }
}

/// The selectors of the boot table that the mode switches load.
#[derive(Clone, Copy, Debug, PartialEq, Eq, Structural)]
pub struct GDTInfo {
    pub data32: u16,
    pub code64: u16,
}

/// Whether `t` is the boot table: the null slot, a flat 32-bit ring 0
/// data segment, a flat 64-bit ring 0 code segment, a 16-bit ring 0 code
/// segment of limit 0xf, and four free slots.
pub open spec fn is_boot_table(t: GdtView) -> bool {
    &&& t.next == 4
    &&& t.entries.len() == 8
    &&& t.entries[0] == 0
    &&& encodes_segment(
        t.entries[1],
        0,
        0x000f_ffff,
        PrivilegeLevel::Ring0,
        SegmentType::Data,
        SegmentSize::Code32,
    )
    &&& encodes_segment(
        t.entries[2],
        0,
        0x000f_ffff,
        PrivilegeLevel::Ring0,
        SegmentType::Code,
        SegmentSize::Code64,
    )
    &&& encodes_segment(
        t.entries[3],
        0,
        0x0000_000f,
        PrivilegeLevel::Ring0,
        SegmentType::Code,
        SegmentSize::Code16,
    )
    &&& forall|i: int| 4 <= i < 8 ==> t.entries[i] == 0
}

/// Builds the boot table: a flat 32-bit data segment, a flat 64-bit code
/// segment and a 16-bit code segment for the descent to real mode, all in
/// ring 0, in slots 1, 2 and 3.
pub fn boot_table() -> (r: (GlobalDescriptorTable, GDTInfo))
    ensures
        r.0.wf(),
        is_boot_table(r.0@),
        r.1 == (GDTInfo { data32: 0x08, code64: 0x10 }),
{
    let mut gdt = GlobalDescriptorTable::new();
    let data32 = gdt.add_entry(
        0x0000_0000,
        0x000f_ffff,
        PrivilegeLevel::Ring0,
        SegmentType::Data,
        SegmentSize::Code32,
    );
    let code64 = gdt.add_entry(
        0x0000_0000,
        0x000f_ffff,
        PrivilegeLevel::Ring0,
        SegmentType::Code,
        SegmentSize::Code64,
    );
    let code16 = gdt.add_entry(
        0x0000_0000,
        0x0000_000f,
        PrivilegeLevel::Ring0,
        SegmentType::Code,
        SegmentSize::Code16,
    );
    match (data32, code64, code16) {
        (Ok(d), Ok(c), Ok(_)) => (gdt, GDTInfo { data32: d, code64: c }),
        _ => {
            assert(false);
            (gdt, GDTInfo { data32: 0x08, code64: 0x10 })
        },
    }
}

/// The boot table of a stage, built on first use and kept.
#[derive(Clone, Copy, Debug)]
pub struct BootTables {
    built: Option<(GlobalDescriptorTable, GDTInfo)>,
}

impl BootTables {
    /// Whether the table has been built.
    pub closed spec fn is_built(&self) -> bool {
        self.built is Some
    }

    /// Whether what was built is the boot table.
    pub closed spec fn wf(&self) -> bool {
        self.built is Some ==> {
            let (t, info) = self.built->Some_0;
            t.wf() && is_boot_table(t@) && info == (GDTInfo { data32: 0x08, code64: 0x10 })
        }
    }

    /// The table and selectors, once built.
    pub closed spec fn contents(&self) -> (GlobalDescriptorTable, GDTInfo) {
        self.built->Some_0
    }

    /// Nothing built yet.
    pub fn new() -> (r: BootTables)
        ensures
            r.wf(),
            !r.is_built(),
    {
        BootTables { built: None }
    }

    /// The boot table and its selectors: built on the first call, the
    /// same on every later one.
    pub fn load(&mut self) -> (r: (GlobalDescriptorTable, GDTInfo))
        requires
            old(self).wf(),
        ensures
            final(self).wf(),
            final(self).is_built(),
            r == final(self).contents(),
            old(self).is_built() ==> *final(self) == *old(self),
            r.0.wf(),
            is_boot_table(r.0@),
            r.1 == (GDTInfo { data32: 0x08, code64: 0x10 }),
    {
        match self.built {
            Some(b) => b,
            None => {
                let b = boot_table();
                self.built = Some(b);
                b
            },
        }
    }
}

} // verus!
