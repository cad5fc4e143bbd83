//! A model of the processor state that the mode switches change, and the
//! switch sequences themselves: unreal mode, long mode, and the trampoline's
//! descent from long mode to real mode and back.
//!
//! Each step states what the processor requires before it and what it
//! changes; a sequence verifies only if every step is legal where it stands.
use vstd::prelude::*;

use crate::gdt::{DescriptorTablePointer, GDTInfo};
use crate::paging::{
    entry_spec, frame_ok, identity_map, translate, writable_path, PageTables, PagingLayout,
    CR4_PAE_PGE, PRESENT, WRITABLE,
};

verus! {

/// The real-mode interrupt vector table: 256 four-byte vectors at 0.
pub const REAL_MODE_IVT_LIMIT: u16 = 0x3ff;
/// The 16-bit code selector of the boot table.
pub const CODE16_SELECTOR: u16 = 0x18;
/// The 64-bit code selector of the boot table.
pub const CODE64_SELECTOR: u16 = 0x10;
/// The flat data selector of the boot table.
pub const DATA32_SELECTOR: u16 = 0x08;
/// The stack top that the descent to real mode runs on.
pub const REAL_STACK_TOP: u64 = 0xfff0;

/// The operand size of the code that runs.
#[derive(Clone, Copy, Debug, PartialEq, Eq, Structural)]
pub enum CodeSize {
    Bits16,
    Bits64,
}

/// The operand of the interrupt table load.
#[derive(Clone, Copy, Debug, PartialEq, Eq, Structural)]
pub struct IdtPointer {
    pub limit: u16,
    pub base: u64,
}

/// The registers that a mode switch reads or changes.
#[derive(Clone, Copy, Debug, PartialEq, Eq, Structural)]
pub struct Cpu {
    /// Control register 0, protection enable.
    pub protection: bool,
    /// Control register 0, paging.
    pub paging: bool,
    /// Control register 4, physical address extension.
    pub pae: bool,
    /// Control register 4, global pages.
    pub pge: bool,
    /// Control register 3: the physical address of the top-level table.
    pub cr3: u64,
    /// Extended feature register, long mode enable.
    pub long_enable: bool,
    /// Maskable interrupts enabled.
    pub interrupts: bool,
    /// Code segment: a selector, or a real-mode segment.
    pub code: u16,
    pub code_size: CodeSize,
    /// The instruction pointer within the code segment.
    pub ip: u64,
    /// Data, extra and stack segments, which the switches load together.
    pub data: u16,
    /// Whether the data segment's cached limit spans 4 GiB.
    pub flat_data: bool,
    pub gdt: DescriptorTablePointer,
    pub idt: IdtPointer,
    pub rsp: u64,
    pub rbp: u64,
    pub rax: u64,
    pub rbx: u64,
    pub rcx: u64,
    pub rdx: u64,
    pub rsi: u64,
    pub rdi: u64,
}

/// The registers that a 16-bit routine hands back; all others it keeps.
#[derive(Clone, Copy, Debug, PartialEq, Eq, Structural)]
pub struct Clobbered {
    pub rax: u64,
    pub rcx: u64,
    pub rdx: u64,
}

/// Whether the loaded descriptor table holds the slot that `selector`
/// names.
pub open spec fn in_table(c: Cpu, selector: u16) -> bool {
    (selector as int / 8) * 8 + 7 <= c.gdt.limit
}

/// Whether the loaded descriptor table's limit covers four slots, as the
/// boot table's does.
pub open spec fn boot_table_loaded(c: Cpu) -> bool {
    c.gdt.limit >= 31
}

/// Real mode, where the loader starts: no protection, no paging.
pub open spec fn is_real(c: Cpu) -> bool {
    !c.protection && !c.paging && c.code_size == CodeSize::Bits16
}

/// Long mode as the boot table sets it up.
pub open spec fn is_long(c: Cpu) -> bool {
    &&& c.protection && c.paging && c.pae && c.long_enable && frame_ok(c.cr3) && c.cr3 != 0
    &&& c.code_size == CodeSize::Bits64
    &&& c.code == CODE64_SELECTOR
    &&& c.data == DATA32_SELECTOR
    &&& c.flat_data
    &&& boot_table_loaded(c)
}

/// One run of a 16-bit routine: its address, and the registers it found.
#[derive(Clone, Copy, Debug, PartialEq, Eq, Structural)]
pub struct RoutineCall {
    pub routine: u16,
    pub state: Cpu,
}

/// `c` and `d` agree on every register but the three a routine may change.
pub open spec fn same_but_clobbered(c: Cpu, d: Cpu) -> bool {
    Cpu { rax: 0, rcx: 0, rdx: 0, ..c } == Cpu { rax: 0, rcx: 0, rdx: 0, ..d }
}

impl Cpu {
    /// Masks interrupts.
    pub fn disable_interrupts(&mut self)
        ensures
            *final(self) == (Cpu { interrupts: false, ..*old(self) }),
    {
        self.interrupts = false;
    }

    /// Sets the interrupt flag to `on`.
    pub fn set_interrupts(&mut self, on: bool)
        ensures
            *final(self) == (Cpu { interrupts: on, ..*old(self) }),
    {
        self.interrupts = on;
    }

    /// Loads the interrupt table register; interrupts must be masked, as
    /// the table may not suit the mode.
    pub fn load_idt(&mut self, idt: IdtPointer)
        requires
            !old(self).interrupts,
        ensures
            *final(self) == (Cpu { idt, ..*old(self) }),
    {
        self.idt = idt;
    }

    /// Sets the long mode enable bit through the model-specific register
    /// interface, which uses the accumulator, counter and data registers;
    /// allowed only with paging off.
    pub fn enable_long_mode(&mut self)
        requires
            !old(self).paging,
        ensures
            *final(self) == (Cpu {
                long_enable: true,
                rax: old(self).rax | 0x100,
                rcx: 0xc000_0080,
                ..*old(self)
            }),
    {
        self.rcx = 0xc000_0080;
        self.rax = self.rax | 0x100;
        self.long_enable = true;
    }

    /// Loads control register 4; of its bits the model keeps address
    /// extension (bit 5) and global pages (bit 7).
    pub fn load_cr4(&mut self, value: u64)
        ensures
            *final(self) == (Cpu {
                pae: value & 0x20 != 0,
                pge: value & 0x80 != 0,
                ..*old(self)
            }),
    {
        self.pae = value & 0x20 != 0;
        self.pge = value & 0x80 != 0;
    }

    /// Sets protection in control register 0, through the accumulator.
    pub fn enable_protection(&mut self)
        requires
            !old(self).paging,
        ensures
            *final(self) == (Cpu { protection: true, rax: final(self).rax, ..*old(self) }),
    {
        self.rax = self.rax | 1;
        self.protection = true;
    }

    /// Clears protection in control register 0, through the accumulator;
    /// only 16-bit code without paging may do so.
    pub fn disable_protection(&mut self)
        requires
            !old(self).paging,
            old(self).code_size == CodeSize::Bits16,
        ensures
            *final(self) == (Cpu { protection: false, rax: final(self).rax, ..*old(self) }),
    {
        self.rax = self.rax & 0xffff_fffe;
        self.protection = false;
    }

    /// Sets paging and protection together, through the accumulator or,
    /// with `use_rbx`, the base register. Paging needs a top-level table,
    /// and address extension where long mode is enabled.
    pub fn enable_paging_and_protection(&mut self, use_rbx: bool)
        requires
            old(self).long_enable ==> old(self).pae,
            frame_ok(old(self).cr3) && old(self).cr3 != 0,
        ensures
            use_rbx ==> *final(self) == (Cpu {
                protection: true,
                paging: true,
                rbx: old(self).rbx | 0x8000_0001,
                ..*old(self)
            }),
            !use_rbx ==> *final(self) == (Cpu {
                protection: true,
                paging: true,
                rax: old(self).rax | 0x8000_0001,
                ..*old(self)
            }),
    {
        if use_rbx {
            self.rbx = self.rbx | 0x8000_0001;
        } else {
            self.rax = self.rax | 0x8000_0001;
        }
        self.protection = true;
        self.paging = true;
    }

    /// Clears paging and protection together, through the accumulator;
    /// only 16-bit code may do so.
    pub fn disable_paging_and_protection(&mut self)
        requires
            old(self).code_size == CodeSize::Bits16,
            old(self).protection,
        ensures
            *final(self) == (Cpu {
                protection: false,
                paging: false,
                rax: final(self).rax,
                ..*old(self)
            }),
    {
        self.rax = self.rax & 0x7fff_fffe;
        self.protection = false;
        self.paging = false;
    }

    /// Loads the data, extra and stack segments with `value` through the
    /// accumulator. With protection on, `flat` tells whether the descriptor
    /// is a flat 4 GiB one, and the selector must name a slot of the loaded
    /// table; in real mode the cached limit stays.
    pub fn load_data(&mut self, value: u16, flat: bool)
        requires
            old(self).protection ==> in_table(*old(self), value),
        ensures
            *final(self) == (Cpu {
                data: value,
                flat_data: if old(self).protection {
                    flat
                } else {
                    old(self).flat_data
                },
                rax: (old(self).rax & 0xffff_ffff_ffff_0000) | value as u64,
                ..*old(self)
            }),
    {
        self.rax = (self.rax & 0xffff_ffff_ffff_0000) | value as u64;
        self.data = value;
        if self.protection {
            self.flat_data = flat;
        }
    }

    /// Points control register 3 at a top-level table; paging must be off.
    pub fn load_cr3(&mut self, cr3: u64)
        requires
            !old(self).paging,
        ensures
            *final(self) == (Cpu { cr3, ..*old(self) }),
    {
        self.cr3 = cr3;
    }

    /// Loads the descriptor table register.
    pub fn load_gdt(&mut self, gdt: DescriptorTablePointer)
        ensures
            *final(self) == (Cpu { gdt, ..*old(self) }),
    {
        self.gdt = gdt;
    }

    /// Sets the stack and frame pointers.
    pub fn set_stack(&mut self, rsp: u64, rbp: u64)
        ensures
            *final(self) == (Cpu { rsp, rbp, ..*old(self) }),
    {
        self.rsp = rsp;
        self.rbp = rbp;
    }

    /// A far transfer to `target` in `code`, of size `size`. A transfer to
    /// 64-bit code needs long mode active; with protection on `code` must
    /// name a slot of the loaded table, in real mode it is a segment.
    pub fn far_jump(&mut self, code: u16, size: CodeSize, target: u64)
        requires
            old(self).protection ==> in_table(*old(self), code),
            size == CodeSize::Bits64 ==> old(self).protection && old(self).paging
                && old(self).long_enable,
            size == CodeSize::Bits16 && !old(self).protection ==> !old(self).paging,
        ensures
            *final(self) == (Cpu { code, code_size: size, ip: target, ..*old(self) }),
    {
        self.code = code;
        self.code_size = size;
        self.ip = target;
    }

    /// Calls the 16-bit routine at `routine` in real mode; it hands back the
    /// accumulator, counter and data registers and keeps all others, and
    /// returns to where it was called from. Gives the registers as the
    /// routine found them.
    pub fn call16(&mut self, routine: u16, out: Clobbered) -> (r: RoutineCall)
        requires
            is_real(*old(self)),
        ensures
            r == (RoutineCall { routine, state: Cpu { ip: routine as u64, ..*old(self) } }),
            *final(self) == (Cpu { rax: out.rax, rcx: out.rcx, rdx: out.rdx, ..*old(self) }),
    {
        let r = RoutineCall { routine, state: Cpu { ip: routine as u64, ..*self } };
        self.rax = out.rax;
        self.rcx = out.rcx;
        self.rdx = out.rdx;
        r
    }
}

/// Builds the page tables of `layout` and readies paging for long mode:
/// address extension and global pages on in control register 4, and
/// control register 3 at the top-level table.
pub fn load_paging(cpu: &mut Cpu, layout: PagingLayout) -> (r: PageTables)
    requires
        !old(cpu).paging,
        frame_ok(layout.p1),
        frame_ok(layout.p2),
        frame_ok(layout.p3),
        frame_ok(layout.p4),
        layout.p4 != 0,
    ensures
        *final(cpu) == (Cpu { pae: true, pge: true, cr3: layout.p4, ..*old(cpu) }),
        r.p1@.len() == 512 && r.p2@.len() == 512 && r.p3@.len() == 512 && r.p4@.len() == 512,
        forall|i: int|
            0 <= i < 512 ==> #[trigger] r.p1@[i] == entry_spec((i as u64) << 12u64, PRESENT | WRITABLE),
        r.p2@[0] == entry_spec(layout.p1, PRESENT | WRITABLE),
        r.p3@[0] == entry_spec(layout.p2, PRESENT | WRITABLE),
        r.p4@[0] == entry_spec(layout.p3, PRESENT | WRITABLE),
        forall|i: int| 1 <= i < 512 ==> #[trigger] r.p2@[i] == 0 && r.p3@[i] == 0 && r.p4@[i] == 0,
        forall|va: u64|
            va < 0x20_0000 ==> #[trigger] translate(r, layout, va) == Some(
                (va & 0xffff_ffff_ffff_f000) as u64,
            ),
        forall|va: u64| va < 0x20_0000 ==> #[trigger] writable_path(r, va),
{
    let tables = identity_map(layout);
    assert forall|i: int| 1 <= i < 512 implies #[trigger] tables.p2@[i] == 0 && tables.p3@[i] == 0
        && tables.p4@[i] == 0 by {
        assert(tables.p2@[i] == 0);
    }
    cpu.load_cr4(CR4_PAE_PGE);
    assert(CR4_PAE_PGE & 0x20 != 0 && CR4_PAE_PGE & 0x80 != 0) by (bit_vector);
    cpu.load_cr3(layout.p4);
    tables
}

/// Enters unreal mode from real mode: protection on for a moment to load
/// the flat data selector, off again, and the original data segment back.
/// Code still runs 16-bit in real mode, with 4 GiB data addressing.
pub fn unreal_mode(cpu: &mut Cpu, info: GDTInfo)
    requires
        is_real(*old(cpu)),
        boot_table_loaded(*old(cpu)),
        info.data32 == DATA32_SELECTOR,
    ensures
        is_real(*final(cpu)),
        final(cpu).flat_data,
        *final(cpu) == (Cpu { flat_data: true, rax: final(cpu).rax, ..*old(cpu) }),
{
    let saved_interrupts = cpu.interrupts;
    let saved_data = cpu.data;
    cpu.disable_interrupts();
    cpu.enable_protection();
    cpu.load_data(info.data32, true);
    cpu.disable_protection();
    cpu.load_data(saved_data, true);
    cpu.set_interrupts(saved_interrupts);
}

/// One step of the switch to long mode.
#[derive(Clone, Copy, Debug, PartialEq, Eq, Structural)]
pub enum LongModeStep {
    /// Mask interrupts.
    DisableInterrupts,
    /// Load the interrupt table register.
    LoadIdt(IdtPointer),
    /// Set the long mode enable bit of the extended feature register.
    EnableLongMode,
    /// Set paging and protection in one write of control register 0.
    EnablePagingAndProtection,
    /// Load the data, extra and stack segments with a flat selector.
    LoadSegments(u16),
    /// Set the stack and frame pointers.
    SetStack(u64),
    /// Transfer through a 64-bit code selector to a target.
    FarJump(u16, u64),
}

/// Whether the processor allows `step` in state `c`.
pub open spec fn step_allowed(c: Cpu, step: LongModeStep) -> bool {
    match step {
        LongModeStep::DisableInterrupts => true,
        LongModeStep::LoadIdt(_) => !c.interrupts,
        LongModeStep::EnableLongMode => !c.paging,
        LongModeStep::EnablePagingAndProtection => (c.long_enable ==> c.pae) && frame_ok(c.cr3)
            && c.cr3 != 0,
        LongModeStep::LoadSegments(v) => c.protection ==> in_table(c, v),
        LongModeStep::SetStack(_) => true,
        LongModeStep::FarJump(code, _) => c.protection && c.paging && c.long_enable && in_table(
            c,
            code,
        ),
    }
}

/// The state after `step`, taken in state `c`.
pub open spec fn step_spec(c: Cpu, step: LongModeStep) -> Cpu {
    match step {
        LongModeStep::DisableInterrupts => Cpu { interrupts: false, ..c },
        LongModeStep::LoadIdt(idt) => Cpu { idt, ..c },
        LongModeStep::EnableLongMode => Cpu {
            long_enable: true,
            rax: c.rax | 0x100,
            rcx: 0xc000_0080,
            ..c
        },
        LongModeStep::EnablePagingAndProtection => Cpu {
            protection: true,
            paging: true,
            rbx: c.rbx | 0x8000_0001,
            ..c
        },
        LongModeStep::LoadSegments(v) => Cpu {
            data: v,
            flat_data: if c.protection {
                true
            } else {
                c.flat_data
            },
            rax: (c.rax & 0xffff_ffff_ffff_0000) | v as u64,
            ..c
        },
        LongModeStep::SetStack(top) => Cpu { rsp: top, rbp: top, ..c },
        LongModeStep::FarJump(code, target) => Cpu {
            code,
            code_size: CodeSize::Bits64,
            ip: target,
            ..c
        },
    }
}

/// The state after `steps`, taken in order from `c`.
pub open spec fn run_spec(c: Cpu, steps: Seq<LongModeStep>) -> Cpu
    decreases steps.len(),
{
    if steps.len() == 0 {
        c
    } else {
        step_spec(run_spec(c, steps.drop_last()), steps.last())
    }
}

/// The steps of the switch to long mode, in order: interrupts masked, a
/// null interrupt table (a stray interrupt now faults rather than running
/// a real-mode handler), long mode enabled, paging and protection on in
/// one write, the flat data selector loaded, the stack reset to
/// `stack_top`, and a far transfer through the 64-bit code selector to
/// `entry`.
pub open spec fn long_mode_steps(info: GDTInfo, stack_top: u64, entry: u64) -> Seq<LongModeStep> {
    seq![
        LongModeStep::DisableInterrupts,
        LongModeStep::LoadIdt(IdtPointer { limit: 0, base: 0 }),
        LongModeStep::EnableLongMode,
        LongModeStep::EnablePagingAndProtection,
        LongModeStep::LoadSegments(info.data32),
        LongModeStep::SetStack(stack_top),
        LongModeStep::FarJump(info.code64, entry),
    ]
}

proof fn lemma_run_step(c: Cpu, steps: Seq<LongModeStep>, i: int)
    requires
        0 <= i < steps.len(),
    ensures
        run_spec(c, steps.subrange(0, i + 1)) == step_spec(run_spec(c, steps.subrange(0, i)), steps[i]),
{
    assert(steps.subrange(0, i + 1).drop_last() =~= steps.subrange(0, i));
}

impl Cpu {
    /// Takes one step of the switch to long mode.
    pub fn apply(&mut self, step: LongModeStep)
        requires
            step_allowed(*old(self), step),
        ensures
            *final(self) == step_spec(*old(self), step),
    {
        match step {
            LongModeStep::DisableInterrupts => self.disable_interrupts(),
            LongModeStep::LoadIdt(idt) => self.load_idt(idt),
            LongModeStep::EnableLongMode => self.enable_long_mode(),
            LongModeStep::EnablePagingAndProtection => self.enable_paging_and_protection(true),
            LongModeStep::LoadSegments(v) => self.load_data(v, true),
            LongModeStep::SetStack(top) => self.set_stack(top, top),
            LongModeStep::FarJump(code, target) => self.far_jump(code, CodeSize::Bits64, target),
        }
    }
}

/// Enters long mode from unreal mode, with the page tables loaded and
/// address extension on, taking the steps of `long_mode_steps` in order;
/// gives the steps it took. The transfer to `entry` does not come back.
pub fn long_mode(cpu: &mut Cpu, info: GDTInfo, stack_top: u64, entry: u64) -> (steps: Vec<
    LongModeStep,
>)
    requires
        is_real(*old(cpu)),
        boot_table_loaded(*old(cpu)),
        old(cpu).pae,
        frame_ok(old(cpu).cr3) && old(cpu).cr3 != 0,
        info == (GDTInfo { data32: DATA32_SELECTOR, code64: CODE64_SELECTOR }),
    ensures
        steps@ == long_mode_steps(info, stack_top, entry),
        *final(cpu) == run_spec(*old(cpu), steps@),
        is_long(*final(cpu)),
        final(cpu).ip == entry,
        !final(cpu).interrupts,
        final(cpu).idt == (IdtPointer { limit: 0, base: 0 }),
        final(cpu).rsp == stack_top && final(cpu).rbp == stack_top,
{
    let ghost start = *cpu;
    let mut steps: Vec<LongModeStep> = Vec::new();
    steps.push(LongModeStep::DisableInterrupts);
    steps.push(LongModeStep::LoadIdt(IdtPointer { limit: 0, base: 0 }));
    steps.push(LongModeStep::EnableLongMode);
    steps.push(LongModeStep::EnablePagingAndProtection);
    steps.push(LongModeStep::LoadSegments(info.data32));
    steps.push(LongModeStep::SetStack(stack_top));
    steps.push(LongModeStep::FarJump(info.code64, entry));
    assert(steps@ =~= long_mode_steps(info, stack_top, entry));
    let ghost seqs = steps@;
    assert(seqs.subrange(0, 0) =~= Seq::<LongModeStep>::empty());
    cpu.apply(steps[0]);
    proof { lemma_run_step(start, seqs, 0); }
    cpu.apply(steps[1]);
    proof { lemma_run_step(start, seqs, 1); }
    cpu.apply(steps[2]);
    proof { lemma_run_step(start, seqs, 2); }
    cpu.apply(steps[3]);
    proof { lemma_run_step(start, seqs, 3); }
    cpu.apply(steps[4]);
    proof { lemma_run_step(start, seqs, 4); }
    cpu.apply(steps[5]);
    proof { lemma_run_step(start, seqs, 5); }
    cpu.apply(steps[6]);
    proof { lemma_run_step(start, seqs, 6); }
    assert(steps@.subrange(0, 7) =~= steps@);
    steps
}

/// The registers that the descent saves and restores.
#[derive(Clone, Copy, Debug, PartialEq, Eq, Structural)]
pub struct SavedState {
    pub rsp: u64,
    pub rbp: u64,
    pub idt: IdtPointer,
    pub interrupts: bool,
}

/// The registers as the routine at `routine` finds them after a descent
/// from `before`: real mode with interrupts masked, zero segments, the low
/// stack and the real-mode vector table, and every general register but
/// the stack pointer as it was.
pub open spec fn descended(before: Cpu, routine: u16, at: Cpu) -> bool {
    &&& is_real(at)
    &&& !at.interrupts
    &&& at.code == 0 && at.data == 0
    &&& at.ip == routine
    &&& at.rsp == REAL_STACK_TOP
    &&& at.idt == (IdtPointer { limit: REAL_MODE_IVT_LIMIT, base: 0 })
    &&& at.rbp == before.rbp && at.rbx == before.rbx && at.rsi == before.rsi && at.rdi == before.rdi
}

/// Calls the 16-bit routine at `code16` from long mode: masks interrupts,
/// saves the stack pointers and interrupt table, installs the real-mode
/// vector table, transfers to 16-bit code, drops paging and protection,
/// enters real mode on a low stack and runs the routine once; then undoes
/// every step in reverse. Every register but the three the routine hands
/// back ends as it began. Gives the registers as the routine found them.
///
/// The model does not follow addresses inside the trampoline: its own
/// transfers continue at the instruction pointer it was entered with.
pub fn descend_and_call(cpu: &mut Cpu, code16: u16, out: Clobbered) -> (call: RoutineCall)
    requires
        is_long(*old(cpu)),
    ensures
        call.routine == code16,
        descended(*old(cpu), code16, call.state),
        same_but_clobbered(*old(cpu), *final(cpu)),
        final(cpu).rcx == out.rcx,
        final(cpu).rdx == out.rdx,
{
    let saved = SavedState {
        rsp: cpu.rsp,
        rbp: cpu.rbp,
        idt: cpu.idt,
        interrupts: cpu.interrupts,
    };
    let saved_data = cpu.data;
    let saved_code = cpu.code;
    let here = cpu.ip;
    cpu.disable_interrupts();
    cpu.load_idt(IdtPointer { limit: REAL_MODE_IVT_LIMIT, base: 0 });
    // 64-bit code to the 16-bit code segment, paging still on.
    cpu.far_jump(CODE16_SELECTOR, CodeSize::Bits16, here);
    cpu.disable_paging_and_protection();
    cpu.set_stack(REAL_STACK_TOP, cpu.rbp);
    cpu.load_data(0, false);
    cpu.far_jump(0, CodeSize::Bits16, here);
    let call = cpu.call16(code16, out);
    let rcx = cpu.rcx;
    let rdx = cpu.rdx;
    // And back up again.
    cpu.enable_paging_and_protection(false);
    cpu.far_jump(saved_code, CodeSize::Bits64, here);
    cpu.load_data(saved_data, true);
    cpu.set_stack(saved.rsp, saved.rbp);
    cpu.load_idt(saved.idt);
    cpu.set_interrupts(saved.interrupts);
    assert(cpu.rcx == rcx && cpu.rdx == rdx);
    call
}

} // verus!
