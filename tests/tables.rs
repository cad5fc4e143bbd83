use blue_loader::cpu::{
    descend_and_call, load_paging, long_mode, unreal_mode, Clobbered, CodeSize, Cpu, IdtPointer,
    LongModeStep,
};
use blue_loader::paging::CR4_PAE_PGE;
use blue_loader::error::LoaderError;
use blue_loader::gdt::{
    boot_table, encode_descriptor, BootTables, DescriptorTablePointer, GDTInfo, GlobalDescriptorTable, PrivilegeLevel, SegmentSize,
    SegmentType,
};
use blue_loader::paging::{identity_map, write_wide, PageTable, PagingLayout};
use blue_loader::trampoline::{LongModeTrampoline, RealTrampoline, TrampolineCell};

#[test]
fn seven_entries_fit_and_the_eighth_does_not() {
    let mut t = GlobalDescriptorTable::new();
    let rings = [
        PrivilegeLevel::Ring0,
        PrivilegeLevel::Ring1,
        PrivilegeLevel::Ring2,
        PrivilegeLevel::Ring3,
        PrivilegeLevel::Ring3,
        PrivilegeLevel::Ring2,
        PrivilegeLevel::Ring1,
    ];
    for (i, p) in rings.iter().enumerate() {
        let sel = t.add_entry(0, 0xfffff, *p, SegmentType::Data, SegmentSize::Code32).unwrap();
        assert_eq!(sel as u64 & 3, p.bits());
        assert_eq!(sel >> 3, i as u16 + 1);
    }
    assert_eq!(
        t.add_entry(0, 0xfffff, PrivilegeLevel::Ring0, SegmentType::Code, SegmentSize::Code64),
        Err(LoaderError::CapacityError)
    );
    assert_eq!(t.add_raw(0), Err(LoaderError::CapacityError));
    assert_eq!(t.pointer(0x100, 0x7c00).limit, 63);
}

#[test]
fn descriptor_encodings() {
    // flat 32-bit ring 0 data and 64-bit ring 0 code, as commonly written
    let data = encode_descriptor(0, 0xfffff, PrivilegeLevel::Ring0, SegmentType::Data, SegmentSize::Code32);
    assert_eq!(data, 0x00cf_9200_0000_ffff);
    let code = encode_descriptor(0, 0xfffff, PrivilegeLevel::Ring0, SegmentType::Code, SegmentSize::Code64);
    assert_eq!(code, 0x00af_9a00_0000_ffff);
    let user = encode_descriptor(0x1234_5678, 0xabcde, PrivilegeLevel::Ring3, SegmentType::Code, SegmentSize::Code16);
    assert_eq!(user, 0x128a_fa34_5678_bcde);
}

#[test]
fn boot_table_selectors() {
    let (t, info) = boot_table();
    assert_eq!(info, GDTInfo { data32: 0x08, code64: 0x10 });
    assert_eq!(t.selector(3), 0x18);
    let p = t.pointer(0x200, 0x7c00);
    assert_eq!(p.limit, 31);
    assert_eq!(p.base, 0x7e00);
}

#[test]
fn page_table_entries() {
    let mut t = PageTable::new();
    t.map(5, 0x1234_5fff);
    assert_eq!(t.entry(5), 0x1234_5003);
    t.map_huge(6, 0x20_0000);
    assert_eq!(t.entry(6), 0x20_0083);
    t.map_flags(7, 0xfffa_0000_0000_1abc, 0);
    assert_eq!(t.entry(7), 0x000a_0000_0000_1000);
    t.clear();
    assert!((0..512).all(|i| t.entry(i) == 0));
    let mut slot = 0xdead_beef_dead_beefu64;
    write_wide(&mut slot, 0x1111_2222, 0x3333_4444);
    assert_eq!(slot, 0x3333_4444_1111_2222);
}

#[test]
fn first_two_mib_identity_mapped() {
    let layout = PagingLayout { p1: 0x1_1000, p2: 0x1_2000, p3: 0x1_3000, p4: 0x1_4000 };
    let t = identity_map(layout);
    assert_eq!(t.p4.entry(0), 0x1_3003);
    assert_eq!(t.p3.entry(0), 0x1_2003);
    assert_eq!(t.p2.entry(0), 0x1_1003);
    for i in 0..512 {
        assert_eq!(t.p1.entry(i), (i as u64) * 0x1000 | 3);
    }
    assert_eq!(t.p2.entry(1), 0);
}

fn real_mode_cpu() -> Cpu {
    Cpu {
        protection: false,
        paging: false,
        pae: false,
        pge: false,
        cr3: 0,
        long_enable: false,
        interrupts: true,
        code: 0x07c0,
        code_size: CodeSize::Bits16,
        ip: 0,
        data: 0x07c0,
        flat_data: false,
        gdt: DescriptorTablePointer { limit: 0, base: 0 },
        idt: IdtPointer { limit: 0x3ff, base: 0 },
        rsp: 0xfff0,
        rbp: 0xfff0,
        rax: 1,
        rbx: 2,
        rcx: 3,
        rdx: 4,
        rsi: 5,
        rdi: 6,
    }
}

#[test]
fn mode_switches_in_order() {
    let (table, info) = boot_table();
    let mut cpu = real_mode_cpu();
    cpu.load_gdt(table.pointer(0x200, 0x7c00));
    unreal_mode(&mut cpu, info);
    assert!(cpu.flat_data && !cpu.protection && cpu.interrupts);
    assert_eq!(cpu.data, 0x07c0);
    let layout = PagingLayout { p1: 0x1_1000, p2: 0x1_2000, p3: 0x1_3000, p4: 0x1_4000 };
    let tables = load_paging(&mut cpu, layout);
    assert_eq!(tables.p1.entry(3), 0x3003);
    assert_eq!(tables.p4.entry(0), 0x1_3003);
    assert!(cpu.pge);
    assert_eq!((cpu.pae, cpu.cr3), (true, 0x1_4000));
    let steps = long_mode(&mut cpu, info, 0x17bf0, 0x2_0000);
    assert_eq!(
        steps,
        vec![
            LongModeStep::DisableInterrupts,
            LongModeStep::LoadIdt(IdtPointer { limit: 0, base: 0 }),
            LongModeStep::EnableLongMode,
            LongModeStep::EnablePagingAndProtection,
            LongModeStep::LoadSegments(0x08),
            LongModeStep::SetStack(0x17bf0),
            LongModeStep::FarJump(0x10, 0x2_0000),
        ]
    );
    assert_eq!(cpu.ip, 0x2_0000);
    assert!(cpu.protection && cpu.paging && cpu.long_enable && !cpu.interrupts);
    assert_eq!((cpu.code, cpu.data, cpu.code_size), (0x10, 0x08, CodeSize::Bits64));
    assert_eq!(cpu.idt, IdtPointer { limit: 0, base: 0 });
    assert_eq!((cpu.rsp, cpu.rbp), (0x17bf0, 0x17bf0));

    let before = cpu;
    let call = descend_and_call(&mut cpu, 0x8000, Clobbered { rax: 0xaa, rcx: 0xcc, rdx: 0xdd });
    assert_eq!(call.routine, 0x8000);
    let at = call.state;
    assert!(!at.protection && !at.paging && !at.interrupts);
    assert_eq!((at.code, at.data, at.ip, at.rsp), (0, 0, 0x8000, 0xfff0));
    assert_eq!(at.idt, IdtPointer { limit: 0x3ff, base: 0 });
    assert_eq!((at.rbx, at.rsi, at.rdi, at.rbp), (before.rbx, before.rsi, before.rdi, before.rbp));
    assert_eq!((cpu.rcx, cpu.rdx), (0xcc, 0xdd));
    assert_eq!(Cpu { rax: 0, rcx: 0, rdx: 0, ..cpu }, Cpu { rax: 0, rcx: 0, rdx: 0, ..before });
}

#[test]
fn calls_through_the_installed_trampoline() {
    let out = Clobbered { rax: 0x1, rcx: 0x2, rdx: 0x3 };
    let mut real: TrampolineCell<RealTrampoline> = TrampolineCell::new();
    let mut cpu = real_mode_cpu();
    assert_eq!(real.call(&mut cpu, 0x7c00, out), Err(LoaderError::StateError));
    assert_eq!(cpu, real_mode_cpu());
    real.set_trampoline(RealTrampoline).unwrap();
    assert_eq!(real.call(&mut cpu, 0x12345, out), Err(LoaderError::RangeError));
    let call = real.call(&mut cpu, 0x7c00, out).unwrap();
    assert_eq!(call.state, Cpu { ip: 0x7c00, ..real_mode_cpu() });
    assert_eq!((cpu.rax, cpu.rbx, cpu.rcx, cpu.rdx, cpu.rsi, cpu.rdi), (1, 2, 2, 3, 5, 6));

    let (table, info) = boot_table();
    let mut cpu = real_mode_cpu();
    cpu.load_gdt(table.pointer(0x200, 0x7c00));
    cpu.load_cr4(CR4_PAE_PGE);
    cpu.load_cr3(0x1_4000);
    long_mode(&mut cpu, info, 0x17bf0, 0x2_0000);
    let before = cpu;
    let mut long: TrampolineCell<LongModeTrampoline> = TrampolineCell::new();
    long.set_trampoline(LongModeTrampoline).unwrap();
    assert_eq!(long.set_trampoline(LongModeTrampoline), Err(LoaderError::StateError));
    let call = long.call(&mut cpu, 0x8000, out).unwrap();
    assert_eq!((call.routine, call.state.rsp, call.state.data), (0x8000, 0xfff0, 0));
    assert_eq!(Cpu { rax: 0, rcx: 0, rdx: 0, ..cpu }, Cpu { rax: 0, rcx: 0, rdx: 0, ..before });
    assert_eq!((cpu.rcx, cpu.rdx), (2, 3));
}

#[test]
fn boot_table_built_once() {
    let mut tables = BootTables::new();
    let (t1, i1) = tables.load();
    let (t2, i2) = tables.load();
    assert_eq!(i1, i2);
    assert_eq!(i1, GDTInfo { data32: 0x08, code64: 0x10 });
    assert_eq!(t1.pointer(0, 0), t2.pointer(0, 0));
    assert_eq!(t1.selector(2), 0x10);
}

#[test]
fn boot_table_holds_the_three_descriptors() {
    let mut tables = BootTables::new();
    let (t, _) = tables.load();
    let slots: Vec<u64> = (0..8).map(|i| t.entry(i)).collect();
    assert_eq!(
        slots,
        vec![0, 0x00cf_9200_0000_ffff, 0x00af_9a00_0000_ffff, 0x0080_9a00_0000_000f, 0, 0, 0, 0]
    );
    assert_eq!(t.pointer(0, 0).limit, 31);
}
