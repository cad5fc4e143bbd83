use blue_loader::a20::{check, enable_step, fast_gate_value, A20Action, A20Method, FIRST_PROBE, SECOND_PROBE};
use blue_loader::blocklist::{
    boot_code, parse_blocklist, stage_two_requests, Blocklist, Blocks, BLOCKLIST_BYTES,
};
use blue_loader::disk::Dap;
use blue_loader::error::LoaderError;
use blue_loader::layout::{linear, segment_offset};
use blue_loader::stages::{stage2_next, stage3_next, Stage2Step, Stage3Step};
use blue_loader::video::{error, inform, printc};

#[test]
fn contiguous_extents_coalesce() {
    let mut l = Blocklist::new();
    l.push(0x10_0000, 0x800).unwrap();
    l.push(0x10_0800, 0x200).unwrap();
    assert_eq!(l.extents().len(), 1);
    assert_eq!((l.extents()[0].start, l.extents()[0].size), (0x10_0000, 0xa00));
}

#[test]
fn separate_extents_stay_separate() {
    let mut l = Blocklist::new();
    l.push(0x10_0000, 0x800).unwrap();
    l.push(0x10_0a00, 0x200).unwrap();
    l.push(0x10_0000, 0x200).unwrap();
    assert_eq!(l.extents().len(), 3);
}

#[test]
fn eleventh_extent_is_a_capacity_error() {
    let mut l = Blocklist::new();
    for i in 0..10u64 {
        l.push(i * 0x1000, 0x200).unwrap();
    }
    assert_eq!(l.push(0x20_0000, 0x200), Err(LoaderError::CapacityError));
    assert_eq!(l.extents().len(), 10);
    // continuing the last extent still merges
    assert_eq!(l.push(9 * 0x1000 + 0x200, 0x200), Ok(()));
    assert_eq!(l.extents()[9].size, 0x400);
}

#[test]
fn stored_list_round_trip() {
    let mut l = Blocklist::new();
    l.push(0x10_0000, 0x801).unwrap();
    l.push(0x20_0000, 0x200).unwrap();
    let bytes = l.encode().unwrap();
    assert_eq!(bytes.len(), BLOCKLIST_BYTES);
    assert_eq!(&bytes[..16], &[0x00, 0x08, 0, 0, 5, 0, 0, 0, 0x00, 0x10, 0, 0, 1, 0, 0, 0]);
    assert!(bytes[16..].iter().all(|&b| b == 0));
    let parsed = parse_blocklist(&bytes);
    assert_eq!(parsed.len(), 10);
    assert_eq!(parsed[0], Blocks { offset: 0x800, count: 5 });
    assert_eq!(parsed[1], Blocks { offset: 0x1000, count: 1 });
    assert_eq!(parsed[2], Blocks { offset: 0, count: 0 });

    let mut bad = Blocklist::new();
    bad.push(0x10_0001, 0x10).unwrap();
    assert_eq!(bad.encode(), Err(LoaderError::FormatError));
}

#[test]
fn stage_one_reads_advance_through_the_segment() {
    let list = [
        Blocks { offset: 1, count: 4 },
        Blocks { offset: 100, count: 2 },
        Blocks { offset: 0, count: 0 },
        Blocks { offset: 7, count: 7 },
    ];
    let reads = stage_two_requests(&list, 0x200).unwrap();
    assert_eq!(
        reads,
        vec![Dap::new(4, 0x07c0_0200, 1), Dap::new(2, 0x07c0_0a00, 100)]
    );
    let default_list = [Blocks { offset: 1, count: 0xb000 / 512 }];
    assert_eq!(stage_two_requests(&default_list, 0x200).unwrap(), vec![Dap::new(0x58, 0x07c0_0200, 1)]);
    let too_long = [Blocks { offset: 1, count: 0x80 }];
    assert_eq!(stage_two_requests(&too_long, 0x200), Err(LoaderError::CapacityError));
    assert_eq!(stage_two_requests(&[], 0x200), Ok(vec![]));
}

#[test]
fn boot_code_layout() {
    let list = [7u8; BLOCKLIST_BYTES];
    let code = boot_code(&[1, 2, 3], &list).unwrap();
    assert_eq!(code.len(), 440);
    assert_eq!(&code[..4], &[1, 2, 3, 0]);
    assert_eq!(&code[360..], &list[..]);
    assert_eq!(boot_code(&[0u8; 441], &list), Err(LoaderError::CapacityError));
}

#[test]
fn a20_check_uses_both_probes() {
    // masked: the low byte reads back the high marker
    assert!(!check(FIRST_PROBE.1, SECOND_PROBE.1));
    assert!(!check(FIRST_PROBE.0, SECOND_PROBE.1));
    assert!(check(FIRST_PROBE.0, SECOND_PROBE.0));
    assert_eq!(enable_step(0, true), A20Action::Done);
    assert_eq!(enable_step(0, false), A20Action::Try(A20Method::FastGate));
    assert_eq!(enable_step(1, false), A20Action::Fail(LoaderError::FatalHardwareError));
    assert_eq!(fast_gate_value(0x03), None);
    assert_eq!(fast_gate_value(0x01), Some(0x02));
    assert_eq!(fast_gate_value(0xf0), Some(0xf2));
}

#[test]
fn teletype_output() {
    assert_eq!(printc(b'A'), 0x0e41);
    assert_eq!(inform(b"ok"), vec![0x0e6f, 0x0e6b]);
    assert_eq!(error(b"read"), b"ERROR: read".to_vec());
    assert_eq!(linear(0x07c0, 0x200), 0x7e00);
}

#[test]
fn stage_two_runs_in_order_and_halts_on_failure() {
    let mut step = Stage2Step::InstallTrampoline;
    let mut seen = vec![step];
    while step != Stage2Step::EnterLongMode {
        step = stage2_next(step, Ok(()));
        seen.push(step);
    }
    assert_eq!(seen.len(), 10);
    assert_eq!(seen[1], Stage2Step::EnableA20);
    assert_eq!(seen[3], Stage2Step::EnterUnrealMode);
    assert_eq!(stage2_next(Stage2Step::EnterLongMode, Ok(())), Stage2Step::EnterLongMode);
    let halted = stage2_next(Stage2Step::EnableA20, Err(LoaderError::FatalHardwareError));
    assert_eq!(halted, Stage2Step::Halt(LoaderError::FatalHardwareError));
    assert_eq!(stage2_next(halted, Ok(())), halted);
}

#[test]
fn stage_three_ends_after_printing() {
    let mut step = Stage3Step::RelocateRealModeCode;
    for _ in 0..7 {
        step = stage3_next(step, Ok(()));
    }
    assert_eq!(step, Stage3Step::Done);
    assert_eq!(stage3_next(Stage3Step::Done, Ok(())), Stage3Step::Done);
    assert_eq!(
        stage3_next(Stage3Step::OpenFileSystem, Err(LoaderError::FormatError)),
        Stage3Step::Halt(LoaderError::FormatError)
    );
}

#[test]
fn segment_offsets() {
    assert_eq!(segment_offset(0x07c0, 0x7e00), Some(0x200));
    assert_eq!(segment_offset(0x07c0, 0x7bff), None);
    assert_eq!(segment_offset(0x07c0, 0x17c00), None);
    assert_eq!(segment_offset(0x07c0, 0x17bff), Some(0xffff));
}
