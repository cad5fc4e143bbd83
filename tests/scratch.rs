use blue_loader::error::LoaderError;
use blue_loader::trampoline::{CallFrame, InstallState, TrampolineCell, Work, WorkOffset, WORK_SIZE};

#[test]
fn call_before_install_is_a_state_error() {
    let cell: TrampolineCell<&str> = TrampolineCell::new();
    assert_eq!(cell.state(), InstallState::Uninitialized);
    assert_eq!(cell.trampoline(0x7c00).err(), Some(LoaderError::StateError));
}

#[test]
fn second_install_keeps_the_first() {
    let mut cell = TrampolineCell::new();
    assert_eq!(cell.set_trampoline("passthrough"), Ok(()));
    assert_eq!(cell.set_trampoline("descending"), Err(LoaderError::StateError));
    assert_eq!(cell.trampoline(0x1234), Ok(&"passthrough"));
    assert_eq!(cell.trampoline(0x10000).err(), Some(LoaderError::RangeError));
}

#[test]
fn install_in_progress_refuses_another() {
    let mut cell = TrampolineCell::new();
    assert_eq!(cell.begin_install(), Ok(()));
    assert_eq!(cell.state(), InstallState::Initializing);
    assert_eq!(cell.set_trampoline(2u8), Err(LoaderError::StateError));
    assert_eq!(cell.trampoline(0x500).err(), Some(LoaderError::StateError));
    cell.finish_install(1u8);
    assert_eq!(cell.trampoline(0x500), Ok(&1u8));
}

#[test]
fn slots_are_aligned_and_bounded() {
    let a = Work::allocate(3, 1).unwrap();
    assert_eq!(a, WorkOffset { offset: 0, size: 3, align: 1 });
    let b = a.allocate(8, 8).unwrap();
    assert_eq!(b.offset, 8);
    let c = b.allocate(2, 2).unwrap();
    assert_eq!(c.offset, 16);
    let full = c.allocate(WORK_SIZE - 18, 2).unwrap();
    assert_eq!(full.offset + full.size, WORK_SIZE);
    assert_eq!(full.allocate(1, 1), Err(LoaderError::CapacityError));
    assert_eq!(Work::allocate(WORK_SIZE + 1, 1), Err(LoaderError::CapacityError));
    assert_eq!(Work::root(), WorkOffset { offset: 0, size: 0, align: 1 });
}

#[test]
fn frame_marshals_inputs_and_reads_outputs() {
    let mut frame = CallFrame::new();
    let id = frame.add_slot(1, 1, Some(vec![0x80])).unwrap();
    let ret = frame.add_slot(1, 1, None).unwrap();
    let info = frame.add_slot(26, 2, Some(vec![26; 26])).unwrap();
    assert_eq!(frame.len(), 3);
    assert_eq!(frame.slot(info).offset, 2);
    assert_eq!(frame.add_slot(2000, 1, None), Err(LoaderError::CapacityError));
    assert_eq!(frame.len(), 3);

    let mut work = Work::new();
    work.put(&frame.slot(ret), &[0xee]);
    frame.prepare(&mut work);
    assert_eq!(frame.output(&work, id), vec![0x80]);
    assert_eq!(frame.output(&work, ret), vec![0]);
    // the routine writes its status and a result
    work.put(&frame.slot(ret), &[0x01]);
    assert_eq!(frame.output(&work, ret), vec![0x01]);
    assert_eq!(work.get(&frame.slot(info)), vec![26; 26]);
}
