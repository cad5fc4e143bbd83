//! The order of work in stages two and three. The caller performs each
//! step and reports how it went; any failure halts the stage with that
//! error, for nothing here can be retried.
use vstd::prelude::*;

use crate::error::LoaderError;

verus! {

/// The steps of stage two.
#[derive(Clone, Copy, Debug, PartialEq, Eq, Structural)]
pub enum Stage2Step {
    InstallTrampoline,
    EnableA20,
    LoadDescriptorTable,
    EnterUnrealMode,
    OpenDisk,
    ReadPartitionTable,
    OpenFileSystem,
    LoadStage3,
    BuildPageTables,
    EnterLongMode,
    Halt(LoaderError),
}

/// The steps of stage three.
#[derive(Clone, Copy, Debug, PartialEq, Eq, Structural)]
pub enum Stage3Step {
    RelocateRealModeCode,
    InstallTrampoline,
    OpenDisk,
    ReadPartitionTable,
    OpenFileSystem,
    ReadPayload,
    PrintPayload,
    /// Everything is done; the stage idles for good.
    Done,
    Halt(LoaderError),
}

/// The position of a stage-two step in its sequence.
pub open spec fn stage2_index(s: Stage2Step) -> int {
    match s {
        Stage2Step::InstallTrampoline => 0,
        Stage2Step::EnableA20 => 1,
        Stage2Step::LoadDescriptorTable => 2,
        Stage2Step::EnterUnrealMode => 3,
        Stage2Step::OpenDisk => 4,
        Stage2Step::ReadPartitionTable => 5,
        Stage2Step::OpenFileSystem => 6,
        Stage2Step::LoadStage3 => 7,
        Stage2Step::BuildPageTables => 8,
        Stage2Step::EnterLongMode => 9,
        Stage2Step::Halt(_) => 10,
    }
}

/// The position of a stage-three step in its sequence.
pub open spec fn stage3_index(s: Stage3Step) -> int {
    match s {
        Stage3Step::RelocateRealModeCode => 0,
        Stage3Step::InstallTrampoline => 1,
        Stage3Step::OpenDisk => 2,
        Stage3Step::ReadPartitionTable => 3,
        Stage3Step::OpenFileSystem => 4,
        Stage3Step::ReadPayload => 5,
        Stage3Step::PrintPayload => 6,
        Stage3Step::Done => 7,
        Stage3Step::Halt(_) => 8,
    }
}

/// The step after `step` went as `outcome` says. A failure halts with its
/// error; the transfer to long mode does not come back, and a halt lasts.
pub fn stage2_next(step: Stage2Step, outcome: Result<(), LoaderError>) -> (r: Stage2Step)
    ensures
        step is Halt ==> r == step,
        !(step is Halt) && outcome is Err ==> r == Stage2Step::Halt(outcome->Err_0),
        step == Stage2Step::EnterLongMode && outcome is Ok ==> r == step,
        !(step is Halt) && step != Stage2Step::EnterLongMode && outcome is Ok ==> stage2_index(r)
            == stage2_index(step) + 1 && !(r is Halt),
{
    if let Stage2Step::Halt(_) = step {
        return step;
    }
    match outcome {
        Err(e) => Stage2Step::Halt(e),
        Ok(()) => match step {
            Stage2Step::InstallTrampoline => Stage2Step::EnableA20,
            Stage2Step::EnableA20 => Stage2Step::LoadDescriptorTable,
            Stage2Step::LoadDescriptorTable => Stage2Step::EnterUnrealMode,
            Stage2Step::EnterUnrealMode => Stage2Step::OpenDisk,
            Stage2Step::OpenDisk => Stage2Step::ReadPartitionTable,
            Stage2Step::ReadPartitionTable => Stage2Step::OpenFileSystem,
            Stage2Step::OpenFileSystem => Stage2Step::LoadStage3,
            Stage2Step::LoadStage3 => Stage2Step::BuildPageTables,
            Stage2Step::BuildPageTables => Stage2Step::EnterLongMode,
            _ => step,
        },
    }
}

/// The step after `step` went as `outcome` says. A failure halts with its
/// error; after the payload is printed the stage is done, with nothing
/// left to hand over to. A halt, and being done, last.
pub fn stage3_next(step: Stage3Step, outcome: Result<(), LoaderError>) -> (r: Stage3Step)
    ensures
        step is Halt || step is Done ==> r == step,
        !(step is Halt || step is Done) && outcome is Err ==> r == Stage3Step::Halt(outcome->Err_0),
        step == Stage3Step::PrintPayload && outcome is Ok ==> r == Stage3Step::Done,
        !(step is Halt || step is Done) && step != Stage3Step::PrintPayload && outcome is Ok
            ==> stage3_index(r)
            == stage3_index(step) + 1 && !(r is Halt),
{
    match step {
        Stage3Step::Halt(_) | Stage3Step::Done => {
            return step;
        },
        _ => {},
    }
    match outcome {
        Err(e) => Stage3Step::Halt(e),
        Ok(()) => match step {
            Stage3Step::RelocateRealModeCode => Stage3Step::InstallTrampoline,
            Stage3Step::InstallTrampoline => Stage3Step::OpenDisk,
            Stage3Step::OpenDisk => Stage3Step::ReadPartitionTable,
            Stage3Step::ReadPartitionTable => Stage3Step::OpenFileSystem,
            Stage3Step::OpenFileSystem => Stage3Step::ReadPayload,
            Stage3Step::ReadPayload => Stage3Step::PrintPayload,
            _ => Stage3Step::Done,
        },
    }
}

} // verus!
