//! The real-mode call trampoline: its install-once lifecycle, and the
//! scratch buffer through which a call's parameters cross the mode switch.
use vstd::prelude::*;

use crate::cpu::{
    descend_and_call, descended, is_long, is_real, same_but_clobbered, Clobbered, Cpu, RoutineCall,
};
use crate::error::LoaderError;

verus! {

/// Bytes in the scratch buffer.
pub const WORK_SIZE: usize = 0x400;
/// Alignment of the scratch buffer; every slot's alignment is below it.
pub const WORK_ALIGN: usize = 0x100;
/// Routines that the trampoline runs lie below this address.
pub const CODE16_LIMIT: usize = 0x10000;

/// A way to run a 16-bit routine from the mode the processor is in.
pub trait Trampoline {
    /// Whether this implementation can start from `c`.
    spec fn accepts(&self, c: Cpu) -> bool;

    /// Whether `at` is how this implementation hands the processor, left
    /// in state `before`, to the routine at `routine`.
    spec fn enters(&self, before: Cpu, routine: u16, at: Cpu) -> bool;

    /// Runs the routine at `code16` once, in real mode; it hands back `out`
    /// in the accumulator, counter and data registers, and every other
    /// register ends as it began. Gives the registers as the routine found
    /// them.
    fn trampoline(&self, cpu: &mut Cpu, code16: u16, out: Clobbered) -> (call: RoutineCall)
        requires
            self.accepts(*old(cpu)),
        ensures
            call.routine == code16,
            is_real(call.state),
            call.state.ip == code16,
            self.enters(*old(cpu), code16, call.state),
            same_but_clobbered(*old(cpu), *final(cpu)),
            final(cpu).rcx == out.rcx,
            final(cpu).rdx == out.rdx,
    ;
}

/// The trampoline of a stage that already runs in real mode: a direct call.
#[derive(Clone, Copy, Debug)]
pub struct RealTrampoline;

impl Trampoline for RealTrampoline {
    open spec fn accepts(&self, c: Cpu) -> bool {
        is_real(c)
    }

    /// The routine finds every register as the caller left it.
    open spec fn enters(&self, before: Cpu, routine: u16, at: Cpu) -> bool {
        at == (Cpu { ip: routine as u64, ..before })
    }

    fn trampoline(&self, cpu: &mut Cpu, code16: u16, out: Clobbered) -> (call: RoutineCall) {
        cpu.call16(code16, out)
    }
}

/// The trampoline of a stage that runs in long mode: down to real mode for
/// the call and back up.
#[derive(Clone, Copy, Debug)]
pub struct LongModeTrampoline;

impl Trampoline for LongModeTrampoline {
    open spec fn accepts(&self, c: Cpu) -> bool {
        is_long(c)
    }

    /// The routine finds the state of a descent from long mode.
    open spec fn enters(&self, before: Cpu, routine: u16, at: Cpu) -> bool {
        descended(before, routine, at)
    }

    fn trampoline(&self, cpu: &mut Cpu, code16: u16, out: Clobbered) -> (call: RoutineCall) {
        descend_and_call(cpu, code16, out)
    }
}

/// The lifecycle of the trampoline handle.
#[derive(Clone, Copy, Debug, PartialEq, Eq, Structural)]
pub enum InstallState {
    Uninitialized,
    Initializing,
    Initialized,
}

/// The one trampoline of a stage: set once, then used for every call.
#[derive(Debug)]
pub struct TrampolineCell<T> {
    state: InstallState,
    installed: Option<T>,
}

impl<T> View for TrampolineCell<T> {
    type V = CellView<T>;

    closed spec fn view(&self) -> CellView<T> {
        CellView { state: self.state, installed: self.installed }
    }
}

impl<T> TrampolineCell<T> {
    /// Whether an implementation is present exactly when installation is
    /// complete.
    pub closed spec fn wf(&self) -> bool {
        (self.state == InstallState::Initialized) == (self.installed is Some)
    }

    /// A handle with nothing installed.
    pub fn new() -> (r: TrampolineCell<T>)
        ensures
            r.wf(),
            r@ == (CellView::<T> { state: InstallState::Uninitialized, installed: None }),
    {
        TrampolineCell { state: InstallState::Uninitialized, installed: None }
    }

    /// The lifecycle state.
    pub fn state(&self) -> (r: InstallState)
        ensures
            r == self@.state,
    {
        self.state
    }

    /// Moves from uninitialized to initializing, as one compare-and-set;
    /// from any other state it is a state error and changes nothing.
    pub fn begin_install(&mut self) -> (r: Result<(), LoaderError>)
        requires
            old(self).wf(),
        ensures
            final(self).wf(),
            final(self)@.installed == old(self)@.installed,
            old(self)@.state == InstallState::Uninitialized ==> r is Ok && final(self)@.state
                == InstallState::Initializing,
            old(self)@.state != InstallState::Uninitialized ==> r == Err::<(), LoaderError>(
                LoaderError::StateError,
            ) && final(self)@ == old(self)@,
    {
        if self.state == InstallState::Uninitialized {
            self.state = InstallState::Initializing;
            Ok(())
        } else {
            Err(LoaderError::StateError)
        }
    }

    /// Completes an install that `begin_install` started.
    pub fn finish_install(&mut self, tramp: T)
        requires
            old(self).wf(),
            old(self)@.state == InstallState::Initializing,
        ensures
            final(self).wf(),
            final(self)@ == (CellView { state: InstallState::Initialized, installed: Some(tramp) }),
    {
        self.installed = Some(tramp);
        self.state = InstallState::Initialized;
    }

    /// Installs `tramp` if nothing was installed or is being installed;
    /// otherwise it is a state error and the first implementation stays.
    pub fn set_trampoline(&mut self, tramp: T) -> (r: Result<(), LoaderError>)
        requires
            old(self).wf(),
        ensures
            final(self).wf(),
            (r, final(self)@) == set_spec(old(self)@, tramp),
    {
        match self.begin_install() {
            Ok(()) => {
                self.finish_install(tramp);
                Ok(())
            },
            Err(e) => Err(e),
        }
    }

    /// The implementation that runs the 16-bit routine at `code16`: a
    /// routine at or above 64 KiB is a range error, a call before the
    /// install completes a state error.
    pub fn trampoline(&self, code16: usize) -> (r: Result<&T, LoaderError>)
        requires
            self.wf(),
        ensures
            match invoke_spec(self@, code16 as nat) {
                Ok(t) => r is Ok && *r->Ok_0 == t,
                Err(e) => r == Err::<&T, LoaderError>(e),
            },
    {
        if code16 >= CODE16_LIMIT {
            return Err(LoaderError::RangeError);
        }
        match &self.installed {
            Some(t) => Ok(t),
            None => Err(LoaderError::StateError),
        }
    }
}

impl<T: Trampoline> TrampolineCell<T> {
    /// Runs the 16-bit routine at `code16` through the installed
    /// trampoline. A routine at or above 64 KiB is a range error, a call
    /// before the install completes a state error; either leaves the
    /// processor as it was.
    pub fn call(&self, cpu: &mut Cpu, code16: usize, out: Clobbered) -> (r: Result<
        RoutineCall,
        LoaderError,
    >)
        requires
            self.wf(),
            self@.installed is Some ==> self@.installed->Some_0.accepts(*old(cpu)),
        ensures
            match invoke_spec(self@, code16 as nat) {
                Ok(t) => r is Ok && r->Ok_0.routine == code16 && is_real(r->Ok_0.state) && t.enters(
                    *old(cpu),
                    code16 as u16,
                    r->Ok_0.state,
                ) && same_but_clobbered(*old(cpu), *final(cpu)) && final(cpu).rcx == out.rcx
                    && final(cpu).rdx == out.rdx,
                Err(e) => r == Err::<RoutineCall, LoaderError>(e) && *final(cpu) == *old(cpu),
            },
    {
        match self.trampoline(code16) {
            Ok(t) => Ok(t.trampoline(cpu, code16 as u16, out)),
            Err(e) => Err(e),
        }
    }
}

/// What a trampoline handle stands for: its state and what it holds.
pub struct CellView<T> {
    pub state: InstallState,
    pub installed: Option<T>,
}

/// An install attempt on `c`, and the handle after it.
pub open spec fn set_spec<T>(c: CellView<T>, tramp: T) -> (Result<(), LoaderError>, CellView<T>) {
    if c.state == InstallState::Uninitialized {
        (Ok(()), CellView { state: InstallState::Initialized, installed: Some(tramp) })
    } else {
        (Err(LoaderError::StateError), c)
    }
}

/// What a call through `c` of the routine at `code16` runs.
pub open spec fn invoke_spec<T>(c: CellView<T>, code16: nat) -> Result<T, LoaderError> {
    if code16 >= CODE16_LIMIT {
        Err(LoaderError::RangeError)
    } else if c.state == InstallState::Initialized && c.installed is Some {
        Ok(c.installed->Some_0)
    } else {
        Err(LoaderError::StateError)
    }
}

/// A call before any install is a state error; after a first install, a
/// second one is a state error and calls still run the first
/// implementation.
pub proof fn first_install_wins<T>(first: T, second: T, code16: nat)
    requires
        code16 < CODE16_LIMIT,
    ensures
        ({
            let fresh = CellView::<T> { state: InstallState::Uninitialized, installed: None };
            let (r1, c1) = set_spec(fresh, first);
            let (r2, c2) = set_spec(c1, second);
            &&& invoke_spec(fresh, code16) == Err::<T, LoaderError>(LoaderError::StateError)
            &&& r1 is Ok
            &&& r2 == Err::<(), LoaderError>(LoaderError::StateError)
            &&& invoke_spec(c2, code16) == Ok::<T, LoaderError>(first)
        }),
{
}

/// A slot of the scratch buffer: its offset, size and alignment.
#[derive(Clone, Copy, Debug, PartialEq, Eq, Structural)]
pub struct WorkOffset {
    pub offset: usize,
    pub size: usize,
    pub align: usize,
}

/// `x` rounded up to a multiple of `a`.
pub open spec fn align_up(x: int, a: int) -> int {
    if x % a == 0 {
        x
    } else {
        x + (a - x % a)
    }
}

/// The slot that follows `prev` for a value of `size` bytes aligned to
/// `align`, if it fits in the buffer.
pub open spec fn next_slot(prev: WorkOffset, size: nat, align: nat) -> Option<WorkOffset> {
    let offset = align_up(prev.offset + prev.size, align as int);
    if offset + size <= WORK_SIZE {
        Some(WorkOffset { offset: offset as usize, size: size as usize, align: align as usize })
    } else {
        None
    }
}

/// Whether a slot lies in the buffer at its alignment.
pub open spec fn slot_ok(s: WorkOffset) -> bool {
    &&& 0 < s.align < WORK_ALIGN
    &&& s.offset % s.align == 0
    &&& s.offset + s.size <= WORK_SIZE
}

impl WorkOffset {
    /// The slot after this one for a value of `size` bytes aligned to
    /// `align`; one that would overrun the buffer is a capacity error.
    pub fn allocate(&self, size: usize, align: usize) -> (r: Result<WorkOffset, LoaderError>)
        requires
            self.offset + self.size <= WORK_SIZE,
            0 < align < WORK_ALIGN,
        ensures
            match next_slot(*self, size as nat, align as nat) {
                Some(s) => r == Ok::<WorkOffset, LoaderError>(s),
                None => r == Err::<WorkOffset, LoaderError>(LoaderError::CapacityError),
            },
            r is Ok ==> slot_ok(r->Ok_0) && r->Ok_0.offset >= self.offset + self.size,
    {
        let mut offset = self.offset + self.size;
        if offset % align > 0 {
            offset = offset + (align - offset % align);
        }
        proof {
            let x: int = self.offset + self.size;
            let a: int = align as int;
            let o: int = offset as int;
            assert(o % a == 0) by (nonlinear_arith)
                requires
                    o == align_up(x, a),
                    a > 0,
                    x >= 0,
            {
                if x % a != 0 {
                    assert(x == a * (x / a) + x % a);
                    assert(o == a * (x / a + 1));
                }
            }
        }
        if size > WORK_SIZE || offset > WORK_SIZE - size {
            return Err(LoaderError::CapacityError);
        }
        Ok(WorkOffset { offset, size, align })
    }
}

/// The scratch buffer, reachable from both sides of a mode switch.
#[derive(Debug)]
pub struct Work {
    bytes: Vec<u8>,
}

impl View for Work {
    type V = Seq<u8>;

    closed spec fn view(&self) -> Seq<u8> {
        self.bytes@
    }
}

impl Work {
    /// Whether the buffer has its fixed size.
    pub open spec fn wf(&self) -> bool {
        self@.len() == WORK_SIZE
    }

    /// A buffer of zeros.
    pub fn new() -> (r: Work)
        ensures
            r.wf(),
            r@ == Seq::new(WORK_SIZE as nat, |i: int| 0u8),
    {
        let mut bytes: Vec<u8> = Vec::new();
        while bytes.len() < WORK_SIZE
            invariant
                bytes@.len() <= WORK_SIZE,
                forall|i: int| 0 <= i < bytes@.len() ==> bytes@[i] == 0,
            decreases WORK_SIZE - bytes@.len(),
        {
            bytes.push(0);
        }
        let r = Work { bytes };
        assert(r@ =~= Seq::new(WORK_SIZE as nat, |i: int| 0u8));
        r
    }

    /// The empty slot at the start of the buffer that allocation begins
    /// from.
    pub fn root() -> (r: WorkOffset)
        ensures
            r == (WorkOffset { offset: 0, size: 0, align: 1 }),
    {
        WorkOffset { offset: 0, size: 0, align: 1 }
    }

    /// The first slot, for a value of `size` bytes aligned to `align`.
    pub fn allocate(size: usize, align: usize) -> (r: Result<WorkOffset, LoaderError>)
        requires
            0 < align < WORK_ALIGN,
        ensures
            match next_slot(WorkOffset { offset: 0, size: 0, align: 1 }, size as nat, align as nat) {
                Some(s) => r == Ok::<WorkOffset, LoaderError>(s),
                None => r == Err::<WorkOffset, LoaderError>(LoaderError::CapacityError),
            },
    {
        Self::root().allocate(size, align)
    }

    /// The bytes of a slot.
    pub fn get(&self, slot: &WorkOffset) -> (r: Vec<u8>)
        requires
            self.wf(),
            slot.offset + slot.size <= WORK_SIZE,
        ensures
            r@ == self@.subrange(slot.offset as int, slot.offset + slot.size),
    {
        let mut r: Vec<u8> = Vec::new();
        let mut i: usize = 0;
        while i < slot.size
            invariant
                self.wf(),
                slot.offset + slot.size <= WORK_SIZE,
                i <= slot.size,
                r@ == self@.subrange(slot.offset as int, slot.offset + i),
            decreases slot.size - i,
        {
            r.push(self.bytes[slot.offset + i]);
            i += 1;
            assert(r@ =~= self@.subrange(slot.offset as int, slot.offset + i));
        }
        r
    }

    /// Writes `value` into a slot of its size, leaving the rest as it was.
    pub fn put(&mut self, slot: &WorkOffset, value: &[u8])
        requires
            old(self).wf(),
            slot.offset + slot.size <= WORK_SIZE,
            value@.len() == slot.size,
        ensures
            final(self).wf(),
            final(self)@.subrange(slot.offset as int, slot.offset + slot.size) == value@,
            forall|i: int|
                0 <= i < WORK_SIZE && !(slot.offset <= i < slot.offset + slot.size)
                    ==> #[trigger] final(self)@[i] == old(self)@[i],
    {
        let mut i: usize = 0;
        while i < slot.size
            invariant
                self.wf(),
                slot.offset + slot.size <= WORK_SIZE,
                value@.len() == slot.size,
                i <= slot.size,
                forall|j: int| 0 <= j < i ==> #[trigger] self@[slot.offset + j] == value@[j],
                forall|j: int|
                    0 <= j < WORK_SIZE && !(slot.offset <= j < slot.offset + i)
                        ==> #[trigger] self@[j] == old(self)@[j],
            decreases slot.size - i,
        {
            self.bytes[slot.offset + i] = value[i];
            i += 1;
        }
        assert forall|k: int| 0 <= k < slot.size implies self@.subrange(
            slot.offset as int,
            slot.offset + slot.size,
        )[k] == value@[k] by {
            assert(self@[slot.offset + k] == value@[k]);
        }
        assert(self@.subrange(slot.offset as int, slot.offset + slot.size) =~= value@);
    }
}

/// Whether slots follow one another without overlap, each in the buffer
/// at its alignment.
pub open spec fn slots_disjoint(slots: Seq<WorkOffset>) -> bool {
    &&& forall|i: int| 0 <= i < slots.len() ==> slot_ok(#[trigger] slots[i])
    &&& forall|i: int, j: int|
        0 <= i < j < slots.len() ==> #[trigger] slots[i].offset + slots[i].size <= #[trigger] slots[j].offset
}

/// The parameters of one trampoline call: slots allocated one after the
/// other from the start of the scratch buffer, each with the value to
/// place in it before the call, or none for a pure output.
#[derive(Debug)]
pub struct CallFrame {
    slots: Vec<WorkOffset>,
    inputs: Vec<Option<Vec<u8>>>,
}

impl CallFrame {
    /// The slots allocated so far.
    pub closed spec fn slots_spec(&self) -> Seq<WorkOffset> {
        self.slots@
    }

    /// Whether slot `i` is filled before the call, and with what.
    pub closed spec fn input_spec(&self, i: int) -> Option<Seq<u8>> {
        match self.inputs@[i] {
            Some(v) => Some(v@),
            None => None,
        }
    }

    /// Whether the slots are disjoint and each input fits its slot.
    pub closed spec fn wf(&self) -> bool {
        &&& slots_disjoint(self.slots@)
        &&& self.inputs@.len() == self.slots@.len()
        &&& forall|i: int|
            0 <= i < self.slots@.len() && self.inputs@[i] is Some ==> #[trigger] self.inputs@[i]->Some_0@.len()
                == self.slots@[i].size
    }

    /// A frame with no slots.
    pub fn new() -> (r: CallFrame)
        ensures
            r.wf(),
            r.slots_spec().len() == 0,
    {
        CallFrame { slots: Vec::new(), inputs: Vec::new() }
    }

    /// The number of slots.
    pub fn len(&self) -> (r: usize)
        ensures
            r == self.slots_spec().len(),
    {
        self.slots.len()
    }

    /// The slot at `index`.
    pub fn slot(&self, index: usize) -> (r: WorkOffset)
        requires
            index < self.slots_spec().len(),
        ensures
            r == self.slots_spec()[index as int],
    {
        self.slots[index]
    }

    /// Allocates a slot of `size` bytes aligned to `align` after the last
    /// one, filled with `input` before the call or zeroed if none is given,
    /// and returns its index; a slot that would overrun the buffer is a
    /// capacity error and leaves the frame as it was.
    pub fn add_slot(&mut self, size: usize, align: usize, input: Option<Vec<u8>>) -> (r: Result<
        usize,
        LoaderError,
    >)
        requires
            old(self).wf(),
            0 < align < WORK_ALIGN,
            input is Some ==> input->Some_0@.len() == size,
        ensures
            final(self).wf(),
            ({
                let prev = if old(self).slots_spec().len() == 0 {
                    WorkOffset { offset: 0, size: 0, align: 1 }
                } else {
                    old(self).slots_spec().last()
                };
                match next_slot(prev, size as nat, align as nat) {
                    Some(s) => r == Ok::<usize, LoaderError>(old(self).slots_spec().len() as usize)
                        && final(self).slots_spec() == old(self).slots_spec().push(s)
                        && final(self).input_spec(old(self).slots_spec().len() as int) == match input {
                        Some(v) => Some(v@),
                        None => None::<Seq<u8>>,
                    } && forall|i: int|
                        0 <= i < old(self).slots_spec().len() ==> #[trigger] final(self).input_spec(i)
                            == old(self).input_spec(i),
                    None => r == Err::<usize, LoaderError>(LoaderError::CapacityError)
                        && final(self).slots_spec() == old(self).slots_spec() && forall|i: int|
                        0 <= i < old(self).slots_spec().len() ==> #[trigger] final(self).input_spec(i)
                            == old(self).input_spec(i),
                }
            }),
    {
        let prev = if self.slots.len() == 0 {
            Work::root()
        } else {
            self.slots[self.slots.len() - 1]
        };
        let ghost old_inputs = self.inputs@;
        match prev.allocate(size, align) {
            Ok(s) => {
                let index = self.slots.len();
                self.slots.push(s);
                self.inputs.push(input);
                proof {
                    assert forall|i: int| 0 <= i < self.slots@.len() implies slot_ok(
                        #[trigger] self.slots@[i],
                    ) by {
                        if i < index {
                            assert(self.slots@[i] == old(self).slots@[i]);
                        }
                    }
                    assert forall|i: int, j: int|
                        0 <= i < j < self.slots@.len() implies #[trigger] self.slots@[i].offset
                        + self.slots@[i].size <= #[trigger] self.slots@[j].offset by {
                        if j == index as int && i < j && index > 0 {
                            let last = old(self).slots@[index - 1];
                            assert(last.offset + last.size <= s.offset);
                            if i < index - 1 {
                                assert(old(self).slots@[i].offset + old(self).slots@[i].size
                                    <= last.offset);
                            }
                        }
                    }
                    assert forall|i: int|
                        0 <= i < self.slots@.len() && self.inputs@[i] is Some implies #[trigger] self.inputs@[i]->Some_0@.len()
                            == self.slots@[i].size by {
                        if i < index {
                            assert(self.inputs@[i] == old_inputs[i]);
                        }
                    }
                    assert forall|i: int| 0 <= i < index implies #[trigger] self.input_spec(i)
                        == old(self).input_spec(i) by {
                        assert(self.inputs@[i] == old_inputs[i]);
                    }
                }
                Ok(index)
            },
            Err(e) => Err(e),
        }
    }

    /// Lays the frame's inputs into the scratch buffer before the call:
    /// each input slot holds its value, each output slot zeros.
    pub fn prepare(&self, work: &mut Work)
        requires
            self.wf(),
            old(work).wf(),
        ensures
            final(work).wf(),
            forall|i: int|
                0 <= i < self.slots_spec().len() ==> #[trigger] final(work)@.subrange(
                    self.slots_spec()[i].offset as int,
                    self.slots_spec()[i].offset + self.slots_spec()[i].size,
                ) == match self.input_spec(i) {
                    Some(v) => v,
                    None => Seq::new(self.slots_spec()[i].size as nat, |k: int| 0u8),
                },
    {
        let mut k: usize = 0;
        while k < self.slots.len()
            invariant
                self.wf(),
                work.wf(),
                k <= self.slots@.len(),
                forall|i: int|
                    0 <= i < k ==> #[trigger] work@.subrange(
                        self.slots@[i].offset as int,
                        self.slots@[i].offset + self.slots@[i].size,
                    ) == match self.input_spec(i) {
                        Some(v) => v,
                        None => Seq::new(self.slots@[i].size as nat, |x: int| 0u8),
                    },
            decreases self.slots@.len() - k,
        {
            let slot = self.slots[k];
            let ghost before = work@;
            match &self.inputs[k] {
                Some(v) => {
                    work.put(&slot, v.as_slice());
                },
                None => {
                    let zeros = zero_bytes(slot.size);
                    work.put(&slot, zeros.as_slice());
                },
            }
            proof {
                assert forall|i: int| 0 <= i < k + 1 implies #[trigger] work@.subrange(
                    self.slots@[i].offset as int,
                    self.slots@[i].offset + self.slots@[i].size,
                ) == match self.input_spec(i) {
                    Some(v) => v,
                    None => Seq::new(self.slots@[i].size as nat, |x: int| 0u8),
                } by {
                    if i < k {
                        let si = self.slots@[i];
                        assert(si.offset + si.size <= slot.offset);
                        assert(work@.subrange(si.offset as int, si.offset + si.size) =~= before.subrange(
                            si.offset as int,
                            si.offset + si.size,
                        ));
                    } else {
                        if self.inputs@[i] is None {
                            assert(work@.subrange(slot.offset as int, slot.offset + slot.size) =~= Seq::new(
                                slot.size as nat,
                                |x: int| 0u8,
                            ));
                        }
                    }
                }
            }
            k += 1;
        }
    }

    /// The value that slot `index` holds after the call.
    pub fn output(&self, work: &Work, index: usize) -> (r: Vec<u8>)
        requires
            self.wf(),
            work.wf(),
            index < self.slots_spec().len(),
        ensures
            r@ == work@.subrange(
                self.slots_spec()[index as int].offset as int,
                self.slots_spec()[index as int].offset + self.slots_spec()[index as int].size,
            ),
    {
        let slot = self.slots[index];
        proof {
            assert(slot_ok(self.slots@[index as int]));
        }
        work.get(&slot)
    }
}

/// `n` zero bytes.
fn zero_bytes(n: usize) -> (r: Vec<u8>)
    ensures
        r@ == Seq::new(n as nat, |i: int| 0u8),
{
    let mut r: Vec<u8> = Vec::new();
    while r.len() < n
        invariant
            r@.len() <= n,
            forall|i: int| 0 <= i < r@.len() ==> r@[i] == 0,
        decreases n - r@.len(),
    {
        r.push(0);
    }
    assert(r@ =~= Seq::new(n as nat, |i: int| 0u8));
    r
}

} // verus!
