//! Model of the trap vector table: 256 slots mapping a vector number to a
//! handler and, for the double-fault slot, to the index of a dedicated
//! known-good stack. The CPU reads the real table after a single load;
//! this module builds the same content as plain data, proves which entry
//! every vector carries, and classifies what each installed handler does
//! to the machine — resume, clean halt, or the unrecoverable escalation
//! that a missing or stackless double-fault entry would permit.

use vstd::prelude::*;

verus! {

pub const IDT_SIZE: usize = 256;

/// CPU-defined exception vectors this kernel installs handlers for.
pub const BREAKPOINT_VECTOR: u8 = 3;
pub const DOUBLE_FAULT_VECTOR: u8 = 8;
pub const PAGE_FAULT_VECTOR: u8 = 14;

/// The handler routines this kernel knows how to attach to a vector.
#[derive(Debug, Clone, Copy, PartialEq, Eq, Structural)]
pub enum HandlerKind {
    Breakpoint,
    DoubleFault,
    PageFault,
    Timer,
    Keyboard,
}

/// One installed table slot: the handler, and for handlers that must not
/// run on the faulting stack, the index of their dedicated stack.
#[derive(Debug, Clone, Copy, PartialEq, Eq, Structural)]
pub struct IdtEntry {
    pub handler: HandlerKind,
    pub stack_index: Option<u16>,
}

/// The in-memory table: one optional entry per vector. A vector left at
/// `None` keeps the hardware default, which escalates.
pub struct Idt {
    pub entries: Vec<Option<IdtEntry>>,
}

impl Idt {
    pub open spec fn wf(self) -> bool {
        self.entries@.len() == 256
    }

    pub open spec fn spec_entry(self, vector: u8) -> Option<IdtEntry> {
        self.entries@[vector as int]
    }

    /// The double-fault safety condition: the double-fault vector carries
    /// its handler together with a dedicated stack. Without the stack, a
    /// fault raised by stack exhaustion leaves the CPU nowhere to push the
    /// new exception frame and the escalation cannot be stopped.
    pub open spec fn double_fault_safe(self) -> bool {
        &&& self.spec_entry(DOUBLE_FAULT_VECTOR) matches Some(e)
        &&& self.spec_entry(DOUBLE_FAULT_VECTOR)->Some_0.handler == HandlerKind::DoubleFault
        &&& self.spec_entry(DOUBLE_FAULT_VECTOR)->Some_0.stack_index is Some
    }

    /// An empty table: every vector still at the hardware default.
    pub fn new() -> (r: Self)
        ensures
            r.wf(),
            forall|v: u8| r.spec_entry(v) is None,
    {
        let mut entries: Vec<Option<IdtEntry>> = Vec::new();
        let mut i: usize = 0;
        while i < IDT_SIZE
            invariant
                i <= 256,
                entries@.len() == i,
                forall|j: int| 0 <= j < i ==> entries@[j] is None,
            decreases 256 - i,
        {
            entries.push(None);
            i = i + 1;
        }
        Idt { entries }
    }

    /// Installs `handler` at `vector` with no dedicated stack, leaving
    /// every other slot as it was.
    pub fn set_handler(&mut self, vector: u8, handler: HandlerKind)
        requires
            old(self).wf(),
        ensures
            final(self).wf(),
            final(self).spec_entry(vector) == Some(IdtEntry { handler, stack_index: None }),
            forall|v: u8| v != vector ==> final(self).spec_entry(v) == old(self).spec_entry(v),
    {
        self.entries.set(vector as usize, Some(IdtEntry { handler, stack_index: None }));
    }

    /// Installs `handler` at `vector` together with the dedicated stack it
    /// must run on, leaving every other slot as it was.
    pub fn set_handler_with_stack(&mut self, vector: u8, handler: HandlerKind, stack_index: u16)
        requires
            old(self).wf(),
        ensures
            final(self).wf(),
            final(self).spec_entry(vector) == Some(
                IdtEntry { handler, stack_index: Some(stack_index) },
            ),
            forall|v: u8| v != vector ==> final(self).spec_entry(v) == old(self).spec_entry(v),
    {
        self.entries.set(vector as usize, Some(IdtEntry { handler, stack_index: Some(stack_index) }));
    }
}

/// What the machine does once a handler finishes, or when no handler can
/// run at all.
#[derive(Debug, Clone, Copy, PartialEq, Eq, Structural)]
pub enum FaultOutcome {
    /// Execution continues at the instruction after the trigger point.
    Resumed,
    /// The processor is halted deliberately, on a stack known to be good.
    HaltedCleanly,
    /// The escalation the table exists to prevent: a reset with no
    /// diagnostic left behind.
    TripleFault,
}

/// Outcome of the breakpoint routine: purely diagnostic, never fatal —
/// after it returns, the CPU resumes at the instruction following the
/// trigger point.
pub fn breakpoint_handler() -> (r: FaultOutcome)
    ensures
        r == FaultOutcome::Resumed,
{
    FaultOutcome::Resumed
}

/// Outcome of the double-fault routine: terminal by design. Its
/// precondition — a fault raised while another fault was being handled —
/// means machine state is untrustworthy, so it halts and never returns.
pub fn double_fault_handler() -> (r: FaultOutcome)
    ensures
        r == FaultOutcome::HaltedCleanly,
{
    FaultOutcome::HaltedCleanly
}

/// Outcome of the page-fault routine in this kernel: fatal diagnostic.
/// With no demand paging, resuming past an unmapped access would be
/// unsound, so after logging the faulting address and reason code the
/// machine halts.
pub fn page_fault_handler(_accessed_address: u64, _error_code: u64) -> (r: FaultOutcome)
    ensures
        r == FaultOutcome::HaltedCleanly,
{
    FaultOutcome::HaltedCleanly
}

/// What becomes of a stack-exhaustion fault: handling the first fault
/// immediately faults again, so the double-fault entry decides everything.
/// Present with its dedicated stack, the machine halts cleanly exactly
/// there; present without one, or absent, the CPU cannot even push the
/// exception frame and escalates beyond recovery.
pub fn stack_exhaustion_outcome(idt: &Idt) -> (r: FaultOutcome)
    requires
        idt.wf(),
    ensures
        r == if idt.double_fault_safe() {
            FaultOutcome::HaltedCleanly
        } else {
            FaultOutcome::TripleFault
        },
        idt.double_fault_safe() ==> r != FaultOutcome::TripleFault,
{
    match idt.entries[DOUBLE_FAULT_VECTOR as usize] {
        Some(e) => {
            if matches!(e.handler, HandlerKind::DoubleFault) && e.stack_index.is_some() {
                double_fault_handler()
            } else {
                FaultOutcome::TripleFault
            }
        },
        None => FaultOutcome::TripleFault,
    }
}

} // verus!
