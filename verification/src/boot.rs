//! Boot orchestration and the kernel's event model. Construction is an
//! explicit phase sequence — install all table entries, load the table,
//! remap the controller, only then enable delivery — with each phase's
//! precondition refusing any other order. After that, the context answers
//! asynchronous events: a breakpoint resumes, a fatal fault halts once and
//! for all, hardware signals run their handler and acknowledge the line.

use vstd::prelude::*;

verus! {

use crate::idt::{
    BREAKPOINT_VECTOR,
    DOUBLE_FAULT_VECTOR,
    FaultOutcome,
    HandlerKind,
    Idt,
    IdtEntry,
    PAGE_FAULT_VECTOR,
};
use crate::idt::stack_exhaustion_outcome;
use crate::keyboard::{DecodedKey, Keyboard, spec_add_byte, spec_process_keyevent};
use crate::pic::{
    ChainedPics,
    InterruptIndex,
    PIC_1_OFFSET,
    PIC_2_OFFSET,
    init_idt_interrupt_handlers,
    keyboard_interrupt_handler,
    timer_interrupt_handler,
};

/// Whether the machine is still running or was halted deliberately. A
/// halted kernel never runs again: there is no recovery path by design.
#[derive(Debug, Clone, Copy, PartialEq, Eq, Structural)]
pub enum KernelStatus {
    Running,
    Halted,
}

/// Everything the interrupt core owns, constructed once at boot and kept
/// for the life of the machine.
pub struct KernelContext {
    pub idt: Idt,
    pub idt_loaded: bool,
    pub pics: ChainedPics,
    pub interrupts_enabled: bool,
    pub keyboard: Keyboard,
    pub status: KernelStatus,
}

impl KernelContext {
    /// Every entry this kernel means to install is present: the three
    /// CPU-exception handlers — double fault with its dedicated stack —
    /// and the two hardware-signal handlers at the remapped vectors.
    pub open spec fn table_installed(self) -> bool {
        &&& self.idt.wf()
        &&& self.idt.spec_entry(BREAKPOINT_VECTOR) == Some(
            IdtEntry { handler: HandlerKind::Breakpoint, stack_index: None::<u16> },
        )
        &&& self.idt.double_fault_safe()
        &&& self.idt.spec_entry(PAGE_FAULT_VECTOR) == Some(
            IdtEntry { handler: HandlerKind::PageFault, stack_index: None::<u16> },
        )
        &&& self.idt.spec_entry(InterruptIndex::Timer.spec_as_u8()) == Some(
            IdtEntry { handler: HandlerKind::Timer, stack_index: None::<u16> },
        )
        &&& self.idt.spec_entry(InterruptIndex::Keyboard.spec_as_u8()) == Some(
            IdtEntry { handler: HandlerKind::Keyboard, stack_index: None::<u16> },
        )
    }

    /// The state the boot sequence must reach before the first
    /// asynchronous event: table complete and loaded, controller remapped
    /// with the serviced lines idle, delivery enabled.
    pub open spec fn initialized(self) -> bool {
        &&& self.table_installed()
        &&& self.idt_loaded
        &&& self.pics.wf()
        &&& self.pics.initialized
        &&& self.pics.primary.offset == PIC_1_OFFSET
        &&& self.pics.primary.mask == 0xf8
        &&& self.pics.primary.in_service == 0
        &&& self.pics.secondary.in_service == 0
        &&& self.interrupts_enabled
    }

    /// Phase one: build the full table in memory and set up the
    /// not-yet-remapped controller pair. Nothing is live yet.
    pub fn new(double_fault_stack_index: u16) -> (ctx: Self)
        ensures
            ctx.table_installed(),
            !ctx.idt_loaded,
            ctx.pics.wf(),
            !ctx.pics.initialized,
            ctx.pics.primary.offset == PIC_1_OFFSET,
            ctx.pics.secondary.offset == PIC_2_OFFSET,
            !ctx.interrupts_enabled,
            !ctx.keyboard.extended,
            ctx.status == KernelStatus::Running,
    {
        let mut idt = Idt::new();
        idt.set_handler(BREAKPOINT_VECTOR, HandlerKind::Breakpoint);
        idt.set_handler_with_stack(
            DOUBLE_FAULT_VECTOR,
            HandlerKind::DoubleFault,
            double_fault_stack_index,
        );
        idt.set_handler(PAGE_FAULT_VECTOR, HandlerKind::PageFault);
        init_idt_interrupt_handlers(&mut idt);
        KernelContext {
            idt,
            idt_loaded: false,
            pics: ChainedPics::new(PIC_1_OFFSET, PIC_2_OFFSET),
            interrupts_enabled: false,
            keyboard: Keyboard::new(),
            status: KernelStatus::Running,
        }
    }

    /// Phase two: hand the finished table to the CPU. Refused until every
    /// intended entry is installed — loading earlier would let an
    /// exception land on a default, fatal path.
    pub fn load_idt(&mut self)
        requires
            old(self).table_installed(),
            !old(self).interrupts_enabled,
        ensures
            *final(self) == (KernelContext { idt_loaded: true, ..*old(self) }),
    {
        self.idt_loaded = true;
    }

    /// Phase three: remap and unmask the controller pair. Refused once
    /// delivery is enabled — a remap under live delivery could route a
    /// signal through a stale vector.
    pub fn init_pics(&mut self)
        requires
            old(self).pics.wf(),
            !old(self).interrupts_enabled,
        ensures
            *final(self) == (KernelContext {
                pics: ChainedPics {
                    primary: crate::pic::Pic {
                        offset: old(self).pics.primary.offset,
                        mask: 0xf8,
                        in_service: 0,
                    },
                    secondary: crate::pic::Pic {
                        offset: old(self).pics.secondary.offset,
                        mask: 0xff,
                        in_service: 0,
                    },
                    initialized: true,
                },
                ..*old(self)
            }),
    {
        self.pics.initialize();
    }

    /// Phase four: enable asynchronous delivery. Refused until both the
    /// table load and the controller remap are complete — the ordering
    /// invariant that keeps a signal from arriving through a
    /// not-yet-installed or stale table.
    pub fn enable_interrupts(&mut self)
        requires
            old(self).table_installed(),
            old(self).idt_loaded,
            old(self).pics.initialized,
        ensures
            *final(self) == (KernelContext { interrupts_enabled: true, ..*old(self) }),
    {
        self.interrupts_enabled = true;
    }
}

/// The whole boot sequence in its one valid order; afterwards the context
/// is fully initialized and running.
pub fn init(double_fault_stack_index: u16) -> (ctx: KernelContext)
    ensures
        ctx.initialized(),
        ctx.status == KernelStatus::Running,
        !ctx.keyboard.extended,
{
    let mut ctx = KernelContext::new(double_fault_stack_index);
    ctx.load_idt();
    ctx.init_pics();
    ctx.enable_interrupts();
    ctx
}

/// An initialized kernel always carries the double-fault entry together
/// with its dedicated stack: the unrecoverable escalation path is closed
/// before the first asynchronous event can arrive.
pub proof fn lemma_initialized_double_fault_safe(ctx: KernelContext)
    requires
        ctx.initialized(),
    ensures
        ctx.idt.double_fault_safe(),
{
}

impl KernelContext {
    /// A breakpoint trap: logged by the edge, absorbed here. The running
    /// kernel is left exactly as it was and execution resumes past the
    /// trigger point; a halted machine sees no events at all.
    pub fn on_breakpoint(&mut self) -> (r: Option<FaultOutcome>)
        requires
            old(self).initialized(),
        ensures
            *final(self) == *old(self),
            old(self).status == KernelStatus::Running ==> r == Some(FaultOutcome::Resumed),
            old(self).status == KernelStatus::Halted ==> r is None,
    {
        match self.status {
            KernelStatus::Running => Some(crate::idt::breakpoint_handler()),
            KernelStatus::Halted => None,
        }
    }

    /// Unbounded recursion exhausts the stack; handling the resulting
    /// fault faults again, and the double-fault entry — present, with its
    /// dedicated stack, by `initialized` — halts the machine cleanly.
    /// This happens at most once: the halted machine absorbs everything.
    pub fn on_stack_exhaustion(&mut self) -> (r: Option<FaultOutcome>)
        requires
            old(self).initialized(),
        ensures
            final(self).initialized(),
            old(self).status == KernelStatus::Running ==> r == Some(FaultOutcome::HaltedCleanly)
                && *final(self) == (KernelContext { status: KernelStatus::Halted, ..*old(self) }),
            old(self).status == KernelStatus::Halted ==> r is None && *final(self) == *old(self),
    {
        match self.status {
            KernelStatus::Running => {
                let outcome = stack_exhaustion_outcome(&self.idt);
                self.status = KernelStatus::Halted;
                Some(outcome)
            },
            KernelStatus::Halted => None,
        }
    }

    /// A fatal page fault: the edge logs the faulting address and reason,
    /// this records the deliberate halt.
    pub fn on_page_fault(&mut self, accessed_address: u64, error_code: u64) -> (r: Option<FaultOutcome>)
        requires
            old(self).initialized(),
        ensures
            final(self).initialized(),
            old(self).status == KernelStatus::Running ==> r == Some(FaultOutcome::HaltedCleanly)
                && *final(self) == (KernelContext { status: KernelStatus::Halted, ..*old(self) }),
            old(self).status == KernelStatus::Halted ==> r is None && *final(self) == *old(self),
    {
        match self.status {
            KernelStatus::Running => {
                let outcome = crate::idt::page_fault_handler(accessed_address, error_code);
                self.status = KernelStatus::Halted;
                Some(outcome)
            },
            KernelStatus::Halted => None,
        }
    }

    /// One timer-line assertion against a running kernel: the controller
    /// delivers it — the serviced lines are idle and unmasked — the
    /// handler acknowledges it, and the context returns to exactly its
    /// prior state, ready for the next tick.
    pub fn on_timer_tick(&mut self) -> (delivered: bool)
        requires
            old(self).initialized(),
        ensures
            *final(self) == *old(self),
            delivered == (old(self).status == KernelStatus::Running),
    {
        match self.status {
            KernelStatus::Running => {
                proof {
                    assert(!crate::pic::bit_set(0xf8u8, 0u8)) by (bit_vector);
                    assert(!crate::pic::bit_set(0u8, 0u8)) by (bit_vector);
                    assert((0u8 | (1u8 << 0)) & !(1u8 << 0) == 0u8) by (bit_vector);
                }
                let got = self.pics.try_deliver(0);
                if got.is_some() {
                    timer_interrupt_handler(&mut self.pics);
                    true
                } else {
                    false
                }
            },
            KernelStatus::Halted => false,
        }
    }

    /// One keyboard-line assertion against a running kernel: the
    /// controller delivers it, the handler feeds the port byte to the
    /// decoder and acknowledges the line. Only the decoder state advances;
    /// the returned value is what the output sink should render.
    pub fn on_keyboard_byte(&mut self, scancode: u8) -> (out: Option<DecodedKey>)
        requires
            old(self).initialized(),
        ensures
            final(self).initialized(),
            old(self).status == KernelStatus::Running ==> *final(self) == (KernelContext {
                keyboard: spec_add_byte(old(self).keyboard, scancode).0,
                ..*old(self)
            }) && out == (match spec_add_byte(old(self).keyboard, scancode).1 {
                Ok(Some(ev)) => spec_process_keyevent(ev),
                _ => None,
            }),
            old(self).status == KernelStatus::Halted ==> *final(self) == *old(self) && out is None,
    {
        match self.status {
            KernelStatus::Running => {
                proof {
                    assert(!crate::pic::bit_set(0xf8u8, 1u8)) by (bit_vector);
                    assert(!crate::pic::bit_set(0u8, 0u8)) by (bit_vector);
                    assert(!crate::pic::bit_set(0u8, 1u8)) by (bit_vector);
                    assert((0u8 | (1u8 << 1)) & !(1u8 << 1) == 0u8) by (bit_vector);
                }
                let got = self.pics.try_deliver(1);
                if got.is_some() {
                    keyboard_interrupt_handler(&mut self.keyboard, &mut self.pics, scancode)
                } else {
                    None
                }
            },
            KernelStatus::Halted => None,
        }
    }
}

} // verus!
