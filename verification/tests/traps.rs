use voluspa_kernel::boot::{KernelStatus, init};
use voluspa_kernel::idt::{
    FaultOutcome, HandlerKind, Idt, breakpoint_handler, double_fault_handler, page_fault_handler,
    stack_exhaustion_outcome,
};
use voluspa_kernel::keyboard::DecodedKey;

#[test]
fn breakpoint_is_absorbed_and_execution_continues() {
    let mut ctx = init(1);
    assert_eq!(ctx.on_breakpoint(), Some(FaultOutcome::Resumed));
    assert_eq!(ctx.status, KernelStatus::Running);
    // The kernel still services hardware signals afterwards.
    assert!(ctx.on_timer_tick());
    let out = ctx.on_keyboard_byte(0x1e);
    assert_eq!(out, Some(DecodedKey::Ascii(0x61)));
}

#[test]
fn handler_outcomes() {
    assert_eq!(breakpoint_handler(), FaultOutcome::Resumed);
    assert_eq!(double_fault_handler(), FaultOutcome::HaltedCleanly);
    assert_eq!(page_fault_handler(0xdead_beef, 0x2), FaultOutcome::HaltedCleanly);
}

#[test]
fn stack_overflow_halts_cleanly_exactly_once() {
    let mut ctx = init(1);
    assert_eq!(ctx.on_stack_exhaustion(), Some(FaultOutcome::HaltedCleanly));
    assert_eq!(ctx.status, KernelStatus::Halted);
    // Terminal: the halted machine absorbs every further event.
    assert_eq!(ctx.on_stack_exhaustion(), None);
    assert_eq!(ctx.on_breakpoint(), None);
    assert!(!ctx.on_timer_tick());
    assert_eq!(ctx.on_keyboard_byte(0x1e), None);
    assert_eq!(ctx.status, KernelStatus::Halted);
}

#[test]
fn page_fault_is_fatal() {
    let mut ctx = init(1);
    assert_eq!(ctx.on_page_fault(0x0, 0x2), Some(FaultOutcome::HaltedCleanly));
    assert_eq!(ctx.status, KernelStatus::Halted);
    assert_eq!(ctx.on_page_fault(0x0, 0x2), None);
}

#[test]
fn double_fault_without_dedicated_stack_escalates() {
    // An empty table, or a double-fault entry missing its stack, cannot
    // stop the escalation.
    let idt = Idt::new();
    assert_eq!(stack_exhaustion_outcome(&idt), FaultOutcome::TripleFault);

    let mut idt = Idt::new();
    idt.set_handler(8, HandlerKind::DoubleFault);
    assert_eq!(stack_exhaustion_outcome(&idt), FaultOutcome::TripleFault);

    let mut idt = Idt::new();
    idt.set_handler_with_stack(8, HandlerKind::DoubleFault, 1);
    assert_eq!(stack_exhaustion_outcome(&idt), FaultOutcome::HaltedCleanly);
}

#[test]
fn boot_sequence_installs_expected_entries() {
    let ctx = init(7);
    let df = ctx.idt.entries[8].unwrap();
    assert_eq!(df.handler, HandlerKind::DoubleFault);
    assert_eq!(df.stack_index, Some(7));
    assert_eq!(ctx.idt.entries[3].unwrap().handler, HandlerKind::Breakpoint);
    assert_eq!(ctx.idt.entries[14].unwrap().handler, HandlerKind::PageFault);
    assert_eq!(ctx.idt.entries[32].unwrap().handler, HandlerKind::Timer);
    assert_eq!(ctx.idt.entries[33].unwrap().handler, HandlerKind::Keyboard);
    assert!(ctx.idt.entries[4].is_none());
    assert!(ctx.interrupts_enabled);
}

#[test]
fn timer_ticks_survive_many_rounds() {
    let mut ctx = init(1);
    let mut i = 0;
    while i < 500 {
        assert!(ctx.on_timer_tick());
        i += 1;
    }
}

#[test]
fn keyboard_bytes_stream_through_kernel() {
    let mut ctx = init(1);
    // "hi" typed out: make/break pairs, only the presses produce output.
    assert_eq!(ctx.on_keyboard_byte(0x23), Some(DecodedKey::Ascii(0x68)));
    assert_eq!(ctx.on_keyboard_byte(0xa3), None);
    assert_eq!(ctx.on_keyboard_byte(0x17), Some(DecodedKey::Ascii(0x69)));
    assert_eq!(ctx.on_keyboard_byte(0x97), None);
}
