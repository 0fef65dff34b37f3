use voluspa_kernel::pic::{ChainedPics, InterruptIndex, PIC_1_OFFSET, PIC_2_OFFSET, service_timer_ticks};

#[test]
fn offsets_after_remap() {
    let mut pics = ChainedPics::new(PIC_1_OFFSET, PIC_2_OFFSET);
    pics.initialize();
    assert!(pics.primary.offset >= 32);
    assert_eq!(pics.primary.offset, 32);
    assert_eq!(pics.secondary.offset, pics.primary.offset + 8);
}

#[test]
fn interrupt_index_vectors() {
    assert_eq!(InterruptIndex::Timer.as_u8(), 32);
    assert_eq!(InterruptIndex::Keyboard.as_u8(), 33);
    assert_eq!(InterruptIndex::Keyboard.as_usize(), 33);
}

#[test]
fn vector_ownership() {
    let mut pics = ChainedPics::new(32, 40);
    pics.initialize();
    assert!(!pics.handles_interrupt(31));
    assert!(pics.handles_interrupt(32));
    assert!(pics.handles_interrupt(39));
    assert!(pics.handles_interrupt(40));
    assert!(pics.handles_interrupt(47));
    assert!(!pics.handles_interrupt(48));
}

#[test]
fn no_delivery_before_remap() {
    let mut pics = ChainedPics::new(32, 40);
    assert_eq!(pics.try_deliver(0), None);
}

#[test]
fn delivery_hands_out_remapped_vector() {
    let mut pics = ChainedPics::new(32, 40);
    pics.initialize();
    assert_eq!(pics.try_deliver(1), Some(33));
}

#[test]
fn acknowledged_ticks_keep_flowing() {
    let mut pics = ChainedPics::new(32, 40);
    pics.initialize();
    let delivered = service_timer_ticks(&mut pics, 1000, true);
    assert_eq!(delivered, 1000);
    // The controller is back in its idle state: the next tick still lands.
    assert_eq!(pics.try_deliver(0), Some(32));
}

#[test]
fn missing_acknowledgement_starves_the_line() {
    let mut pics = ChainedPics::new(32, 40);
    pics.initialize();
    let delivered = service_timer_ticks(&mut pics, 1000, false);
    assert_eq!(delivered, 1);
    assert_eq!(pics.try_deliver(0), None);
}

#[test]
fn acknowledgement_reopens_the_line() {
    let mut pics = ChainedPics::new(32, 40);
    pics.initialize();
    let vector = pics.try_deliver(0).unwrap();
    assert_eq!(pics.try_deliver(0), None);
    pics.notify_end_of_interrupt(vector);
    assert_eq!(pics.try_deliver(0), Some(32));
}

#[test]
fn in_service_line_blocks_lower_priority() {
    let mut pics = ChainedPics::new(32, 40);
    pics.initialize();
    let vector = pics.try_deliver(0).unwrap();
    assert_eq!(vector, 32);
    // While the timer is unacknowledged, the lower-priority keyboard line
    // on the same controller is starved too.
    assert_eq!(pics.try_deliver(1), None);
    pics.notify_end_of_interrupt(vector);
    assert_eq!(pics.try_deliver(1), Some(33));
}
