use voluspa_kernel::bga::{Pixel, VbaError, bank_count, pixel_location};

#[test]
fn pixel_new_and_pack() {
    let p = Pixel::new(255, 0, 255);
    assert_eq!(p.r, 255);
    assert_eq!(p.g, 0);
    assert_eq!(p.b, 255);
    assert_eq!(p.pad, 0);
    assert_eq!(p.to_u32(), 0x00ff_00ff);
}

#[test]
fn pixel_from_u32_unpacks_low_bytes() {
    let p = Pixel::from_u32(0x0012_3456);
    assert_eq!(p.r, 0x56);
    assert_eq!(p.g, 0x34);
    assert_eq!(p.b, 0x12);
    assert_eq!(p.pad, 0);
}

#[test]
fn pack_layout_is_blue_green_red() {
    let v = Pixel::new(0x11, 0x22, 0x33).to_u32();
    assert_eq!(v & 0xff, 0x33);
    assert_eq!((v >> 8) & 0xff, 0x22);
    assert_eq!((v >> 16) & 0xff, 0x11);
    assert_eq!(v >> 24, 0);
}

#[test]
fn bank_count_for_default_mode() {
    // 1024 by 768 at the 0x20 depth setting.
    assert_eq!(bank_count(1024, 768, 0x20), 384);
    assert_eq!(bank_count(640, 480, 0x20), 150);
    assert_eq!(bank_count(0, 480, 0x20), 0);
}

#[test]
fn pixel_location_in_bounds() {
    let (bank, pos) = pixel_location(10, 2, 640, 480).unwrap();
    // offset = 10 + 2 * 640 = 1290, inside the first bank.
    assert_eq!(bank, 0);
    assert_eq!(pos, 1290);

    let (bank, pos) = pixel_location(500, 400, 640, 480).unwrap();
    // offset = 500 + 400 * 640 = 256500 = 15 * 16383 + 10755.
    assert_eq!(bank, 15);
    assert_eq!(pos, 10755);
}

#[test]
fn pixel_location_rejects_out_of_bounds() {
    assert_eq!(pixel_location(641, 0, 640, 480), Err(VbaError::PixelOutOfBound));
    assert_eq!(pixel_location(0, 481, 640, 480), Err(VbaError::PixelOutOfBound));
    // The boundary itself is accepted, matching the strict comparison.
    assert!(pixel_location(640, 480, 640, 480).is_ok());
}
