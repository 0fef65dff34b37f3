use voluspa_kernel::keyboard::{DecodeError, DecodedKey, KeyCode, KeyState, Keyboard};

#[test]
fn press_release_emits_one_event() {
    let mut kb = Keyboard::new();
    // Make code of the letter A key, then its break code.
    let press = kb.add_byte(0x1e).unwrap().unwrap();
    assert_eq!(press.code, KeyCode { base: 0x1e, extended: false });
    assert_eq!(press.state, KeyState::Down);
    assert_eq!(kb.process_keyevent(press), Some(DecodedKey::Ascii(0x61)));

    let release = kb.add_byte(0x9e).unwrap().unwrap();
    assert_eq!(release.code, KeyCode { base: 0x1e, extended: false });
    assert_eq!(release.state, KeyState::Up);
    assert_eq!(kb.process_keyevent(release), None);
}

#[test]
fn digits_and_enter_decode() {
    let mut kb = Keyboard::new();
    let one = kb.add_byte(0x02).unwrap().unwrap();
    assert_eq!(kb.process_keyevent(one), Some(DecodedKey::Ascii(0x31)));
    let enter = kb.add_byte(0x1c).unwrap().unwrap();
    assert_eq!(kb.process_keyevent(enter), Some(DecodedKey::Ascii(0x0a)));
}

#[test]
fn garbage_byte_then_valid_sequence() {
    let mut kb = Keyboard::new();
    // 0xd9 would be the break code of 0x59, which scancode set 1 leaves
    // undefined: the decoder rejects it and resynchronizes.
    assert_eq!(kb.add_byte(0xd9), Err(DecodeError::UnknownKeyCode));
    let press = kb.add_byte(0x1e).unwrap().unwrap();
    assert_eq!(kb.process_keyevent(press), Some(DecodedKey::Ascii(0x61)));
}

#[test]
fn garbage_after_extended_prefix_then_valid() {
    let mut kb = Keyboard::new();
    assert_eq!(kb.add_byte(0xe0), Ok(None));
    // 0x2a is not a recognized extended code.
    assert_eq!(kb.add_byte(0x2a), Err(DecodeError::UnknownKeyCode));
    let press = kb.add_byte(0x10).unwrap().unwrap();
    assert_eq!(kb.process_keyevent(press), Some(DecodedKey::Ascii(0x71)));
}

#[test]
fn extended_arrow_key_is_raw() {
    let mut kb = Keyboard::new();
    assert_eq!(kb.add_byte(0xe0), Ok(None));
    let press = kb.add_byte(0x48).unwrap().unwrap();
    assert_eq!(press.code, KeyCode { base: 0x48, extended: true });
    assert_eq!(press.state, KeyState::Down);
    assert_eq!(
        kb.process_keyevent(press),
        Some(DecodedKey::Raw(KeyCode { base: 0x48, extended: true }))
    );
    let release_prefix = kb.add_byte(0xe0);
    assert_eq!(release_prefix, Ok(None));
    let release = kb.add_byte(0xc8).unwrap().unwrap();
    assert_eq!(release.state, KeyState::Up);
    assert_eq!(kb.process_keyevent(release), None);
}

#[test]
fn shift_press_produces_no_output() {
    let mut kb = Keyboard::new();
    let press = kb.add_byte(0x2a).unwrap().unwrap();
    assert_eq!(press.state, KeyState::Down);
    assert_eq!(kb.process_keyevent(press), None);
}

#[test]
fn keypad_enter_decodes_as_line_feed() {
    let mut kb = Keyboard::new();
    assert_eq!(kb.add_byte(0xe0), Ok(None));
    let press = kb.add_byte(0x1c).unwrap().unwrap();
    assert_eq!(kb.process_keyevent(press), Some(DecodedKey::Ascii(0x0a)));
}
