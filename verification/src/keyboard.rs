//! Scancode decoder: a byte-stream parser for scancode set 1 with the
//! unshifted US layout. One byte arrives per keyboard interrupt; the
//! decoder accumulates the extended-key prefix, frames press against
//! release by the high bit, and on a complete recognized sequence emits a
//! key event. A byte it does not recognize is discarded and the decoder
//! returns to its starting state, so corrupt input can never wedge it.

use vstd::prelude::*;

verus! {

/// The extended-key prefix byte of scancode set 1.
pub const EXTENDED_KEY_CODE: u8 = 0xe0;

/// Bit that distinguishes a release (break) code from a press (make) code.
pub const KEY_RELEASE_BIT: u8 = 0x80;

/// A logical key: its base make code (always below 0x80) and whether it
/// arrived behind the extended-key prefix.
#[derive(Debug, Clone, Copy, PartialEq, Eq, Structural)]
pub struct KeyCode {
    pub base: u8,
    pub extended: bool,
}

#[derive(Debug, Clone, Copy, PartialEq, Eq, Structural)]
pub enum KeyState {
    Down,
    Up,
}

/// A completed press or release of one logical key.
#[derive(Debug, Clone, Copy, PartialEq, Eq, Structural)]
pub struct KeyEvent {
    pub code: KeyCode,
    pub state: KeyState,
}

/// What the consumer renders: a printable byte, or a key with no printable
/// form, handed over as its code.
#[derive(Debug, Clone, Copy, PartialEq, Eq, Structural)]
pub enum DecodedKey {
    Ascii(u8),
    Raw(KeyCode),
}

#[derive(Debug, Clone, Copy, PartialEq, Eq, Structural)]
pub enum DecodeError {
    UnknownKeyCode,
}

/// The single-byte make codes scancode set 1 defines.
pub open spec fn known_base(code: u8) -> bool {
    0x01 <= code <= 0x53 || code == 0x57 || code == 0x58
}

/// The extended (prefix 0xE0) make codes this decoder recognizes: keypad
/// enter and slash, right control and alt, and the navigation block.
pub open spec fn known_extended(code: u8) -> bool {
    ||| code == 0x1c
    ||| code == 0x1d
    ||| code == 0x35
    ||| code == 0x38
    ||| 0x47 <= code <= 0x49
    ||| code == 0x4b
    ||| code == 0x4d
    ||| 0x4f <= code <= 0x53
}

/// Keys that only change modifier state; their presses produce no output.
pub open spec fn spec_is_modifier(code: KeyCode) -> bool {
    !code.extended && (code.base == 0x2a || code.base == 0x36 || code.base == 0x3a || code.base
        == 0x45)
}

/// Decoder state: whether the extended-key prefix has been seen and its
/// second byte is still outstanding.
#[derive(Debug, Clone, Copy, PartialEq, Eq, Structural)]
pub struct Keyboard {
    pub extended: bool,
}

/// What one byte does to the decoder: the state after the byte, and the
/// completed event, nothing yet, or a rejection.
pub open spec fn spec_add_byte(kb: Keyboard, byte: u8) -> (Keyboard, Result<
    Option<KeyEvent>,
    DecodeError,
>) {
    let fresh = Keyboard { extended: false };
    if !kb.extended {
        if byte == EXTENDED_KEY_CODE {
            (Keyboard { extended: true }, Ok(None))
        } else if byte >= KEY_RELEASE_BIT {
            if known_base((byte - KEY_RELEASE_BIT) as u8) {
                (
                    fresh,
                    Ok(
                        Some(
                            KeyEvent {
                                code: KeyCode {
                                    base: (byte - KEY_RELEASE_BIT) as u8,
                                    extended: false,
                                },
                                state: KeyState::Up,
                            },
                        ),
                    ),
                )
            } else {
                (fresh, Err(DecodeError::UnknownKeyCode))
            }
        } else {
            if known_base(byte) {
                (
                    fresh,
                    Ok(
                        Some(
                            KeyEvent {
                                code: KeyCode { base: byte, extended: false },
                                state: KeyState::Down,
                            },
                        ),
                    ),
                )
            } else {
                (fresh, Err(DecodeError::UnknownKeyCode))
            }
        }
    } else {
        if byte >= KEY_RELEASE_BIT {
            if known_extended((byte - KEY_RELEASE_BIT) as u8) {
                (
                    fresh,
                    Ok(
                        Some(
                            KeyEvent {
                                code: KeyCode {
                                    base: (byte - KEY_RELEASE_BIT) as u8,
                                    extended: true,
                                },
                                state: KeyState::Up,
                            },
                        ),
                    ),
                )
            } else {
                (fresh, Err(DecodeError::UnknownKeyCode))
            }
        } else {
            if known_extended(byte) {
                (
                    fresh,
                    Ok(
                        Some(
                            KeyEvent {
                                code: KeyCode { base: byte, extended: true },
                                state: KeyState::Down,
                            },
                        ),
                    ),
                )
            } else {
                (fresh, Err(DecodeError::UnknownKeyCode))
            }
        }
    }
}

/// The printable byte a key produces on the unshifted US layout, when it
/// has one. Enter and keypad enter give line feed; backspace and tab give
/// their control bytes, escape its escape byte.
pub open spec fn spec_ascii_of(code: KeyCode) -> Option<u8> {
    if code.extended {
        if code.base == 0x1c {
            Some(0x0a)
        } else if code.base == 0x35 {
            Some(0x2f)
        } else {
            None
        }
    } else {
        match code.base {
            0x01 => Some(0x1b),
            0x02 => Some(0x31),
            0x03 => Some(0x32),
            0x04 => Some(0x33),
            0x05 => Some(0x34),
            0x06 => Some(0x35),
            0x07 => Some(0x36),
            0x08 => Some(0x37),
            0x09 => Some(0x38),
            0x0a => Some(0x39),
            0x0b => Some(0x30),
            0x0c => Some(0x2d),
            0x0d => Some(0x3d),
            0x0e => Some(0x08),
            0x0f => Some(0x09),
            0x10 => Some(0x71),
            0x11 => Some(0x77),
            0x12 => Some(0x65),
            0x13 => Some(0x72),
            0x14 => Some(0x74),
            0x15 => Some(0x79),
            0x16 => Some(0x75),
            0x17 => Some(0x69),
            0x18 => Some(0x6f),
            0x19 => Some(0x70),
            0x1a => Some(0x5b),
            0x1b => Some(0x5d),
            0x1c => Some(0x0a),
            0x1e => Some(0x61),
            0x1f => Some(0x73),
            0x20 => Some(0x64),
            0x21 => Some(0x66),
            0x22 => Some(0x67),
            0x23 => Some(0x68),
            0x24 => Some(0x6a),
            0x25 => Some(0x6b),
            0x26 => Some(0x6c),
            0x27 => Some(0x3b),
            0x28 => Some(0x27),
            0x29 => Some(0x60),
            0x2b => Some(0x5c),
            0x2c => Some(0x7a),
            0x2d => Some(0x78),
            0x2e => Some(0x63),
            0x2f => Some(0x76),
            0x30 => Some(0x62),
            0x31 => Some(0x6e),
            0x32 => Some(0x6d),
            0x33 => Some(0x2c),
            0x34 => Some(0x2e),
            0x35 => Some(0x2f),
            0x37 => Some(0x2a),
            0x39 => Some(0x20),
            0x47 => Some(0x37),
            0x48 => Some(0x38),
            0x49 => Some(0x39),
            0x4a => Some(0x2d),
            0x4b => Some(0x34),
            0x4c => Some(0x35),
            0x4d => Some(0x36),
            0x4e => Some(0x2b),
            0x4f => Some(0x31),
            0x50 => Some(0x32),
            0x51 => Some(0x33),
            0x52 => Some(0x30),
            0x53 => Some(0x2e),
            _ => None,
        }
    }
}

/// What the consumer receives for one completed event: nothing for a
/// release or a bare modifier, otherwise the printable byte or, failing
/// that, the raw key code.
pub open spec fn spec_process_keyevent(ev: KeyEvent) -> Option<DecodedKey> {
    match ev.state {
        KeyState::Up => None,
        KeyState::Down => if spec_is_modifier(ev.code) {
            None
        } else {
            match spec_ascii_of(ev.code) {
                Some(a) => Some(DecodedKey::Ascii(a)),
                None => Some(DecodedKey::Raw(ev.code)),
            }
        },
    }
}

impl Keyboard {
    pub fn new() -> (kb: Self)
        ensures
            !kb.extended,
    {
        Keyboard { extended: false }
    }

    /// Feeds one raw byte to the decoder.
    pub fn add_byte(&mut self, byte: u8) -> (r: Result<Option<KeyEvent>, DecodeError>)
        ensures
            *final(self) == spec_add_byte(*old(self), byte).0,
            r == spec_add_byte(*old(self), byte).1,
    {
        if !self.extended {
            if byte == EXTENDED_KEY_CODE {
                self.extended = true;
                Ok(None)
            } else if byte >= KEY_RELEASE_BIT {
                let base = byte - KEY_RELEASE_BIT;
                if known_base_code(base) {
                    Ok(
                        Some(
                            KeyEvent {
                                code: KeyCode { base, extended: false },
                                state: KeyState::Up,
                            },
                        ),
                    )
                } else {
                    Err(DecodeError::UnknownKeyCode)
                }
            } else {
                if known_base_code(byte) {
                    Ok(
                        Some(
                            KeyEvent {
                                code: KeyCode { base: byte, extended: false },
                                state: KeyState::Down,
                            },
                        ),
                    )
                } else {
                    Err(DecodeError::UnknownKeyCode)
                }
            }
        } else {
            self.extended = false;
            if byte >= KEY_RELEASE_BIT {
                let base = byte - KEY_RELEASE_BIT;
                if known_extended_code(base) {
                    Ok(
                        Some(
                            KeyEvent { code: KeyCode { base, extended: true }, state: KeyState::Up },
                        ),
                    )
                } else {
                    Err(DecodeError::UnknownKeyCode)
                }
            } else {
                if known_extended_code(byte) {
                    Ok(
                        Some(
                            KeyEvent {
                                code: KeyCode { base: byte, extended: true },
                                state: KeyState::Down,
                            },
                        ),
                    )
                } else {
                    Err(DecodeError::UnknownKeyCode)
                }
            }
        }
    }

    /// Turns one completed event into what the consumer should render.
    pub fn process_keyevent(&self, ev: KeyEvent) -> (r: Option<DecodedKey>)
        ensures
            r == spec_process_keyevent(ev),
    {
        match ev.state {
            KeyState::Up => None,
            KeyState::Down => {
                if !ev.code.extended && (ev.code.base == 0x2a || ev.code.base == 0x36
                    || ev.code.base == 0x3a || ev.code.base == 0x45) {
                    None
                } else {
                    match ascii_of(ev.code) {
                        Some(a) => Some(DecodedKey::Ascii(a)),
                        None => Some(DecodedKey::Raw(ev.code)),
                    }
                }
            },
        }
    }
}

fn known_base_code(code: u8) -> (r: bool)
    ensures
        r == known_base(code),
{
    (0x01 <= code && code <= 0x53) || code == 0x57 || code == 0x58
}

fn known_extended_code(code: u8) -> (r: bool)
    ensures
        r == known_extended(code),
{
    code == 0x1c || code == 0x1d || code == 0x35 || code == 0x38 || (0x47 <= code && code <= 0x49)
        || code == 0x4b || code == 0x4d || (0x4f <= code && code <= 0x53)
}

fn ascii_of(code: KeyCode) -> (r: Option<u8>)
    ensures
        r == spec_ascii_of(code),
{
    if code.extended {
        if code.base == 0x1c {
            Some(0x0a)
        } else if code.base == 0x35 {
            Some(0x2f)
        } else {
            None
        }
    } else {
        match code.base {
            0x01 => Some(0x1b),
            0x02 => Some(0x31),
            0x03 => Some(0x32),
            0x04 => Some(0x33),
            0x05 => Some(0x34),
            0x06 => Some(0x35),
            0x07 => Some(0x36),
            0x08 => Some(0x37),
            0x09 => Some(0x38),
            0x0a => Some(0x39),
            0x0b => Some(0x30),
            0x0c => Some(0x2d),
            0x0d => Some(0x3d),
            0x0e => Some(0x08),
            0x0f => Some(0x09),
            0x10 => Some(0x71),
            0x11 => Some(0x77),
            0x12 => Some(0x65),
            0x13 => Some(0x72),
            0x14 => Some(0x74),
            0x15 => Some(0x79),
            0x16 => Some(0x75),
            0x17 => Some(0x69),
            0x18 => Some(0x6f),
            0x19 => Some(0x70),
            0x1a => Some(0x5b),
            0x1b => Some(0x5d),
            0x1c => Some(0x0a),
            0x1e => Some(0x61),
            0x1f => Some(0x73),
            0x20 => Some(0x64),
            0x21 => Some(0x66),
            0x22 => Some(0x67),
            0x23 => Some(0x68),
            0x24 => Some(0x6a),
            0x25 => Some(0x6b),
            0x26 => Some(0x6c),
            0x27 => Some(0x3b),
            0x28 => Some(0x27),
            0x29 => Some(0x60),
            0x2b => Some(0x5c),
            0x2c => Some(0x7a),
            0x2d => Some(0x78),
            0x2e => Some(0x63),
            0x2f => Some(0x76),
            0x30 => Some(0x62),
            0x31 => Some(0x6e),
            0x32 => Some(0x6d),
            0x33 => Some(0x2c),
            0x34 => Some(0x2e),
            0x35 => Some(0x2f),
            0x37 => Some(0x2a),
            0x39 => Some(0x20),
            0x47 => Some(0x37),
            0x48 => Some(0x38),
            0x49 => Some(0x39),
            0x4a => Some(0x2d),
            0x4b => Some(0x34),
            0x4c => Some(0x35),
            0x4d => Some(0x36),
            0x4e => Some(0x2b),
            0x4f => Some(0x31),
            0x50 => Some(0x32),
            0x51 => Some(0x33),
            0x52 => Some(0x30),
            0x53 => Some(0x2e),
            _ => None,
        }
    }
}

/// Press/release framing: from the starting state, the make code of a
/// recognized non-modifier key decodes to exactly one press event, whose
/// processing yields exactly one printable-or-raw output; the matching
/// break code decodes to the release event, whose processing yields no
/// output.
pub proof fn lemma_press_release_framing(kb: Keyboard, base: u8)
    requires
        !kb.extended,
        known_base(base),
        !spec_is_modifier(KeyCode { base, extended: false }),
    ensures
        ({
            let (kb1, r1) = spec_add_byte(kb, base);
            let (kb2, r2) = spec_add_byte(kb1, (base + KEY_RELEASE_BIT) as u8);
            &&& r1 == Ok::<_, DecodeError>(
                Some(KeyEvent { code: KeyCode { base, extended: false }, state: KeyState::Down }),
            )
            &&& spec_process_keyevent(r1->Ok_0->Some_0) is Some
            &&& r2 == Ok::<_, DecodeError>(
                Some(KeyEvent { code: KeyCode { base, extended: false }, state: KeyState::Up }),
            )
            &&& spec_process_keyevent(r2->Ok_0->Some_0) is None
        }),
{
}

/// Resynchronization: a byte the decoder rejects leaves it in its starting
/// state, so whatever follows decodes exactly as it would on a fresh
/// decoder.
pub proof fn lemma_resynchronize(kb: Keyboard, garbage: u8, next: u8)
    requires
        spec_add_byte(kb, garbage).1 is Err,
    ensures
        spec_add_byte(kb, garbage).0 == (Keyboard { extended: false }),
        spec_add_byte(spec_add_byte(kb, garbage).0, next) == spec_add_byte(
            Keyboard { extended: false },
            next,
        ),
{
}

} // verus!
