//! Model of the legacy chained dual 8-line interrupt controller: the
//! remapped base offsets, the per-line mask bits, and the in-service bits
//! that gate further delivery until an end-of-interrupt acknowledgement.
//! The real controller is programmed over two command/data ports; this
//! module holds the state those port writes establish and proves the
//! offset and acknowledgement rules the rest of the kernel depends on.

use vstd::prelude::*;

verus! {

use crate::idt::{HandlerKind, Idt, IdtEntry};
use crate::keyboard::{DecodedKey, Keyboard};
use crate::keyboard::{spec_add_byte, spec_process_keyevent};

/// Base vector of the primary controller after remapping: the first vector
/// past the 32 CPU-defined exception vectors.
pub const PIC_1_OFFSET: u8 = 32;
/// Base vector of the secondary controller: eight lines past the primary.
pub const PIC_2_OFFSET: u8 = PIC_1_OFFSET + 8;

/// True when bit `i` of `m` is set.
pub open spec fn bit_set(m: u8, i: u8) -> bool {
    m & (1u8 << i) != 0
}

/// True when some line of priority equal to or higher than `line` (lower
/// line numbers have higher priority) is still in service in `m`.
pub open spec fn spec_priority_blocked(m: u8, line: u8) -> bool {
    exists|j: u8| j <= line && bit_set(m, j)
}

/// Scans the in-service bits of priority equal to or higher than `line`.
fn priority_blocked(m: u8, line: u8) -> (r: bool)
    requires
        line < 8,
    ensures
        r == spec_priority_blocked(m, line),
{
    let mut j: u8 = 0;
    while j <= line
        invariant
            j <= line + 1,
            line < 8,
            forall|k: u8| k < j ==> !bit_set(m, k),
        decreases 8 - j,
    {
        if m & (1u8 << j) != 0 {
            assert(bit_set(m, j));
            return true;
        }
        j = j + 1;
    }
    false
}

/// One 8-line controller. `mask` bit i set means line i is inhibited;
/// `in_service` bit i set means line i was delivered and awaits its
/// end-of-interrupt acknowledgement.
#[derive(Debug, Clone, Copy, PartialEq, Eq, Structural)]
pub struct Pic {
    pub offset: u8,
    pub mask: u8,
    pub in_service: u8,
}

impl Pic {
    /// The eight vectors `offset..offset + 8` belong to this controller.
    pub open spec fn spec_handles(self, vector: u8) -> bool {
        self.offset <= vector < self.offset + 8
    }

    pub fn handles_interrupt(&self, vector: u8) -> (r: bool)
        ensures
            r == self.spec_handles(vector),
    {
        self.offset <= vector && (vector as u16) < self.offset as u16 + 8
    }
}

/// The cascaded pair. Well-formedness is the vector-collision invariant:
/// the primary sits at or above vector 32 and the secondary exactly eight
/// vectors higher, so no hardware line aliases a CPU exception vector.
#[derive(Debug, Clone, Copy, PartialEq, Eq, Structural)]
pub struct ChainedPics {
    pub primary: Pic,
    pub secondary: Pic,
    pub initialized: bool,
}

impl ChainedPics {
    pub open spec fn wf(self) -> bool {
        &&& self.primary.offset >= 32
        &&& self.primary.offset <= 240
        &&& self.secondary.offset == self.primary.offset + 8
    }

    /// A fresh, not-yet-remapped pair: every line masked, nothing in
    /// service, so no delivery can happen before `initialize`.
    pub fn new(offset1: u8, offset2: u8) -> (r: Self)
        requires
            offset1 >= 32,
            offset1 <= 240,
            offset2 == offset1 + 8,
        ensures
            r.wf(),
            r.primary.offset == offset1,
            r.secondary.offset == offset2,
            !r.initialized,
            r.primary.mask == 0xff,
            r.secondary.mask == 0xff,
            r.primary.in_service == 0,
            r.secondary.in_service == 0,
    {
        ChainedPics {
            primary: Pic { offset: offset1, mask: 0xff, in_service: 0 },
            secondary: Pic { offset: offset2, mask: 0xff, in_service: 0 },
            initialized: false,
        }
    }

    /// The remap step: keeps both offsets, clears any stale in-service
    /// state, and unmasks exactly the lines this kernel services — timer
    /// (line 0), keyboard (line 1) and the cascade input (line 2).
    pub fn initialize(&mut self)
        requires
            old(self).wf(),
        ensures
            final(self).wf(),
            final(self).initialized,
            final(self).primary.offset == old(self).primary.offset,
            final(self).secondary.offset == old(self).secondary.offset,
            final(self).primary.mask == 0xf8,
            final(self).secondary.mask == 0xff,
            final(self).primary.in_service == 0,
            final(self).secondary.in_service == 0,
            !bit_set(final(self).primary.mask, 0),
            !bit_set(final(self).primary.mask, 1),
            !bit_set(final(self).primary.mask, 2),
    {
        proof {
            assert(!bit_set(0xf8u8, 0u8) && !bit_set(0xf8u8, 1u8) && !bit_set(
                0xf8u8,
                2u8,
            )) by (bit_vector);
        }
        self.primary.mask = 0xf8;
        self.secondary.mask = 0xff;
        self.primary.in_service = 0;
        self.secondary.in_service = 0;
        self.initialized = true;
    }

    pub open spec fn spec_handles(self, vector: u8) -> bool {
        self.primary.spec_handles(vector) || self.secondary.spec_handles(vector)
    }

    pub fn handles_interrupt(&self, vector: u8) -> (r: bool)
        requires
            self.wf(),
        ensures
            r == self.spec_handles(vector),
    {
        self.primary.handles_interrupt(vector) || self.secondary.handles_interrupt(vector)
    }

    /// End-of-interrupt acknowledgement for `vector`: clears the in-service
    /// bit of the line that carried it and changes nothing else, so the
    /// controller may deliver that line again.
    pub fn notify_end_of_interrupt(&mut self, vector: u8)
        requires
            old(self).wf(),
            old(self).spec_handles(vector),
        ensures
            final(self).wf(),
            final(self).initialized == old(self).initialized,
            final(self).primary.offset == old(self).primary.offset,
            final(self).secondary.offset == old(self).secondary.offset,
            final(self).primary.mask == old(self).primary.mask,
            final(self).secondary.mask == old(self).secondary.mask,
            old(self).primary.spec_handles(vector) ==> {
                let line = (vector - old(self).primary.offset) as u8;
                &&& final(self).primary.in_service == old(self).primary.in_service & !(1u8 << line)
                &&& !bit_set(final(self).primary.in_service, line)
                &&& forall|j: u8|
                    j < 8 && j != line ==> bit_set(final(self).primary.in_service, j) == bit_set(
                        old(self).primary.in_service,
                        j,
                    )
                &&& final(self).secondary.in_service == old(self).secondary.in_service
            },
            !old(self).primary.spec_handles(vector) ==> {
                let line = (vector - old(self).secondary.offset) as u8;
                &&& final(self).secondary.in_service == old(self).secondary.in_service & !(1u8
                    << line)
                &&& !bit_set(final(self).secondary.in_service, line)
                &&& forall|j: u8|
                    j < 8 && j != line ==> bit_set(final(self).secondary.in_service, j) == bit_set(
                        old(self).secondary.in_service,
                        j,
                    )
                &&& final(self).primary.in_service == old(self).primary.in_service
            },
    {
        if self.primary.handles_interrupt(vector) {
            let line = vector - self.primary.offset;
            let cleared = self.primary.in_service & !(1u8 << line);
            proof {
                let m = self.primary.in_service;
                assert(((m & !(1u8 << line)) & (1u8 << line)) == 0) by (bit_vector);
                assert(forall|j: u8|
                    j < 8 && j != line ==> ((m & !(1u8 << line)) & (1u8 << j)) == (m & (1u8
                        << j))) by (bit_vector);
            }
            self.primary.in_service = cleared;
        } else {
            let line = vector - self.secondary.offset;
            let cleared = self.secondary.in_service & !(1u8 << line);
            proof {
                let m = self.secondary.in_service;
                assert(((m & !(1u8 << line)) & (1u8 << line)) == 0) by (bit_vector);
                assert(forall|j: u8|
                    j < 8 && j != line ==> ((m & !(1u8 << line)) & (1u8 << j)) == (m & (1u8
                        << j))) by (bit_vector);
            }
            self.secondary.in_service = cleared;
        }
    }

    /// A line may be delivered only after the remap, only while unmasked,
    /// and only while no line of equal or higher priority on the same
    /// controller is awaiting its acknowledgement.
    pub open spec fn spec_can_deliver(self, line: u8) -> bool {
        if line < 8 {
            &&& self.initialized
            &&& !bit_set(self.primary.mask, line)
            &&& !spec_priority_blocked(self.primary.in_service, line)
        } else {
            &&& self.initialized
            &&& !bit_set(self.secondary.mask, (line - 8) as u8)
            &&& !spec_priority_blocked(self.secondary.in_service, (line - 8) as u8)
        }
    }

    /// One hardware line assertion. Returns the vector the CPU would be
    /// handed — base offset plus line — when delivery is possible, and
    /// records the line as in service until its acknowledgement; a blocked
    /// or masked line changes nothing and delivers nothing.
    pub fn try_deliver(&mut self, line: u8) -> (r: Option<u8>)
        requires
            old(self).wf(),
            line < 16,
        ensures
            final(self).wf(),
            r is Some <==> old(self).spec_can_deliver(line),
            !old(self).spec_can_deliver(line) ==> *final(self) == *old(self),
            old(self).spec_can_deliver(line) && line < 8 ==> {
                &&& r == Some((old(self).primary.offset + line) as u8)
                &&& *final(self) == ChainedPics {
                    primary: Pic {
                        in_service: old(self).primary.in_service | (1u8 << line),
                        ..old(self).primary
                    },
                    ..*old(self)
                }
            },
            old(self).spec_can_deliver(line) && line >= 8 ==> {
                &&& r == Some((old(self).secondary.offset + (line - 8)) as u8)
                &&& *final(self) == ChainedPics {
                    secondary: Pic {
                        in_service: old(self).secondary.in_service | (1u8 << (line - 8)),
                        ..old(self).secondary
                    },
                    ..*old(self)
                }
            },
    {
        if !self.initialized {
            return None;
        }
        if line < 8 {
            if self.primary.mask & (1u8 << line) != 0 {
                return None;
            }
            if priority_blocked(self.primary.in_service, line) {
                return None;
            }
            self.primary.in_service = self.primary.in_service | (1u8 << line);
            Some(self.primary.offset + line)
        } else {
            let l = line - 8;
            if self.secondary.mask & (1u8 << l) != 0 {
                return None;
            }
            if priority_blocked(self.secondary.in_service, l) {
                return None;
            }
            self.secondary.in_service = self.secondary.in_service | (1u8 << l);
            Some(self.secondary.offset + l)
        }
    }
}

/// The logical hardware signals this kernel services, in controller line
/// order: each one's absolute vector is the primary base offset plus its
/// position, which is what keeps the table-install step and the
/// controller-offset configuration consistent.
#[derive(Debug, Clone, Copy, PartialEq, Eq, Structural)]
pub enum InterruptIndex {
    Timer,
    Keyboard,
}

impl InterruptIndex {
    pub open spec fn spec_as_u8(self) -> u8 {
        match self {
            InterruptIndex::Timer => PIC_1_OFFSET,
            InterruptIndex::Keyboard => (PIC_1_OFFSET + 1) as u8,
        }
    }

    pub fn as_u8(self) -> (v: u8)
        ensures
            v == self.spec_as_u8(),
    {
        match self {
            InterruptIndex::Timer => PIC_1_OFFSET,
            InterruptIndex::Keyboard => PIC_1_OFFSET + 1u8,
        }
    }

    pub fn as_usize(self) -> (v: usize)
        ensures
            v == self.spec_as_u8(),
    {
        self.as_u8() as usize
    }
}

/// Installs the two hardware-signal handlers at the vectors the remapped
/// controller will raise, leaving every other slot as it was.
pub fn init_idt_interrupt_handlers(idt: &mut Idt)
    requires
        old(idt).wf(),
    ensures
        final(idt).wf(),
        final(idt).spec_entry(InterruptIndex::Timer.spec_as_u8()) == Some(
            IdtEntry { handler: HandlerKind::Timer, stack_index: None::<u16> },
        ),
        final(idt).spec_entry(InterruptIndex::Keyboard.spec_as_u8()) == Some(
            IdtEntry { handler: HandlerKind::Keyboard, stack_index: None::<u16> },
        ),
        forall|v: u8|
            v != InterruptIndex::Timer.spec_as_u8() && v != InterruptIndex::Keyboard.spec_as_u8()
                ==> final(idt).spec_entry(v) == old(idt).spec_entry(v),
{
    idt.set_handler(InterruptIndex::Timer.as_u8(), HandlerKind::Timer);
    idt.set_handler(InterruptIndex::Keyboard.as_u8(), HandlerKind::Keyboard);
}

/// The timer routine: this kernel attaches no payload to the tick yet, so
/// the whole duty is the end-of-interrupt acknowledgement for the timer
/// vector — without it the controller would never deliver another tick.
pub fn timer_interrupt_handler(pics: &mut ChainedPics)
    requires
        old(pics).wf(),
        old(pics).primary.offset == PIC_1_OFFSET,
    ensures
        final(pics).wf(),
        *final(pics) == (ChainedPics {
            primary: Pic {
                in_service: old(pics).primary.in_service & !(1u8 << 0),
                ..old(pics).primary
            },
            ..*old(pics)
        }),
        !bit_set(final(pics).primary.in_service, 0),
{
    pics.notify_end_of_interrupt(InterruptIndex::Timer.as_u8());
}

/// The keyboard routine's decision half. The hardware edge reads exactly
/// one byte from the keyboard data port per interrupt and hands it here;
/// this feeds the byte to the decoder, returns what (if anything) should
/// be forwarded to the output sink, and acknowledges the keyboard vector.
pub fn keyboard_interrupt_handler(
    keyboard: &mut Keyboard,
    pics: &mut ChainedPics,
    scancode: u8,
) -> (out: Option<DecodedKey>)
    requires
        old(pics).wf(),
        old(pics).primary.offset == PIC_1_OFFSET,
    ensures
        *final(keyboard) == spec_add_byte(*old(keyboard), scancode).0,
        out == (match spec_add_byte(*old(keyboard), scancode).1 {
            Ok(Some(ev)) => spec_process_keyevent(ev),
            _ => None,
        }),
        final(pics).wf(),
        *final(pics) == (ChainedPics {
            primary: Pic {
                in_service: old(pics).primary.in_service & !(1u8 << 1),
                ..old(pics).primary
            },
            ..*old(pics)
        }),
        !bit_set(final(pics).primary.in_service, 1),
{
    let out = match keyboard.add_byte(scancode) {
        Ok(Some(key_event)) => keyboard.process_keyevent(key_event),
        _ => None,
    };
    pics.notify_end_of_interrupt(InterruptIndex::Keyboard.as_u8());
    out
}

/// After the remap, every vector either controller can raise lies at or
/// above 32 — clear of the CPU-defined exception vectors 0..=31 — and no
/// vector belongs to both controllers.
pub proof fn lemma_remapped_ranges_disjoint(pics: ChainedPics)
    requires
        pics.wf(),
    ensures
        pics.primary.offset >= 32,
        pics.secondary.offset == pics.primary.offset + 8,
        forall|v: u8| pics.spec_handles(v) ==> v >= 32,
        forall|v: u8| !(pics.primary.spec_handles(v) && pics.secondary.spec_handles(v)),
{
}

/// Services `n` consecutive timer-line assertions. With an acknowledgement
/// after each delivery the controller hands out all `n` signals and ends in
/// its starting state; with the acknowledgement omitted it hands out
/// exactly one and starves the line thereafter.
pub fn service_timer_ticks(pics: &mut ChainedPics, n: u32, acknowledge: bool) -> (delivered: u32)
    requires
        old(pics).wf(),
        old(pics).initialized,
        !bit_set(old(pics).primary.mask, 0),
        old(pics).primary.in_service == 0,
    ensures
        acknowledge ==> delivered == n && *final(pics) == *old(pics),
        !acknowledge && n == 0 ==> delivered == 0 && *final(pics) == *old(pics),
        !acknowledge && n > 0 ==> delivered == 1,
{
    let mut delivered: u32 = 0;
    let mut i: u32 = 0;
    while i < n
        invariant
            i <= n,
            pics.wf(),
            pics.initialized,
            pics.primary.offset == old(pics).primary.offset,
            pics.primary.mask == old(pics).primary.mask,
            pics.secondary == old(pics).secondary,
            !bit_set(pics.primary.mask, 0),
            old(pics).primary.in_service == 0,
            acknowledge ==> *pics == *old(pics) && delivered == i,
            !acknowledge && i == 0 ==> *pics == *old(pics) && delivered == 0,
            !acknowledge && i > 0 ==> pics.primary.in_service == (0u8 | (1u8 << 0)) && delivered
                == 1,
        decreases n - i,
    {
        proof {
            assert(!bit_set(0u8, 0u8)) by (bit_vector);
            assert(bit_set(0u8 | (1u8 << 0), 0u8)) by (bit_vector);
            assert((0u8 | (1u8 << 0)) & !(1u8 << 0) == 0u8) by (bit_vector);
        }
        let got = pics.try_deliver(0);
        if let Some(vector) = got {
            delivered = delivered + 1;
            if acknowledge {
                pics.notify_end_of_interrupt(vector);
            }
        }
        i = i + 1;
    }
    delivered
}

} // verus!
