//! The commit protocol: the line operations that shift one image out.
//!
//! A commit reserves the four lines, configures them as outputs driven low,
//! clocks the 64 bits of the image in on the data line, most significant bit
//! first, and pulses the latch line once. A line that the register does not
//! have is skipped, together with every operation on it.

use crate::line::LineAction;
use vstd::prelude::*;

verus! {

/// Number of bits in one frame, whatever the width of the register chain.
pub const FRAME_BITS: u64 = 64;

/// The four lines of a register. A register without lines is simulated.
#[derive(Clone, Copy, Debug, PartialEq, Eq)]
pub struct Pinout {
    /// Output enable; the outputs are enabled while it is low.
    pub oe_pin: Option<u64>,
    /// Serial data.
    pub ds_pin: Option<u64>,
    /// Shift clock.
    pub clock_pin: Option<u64>,
    /// Latch: a pulse moves the shifted frame to the outputs.
    pub latch_pin: Option<u64>,
}

/// Reserving `line`.
pub open spec fn reserve(line: Option<u64>) -> Seq<LineAction> {
    match line {
        Some(line) => seq![LineAction::Reserve { line }],
        None => Seq::empty(),
    }
}

/// Making `line` an output and driving it low.
pub open spec fn configure(line: Option<u64>) -> Seq<LineAction> {
    match line {
        Some(line) => seq![
            LineAction::SetDirectionOutput { line },
            LineAction::SetValue { line, value: 0 },
        ],
        None => Seq::empty(),
    }
}

/// Driving `line` high or low.
pub open spec fn drive(line: Option<u64>, high: bool) -> Seq<LineAction> {
    match line {
        Some(line) => seq![LineAction::SetValue { line, value: if high { 1u8 } else { 0u8 } }],
        None => Seq::empty(),
    }
}

/// Driving `line` high, then low.
pub open spec fn pulse(line: Option<u64>) -> Seq<LineAction> {
    match line {
        Some(line) => seq![
            LineAction::SetValue { line, value: 1 },
            LineAction::SetValue { line, value: 0 },
        ],
        None => Seq::empty(),
    }
}

/// Bit `index` of `image`, counted from the least significant bit.
pub open spec fn image_bit(image: u64, index: nat) -> bool {
    (image >> (index as u64)) & 1 == 1
}

/// Reserving the four lines.
pub open spec fn reserve_all(pins: Pinout) -> Seq<LineAction> {
    reserve(pins.oe_pin) + reserve(pins.ds_pin) + reserve(pins.clock_pin) + reserve(
        pins.latch_pin,
    )
}

/// Configuring the four lines: each becomes an output and is driven low,
/// which enables the register and leaves data, clock and latch idle.
pub open spec fn configure_all(pins: Pinout) -> Seq<LineAction> {
    configure(pins.oe_pin) + configure(pins.ds_pin) + configure(pins.clock_pin) + configure(
        pins.latch_pin,
    )
}

/// Clocking one bit in: the bit on the data line, then a clock pulse.
pub open spec fn shift_bit(pins: Pinout, high: bool) -> Seq<LineAction> {
    drive(pins.ds_pin, high) + pulse(pins.clock_pin)
}

/// Clocking in the lowest `bits` bits of `image`, the highest of them first.
pub open spec fn frame(pins: Pinout, image: u64, bits: nat) -> Seq<LineAction>
    decreases bits,
{
    if bits == 0 {
        Seq::empty()
    } else {
        shift_bit(pins, image_bit(image, (bits - 1) as nat)) + frame(
            pins,
            image,
            (bits - 1) as nat,
        )
    }
}

/// The whole commit of `image` on `pins`.
pub open spec fn commit(pins: Pinout, image: u64) -> Seq<LineAction> {
    reserve_all(pins) + configure_all(pins) + frame(pins, image, FRAME_BITS as nat) + pulse(
        pins.latch_pin,
    )
}

impl Pinout {
    /// Whether all four lines are there.
    pub open spec fn complete(self) -> bool {
        self.oe_pin is Some && self.ds_pin is Some && self.clock_pin is Some
            && self.latch_pin is Some
    }

    /// Whether no line is there.
    pub open spec fn simulated(self) -> bool {
        self.oe_pin is None && self.ds_pin is None && self.clock_pin is None
            && self.latch_pin is None
    }
}

/// Without a data line and a clock line a frame holds no operation.
pub proof fn lemma_frame_without_lines(pins: Pinout, image: u64, bits: nat)
    requires
        pins.ds_pin is None,
        pins.clock_pin is None,
    ensures
        frame(pins, image, bits) == Seq::<LineAction>::empty(),
    decreases bits,
{
    if bits > 0 {
        lemma_frame_without_lines(pins, image, (bits - 1) as nat);
    }
}

/// The commit on a simulated register holds no operation: the image is
/// taken in memory and no line is touched.
pub proof fn lemma_simulated_commit_is_empty(pins: Pinout, image: u64)
    requires
        pins.simulated(),
    ensures
        commit(pins, image) == Seq::<LineAction>::empty(),
{
    lemma_frame_without_lines(pins, image, FRAME_BITS as nat);
}

/// With a data line and a clock line, a frame takes three operations for
/// each bit, and cycle `cycle` of it, counted from 0, clocks in bit
/// `bits - 1 - cycle`: the bit on the data line, the clock line high, the
/// clock line low.
pub proof fn lemma_frame_layout(pins: Pinout, image: u64, bits: nat, cycle: int)
    requires
        pins.ds_pin is Some,
        pins.clock_pin is Some,
        0 <= cycle < bits,
    ensures
        frame(pins, image, bits).len() == 3 * bits,
        frame(pins, image, bits)[3 * cycle] == (LineAction::SetValue {
            line: pins.ds_pin->0,
            value: if image_bit(image, (bits - 1 - cycle) as nat) {
                1u8
            } else {
                0u8
            },
        }),
        frame(pins, image, bits)[3 * cycle + 1] == (LineAction::SetValue {
            line: pins.clock_pin->0,
            value: 1,
        }),
        frame(pins, image, bits)[3 * cycle + 2] == (LineAction::SetValue {
            line: pins.clock_pin->0,
            value: 0,
        }),
    decreases bits,
{
    let rest = frame(pins, image, (bits - 1) as nat);
    if bits > 1 {
        lemma_frame_layout(pins, image, (bits - 1) as nat, 0);
    }
    assert(rest.len() == 3 * (bits - 1));
    if cycle > 0 {
        lemma_frame_layout(pins, image, (bits - 1) as nat, cycle - 1);
    }
}

/// The commit on a register with all four lines takes 206 operations: four
/// reservations, eight to configure the lines, 64 cycles of three and the
/// two of the latch pulse at the very end. Cycle `cycle`, counted from 0,
/// clocks in bit `63 - cycle` of the image.
pub proof fn lemma_commit_layout(pins: Pinout, image: u64, cycle: int)
    requires
        pins.complete(),
        0 <= cycle < FRAME_BITS,
    ensures
        commit(pins, image).len() == 206,
        commit(pins, image).subrange(0, 4) == reserve_all(pins),
        commit(pins, image).subrange(4, 12) == configure_all(pins),
        commit(pins, image)[12 + 3 * cycle] == (LineAction::SetValue {
            line: pins.ds_pin->0,
            value: if image_bit(image, (63 - cycle) as nat) {
                1u8
            } else {
                0u8
            },
        }),
        commit(pins, image)[13 + 3 * cycle] == (LineAction::SetValue {
            line: pins.clock_pin->0,
            value: 1,
        }),
        commit(pins, image)[14 + 3 * cycle] == (LineAction::SetValue {
            line: pins.clock_pin->0,
            value: 0,
        }),
        commit(pins, image)[204] == (LineAction::SetValue { line: pins.latch_pin->0, value: 1 }),
        commit(pins, image)[205] == (LineAction::SetValue { line: pins.latch_pin->0, value: 0 }),
{
    lemma_frame_layout(pins, image, FRAME_BITS as nat, cycle);
}

} // verus!
