//! The shift register: its role, its lines and its output image.

use crate::commit::{
    commit, configure_all, drive, frame, image_bit, lemma_simulated_commit_is_empty, pulse,
    reserve_all, Pinout, FRAME_BITS,
};
use crate::image::{
    lemma_blank_has_no_output_on, lemma_full_has_every_output_on, lemma_low_outputs_grow,
    lemma_off_changes_one_output, lemma_on_changes_one_output, lemma_toggle_changes_one_output,
    low_outputs, mask_of, output_is_on, valid_output, with_output_off, with_output_on,
    with_output_toggled, OUTPUTS,
};
use crate::line::LineAction;
use crate::random::random_between;
use crate::run::{enter, leave, Outcome, Run, RunView, Stage, Step};
use vstd::prelude::*;

verus! {

/// Output-enable line of the LED bank.
pub const LED_OE_PIN: u64 = 276;

/// Data line of the LED bank.
pub const LED_DS_PIN: u64 = 38;

/// Clock line of the LED bank.
pub const LED_CLOCK_PIN: u64 = 44;

/// Latch line of the LED bank.
pub const LED_LATCH_PIN: u64 = 40;

/// Output-enable line of the relay bank.
pub const RELAIS_OE_PIN: u64 = 277;

/// Data line of the relay bank.
pub const RELAIS_DS_PIN: u64 = 45;

/// Clock line of the relay bank.
pub const RELAIS_CLOCK_PIN: u64 = 39;

/// Latch line of the relay bank.
pub const RELAIS_LATCH_PIN: u64 = 37;

/// How long a test pattern is held before the outputs go back, in
/// milliseconds.
pub const HOLD_MILLIS: u64 = 1000;

/// How long each step of a walk is held, in milliseconds.
pub const WALK_DELAY_MILLIS: u64 = 100;

/// The stages of an operation that shifts out one image.
pub open spec fn commit_stages(image: u64) -> Seq<Stage> {
    seq![Stage { image, hold_millis: 0, required: true }]
}

/// The stages of an operation that shows `pattern` for `HOLD_MILLIS`,
/// switches every output off and then brings `saved` back.
pub open spec fn flash_stages(pattern: u64, saved: u64) -> Seq<Stage> {
    seq![
        Stage { image: pattern, hold_millis: HOLD_MILLIS, required: true },
        Stage { image: 0, hold_millis: 0, required: true },
        Stage { image: saved, hold_millis: 0, required: true },
    ]
}

/// The stages of a walk over the outputs 1 to `count` that starts from
/// `image`: step `i` has the outputs 1 to `i` on beside those of `image` and
/// is held for `WALK_DELAY_MILLIS`, a failure in it does not stop the walk,
/// and a last stage switches every output off.
pub open spec fn walk_stages(image: u64, count: u64) -> Seq<Stage> {
    Seq::new(
        (count + 1) as nat,
        |i: int|
            if i < count {
                Stage {
                    image: image | low_outputs((i + 1) as u64),
                    hold_millis: WALK_DELAY_MILLIS,
                    required: false,
                }
            } else {
                Stage { image: 0, hold_millis: 0, required: true }
            },
    )
}

/// On a simulated register the run of a flash has two steps. The first is
/// the hold, with `pattern` in the register. The second ends the run well,
/// with `saved` in the register: the image from before the flash is back.
pub proof fn lemma_flash_on_simulated(
    pins: Pinout,
    pattern: u64,
    saved: u64,
    first: Outcome,
    second: Outcome,
)
    requires
        pins.simulated(),
    ensures
        ({
            let shown = RunView::ready(flash_stages(pattern, saved)).step(pins, pattern, first);
            let done = shown.run.step(pins, shown.image, second);
            &&& shown.step == Step::Sleep { millis: HOLD_MILLIS }
            &&& shown.image == pattern
            &&& done.step == Step::Finish(Ok(()))
            &&& done.image == saved
        }),
{
    let stages = flash_stages(pattern, saved);
    lemma_simulated_commit_is_empty(pins, pattern);
    lemma_simulated_commit_is_empty(pins, 0);
    lemma_simulated_commit_is_empty(pins, saved);
    assert(enter(stages, pins, 0, pattern) == leave(stages, pins, 0, pattern));
    assert(enter(stages, pins, 1, pattern) == leave(stages, pins, 1, 0));
    assert(leave(stages, pins, 1, 0) == enter(stages, pins, 2, 0));
    assert(enter(stages, pins, 2, 0) == leave(stages, pins, 2, saved));
    assert(leave(stages, pins, 2, saved) == enter(stages, pins, 3, saved));
}

/// The bank that a register drives.
#[derive(Clone, Copy, Debug, PartialEq, Eq, Structural)]
pub enum ShiftRegisterType {
    /// The bank of LEDs.
    LED,
    /// The bank of relays.
    RELAIS,
    /// No hardware: the image lives in memory only.
    Simulation,
}

impl ShiftRegisterType {
    /// The lines that a register of this type is wired to.
    pub open spec fn spec_pinout(self) -> Pinout {
        match self {
            ShiftRegisterType::LED => Pinout {
                oe_pin: Some(LED_OE_PIN),
                ds_pin: Some(LED_DS_PIN),
                clock_pin: Some(LED_CLOCK_PIN),
                latch_pin: Some(LED_LATCH_PIN),
            },
            ShiftRegisterType::RELAIS => Pinout {
                oe_pin: Some(RELAIS_OE_PIN),
                ds_pin: Some(RELAIS_DS_PIN),
                clock_pin: Some(RELAIS_CLOCK_PIN),
                latch_pin: Some(RELAIS_LATCH_PIN),
            },
            ShiftRegisterType::Simulation => Pinout {
                oe_pin: None,
                ds_pin: None,
                clock_pin: None,
                latch_pin: None,
            },
        }
    }
}

/// A shift register with its output image.
///
/// Bit `k` of `data` is output `k + 1`. The image is what the outputs are
/// meant to show; the hardware shows it once a commit has gone through.
#[derive(Clone, Debug)]
pub struct ShiftRegister {
    /// The bank that the register was made for. It is meant to stay as it
    /// was at construction.
    pub register_type: ShiftRegisterType,
    pub oe_pin: Option<u64>,
    pub ds_pin: Option<u64>,
    pub clock_pin: Option<u64>,
    pub latch_pin: Option<u64>,
    pub data: u64,
}

impl ShiftRegister {
    /// The lines of the register.
    pub open spec fn pins(&self) -> Pinout {
        Pinout {
            oe_pin: self.oe_pin,
            ds_pin: self.ds_pin,
            clock_pin: self.clock_pin,
            latch_pin: self.latch_pin,
        }
    }

    /// Whether output `num` is on in the image.
    pub open spec fn is_on(&self, num: u64) -> bool {
        output_is_on(self.data, num)
    }

    /// A register of the given type, wired to the lines of that type, with
    /// every output off.
    pub fn new(register_type: ShiftRegisterType) -> (register: Self)
        ensures
            register.register_type == register_type,
            register.pins() == register_type.spec_pinout(),
            register.data == 0,
            forall|num: u64| valid_output(num) ==> !#[trigger] register.is_on(num),
    {
        proof {
            assert forall|num: u64| valid_output(num) implies !#[trigger] output_is_on(0, num) by {
                lemma_blank_has_no_output_on(num);
            }
        }
        match register_type {
            ShiftRegisterType::LED => ShiftRegister {
                register_type,
                oe_pin: Some(LED_OE_PIN),
                ds_pin: Some(LED_DS_PIN),
                clock_pin: Some(LED_CLOCK_PIN),
                latch_pin: Some(LED_LATCH_PIN),
                data: 0,
            },
            ShiftRegisterType::RELAIS => ShiftRegister {
                register_type,
                oe_pin: Some(RELAIS_OE_PIN),
                ds_pin: Some(RELAIS_DS_PIN),
                clock_pin: Some(RELAIS_CLOCK_PIN),
                latch_pin: Some(RELAIS_LATCH_PIN),
                data: 0,
            },
            ShiftRegisterType::Simulation => ShiftRegister {
                register_type,
                oe_pin: None,
                ds_pin: None,
                clock_pin: None,
                latch_pin: None,
                data: 0,
            },
        }
    }

    /// Whether output `num` is on in the image. Reads memory only.
    pub fn get(&self, num: u64) -> (on: bool)
        requires
            valid_output(num),
        ensures
            on == self.is_on(num),
    {
        let shifted = self.data >> (num - 1);
        assert(shifted & 1 == 0 || shifted & 1 == 1) by (bit_vector);
        match shifted & 1 {
            0 => false,
            _ => true,
        }
    }

    /// The whole image.
    pub fn snapshot(&self) -> (image: u64)
        ensures
            image == self.data,
    {
        self.data
    }

    /// Whether `self` differs from `before` in the image at most.
    pub open spec fn same_wiring(&self, before: &ShiftRegister) -> bool {
        self.register_type == before.register_type && self.pins() == before.pins()
    }

    /// Puts the first image of `stages` into the register and makes the run
    /// of the stages.
    fn begin(&mut self, stages: Vec<Stage>) -> (run: Run)
        requires
            stages.len() > 0,
        ensures
            final(self).data == stages[0].image,
            final(self).same_wiring(old(self)),
            run@ == RunView::ready(stages@),
    {
        self.data = stages[0].image;
        Run::new(stages)
    }

    /// Replaces the image by `image` and hands out its commit.
    pub fn load(&mut self, image: u64) -> (run: Run)
        ensures
            final(self).data == image,
            final(self).same_wiring(old(self)),
            run@ == RunView::ready(commit_stages(image)),
    {
        let mut stages: Vec<Stage> = Vec::new();
        stages.push(Stage { image, hold_millis: 0, required: true });
        assert(stages@ == commit_stages(image));
        self.begin(stages)
    }

    /// Shows `pattern` for `HOLD_MILLIS`, then switches every output off and
    /// brings the image back that the register had before the call. The
    /// register holds `pattern` when the call returns; a failed line
    /// operation ends the run with the image of the stage it failed in.
    pub fn flash(&mut self, pattern: u64) -> (run: Run)
        ensures
            final(self).data == pattern,
            final(self).same_wiring(old(self)),
            run@ == RunView::ready(flash_stages(pattern, old(self).data)),
    {
        let saved = self.data;
        let mut stages: Vec<Stage> = Vec::new();
        stages.push(Stage { image: pattern, hold_millis: HOLD_MILLIS, required: true });
        stages.push(Stage { image: 0, hold_millis: 0, required: true });
        stages.push(Stage { image: saved, hold_millis: 0, required: true });
        assert(stages@ == flash_stages(pattern, saved));
        self.begin(stages)
    }

    /// Switches output `num` on and hands out the commit.
    pub fn set(&mut self, num: u64) -> (run: Run)
        requires
            valid_output(num),
        ensures
            final(self).data == with_output_on(old(self).data, num),
            forall|other: u64|
                valid_output(other) ==> #[trigger] final(self).is_on(other) == (other == num
                    || old(self).is_on(other)),
            final(self).same_wiring(old(self)),
            run@ == RunView::ready(commit_stages(final(self).data)),
    {
        let image = self.data | mask_of(num);
        proof {
            assert forall|other: u64| valid_output(other) implies #[trigger] output_is_on(
                image,
                other,
            ) == (other == num || self.is_on(other)) by {
                lemma_on_changes_one_output(self.data, num, other);
            }
        }
        self.load(image)
    }

    /// Switches output `num` off and hands out the commit.
    pub fn clear(&mut self, num: u64) -> (run: Run)
        requires
            valid_output(num),
        ensures
            final(self).data == with_output_off(old(self).data, num),
            forall|other: u64|
                valid_output(other) ==> #[trigger] final(self).is_on(other) == (other != num
                    && old(self).is_on(other)),
            final(self).same_wiring(old(self)),
            run@ == RunView::ready(commit_stages(final(self).data)),
    {
        let image = self.data & !mask_of(num);
        proof {
            assert forall|other: u64| valid_output(other) implies #[trigger] output_is_on(
                image,
                other,
            ) == (other != num && self.is_on(other)) by {
                lemma_off_changes_one_output(self.data, num, other);
            }
        }
        self.load(image)
    }

    /// Inverts output `num` and hands out the commit.
    pub fn toggle(&mut self, num: u64) -> (run: Run)
        requires
            valid_output(num),
        ensures
            final(self).data == with_output_toggled(old(self).data, num),
            forall|other: u64|
                valid_output(other) ==> #[trigger] final(self).is_on(other) == (old(self).is_on(
                    other,
                ) != (other == num)),
            final(self).same_wiring(old(self)),
            run@ == RunView::ready(commit_stages(final(self).data)),
    {
        let image = self.data ^ mask_of(num);
        proof {
            assert forall|other: u64| valid_output(other) implies #[trigger] output_is_on(
                image,
                other,
            ) == (self.is_on(other) != (other == num)) by {
                lemma_toggle_changes_one_output(self.data, num, other);
            }
        }
        self.load(image)
    }

    /// Switches every output off and hands out the commit.
    pub fn reset(&mut self) -> (run: Run)
        ensures
            final(self).data == 0,
            forall|num: u64| valid_output(num) ==> !#[trigger] final(self).is_on(num),
            final(self).same_wiring(old(self)),
            run@ == RunView::ready(commit_stages(0)),
    {
        proof {
            assert forall|num: u64| valid_output(num) implies !#[trigger] output_is_on(0, num) by {
                lemma_blank_has_no_output_on(num);
            }
        }
        self.load(0)
    }

    /// Switches every output on and hands out the commit.
    pub fn all(&mut self) -> (run: Run)
        ensures
            final(self).data == u64::MAX,
            forall|num: u64| valid_output(num) ==> #[trigger] final(self).is_on(num),
            final(self).same_wiring(old(self)),
            run@ == RunView::ready(commit_stages(u64::MAX)),
    {
        proof {
            assert forall|num: u64| valid_output(num) implies #[trigger] output_is_on(
                u64::MAX,
                num,
            ) by {
                lemma_full_has_every_output_on(num);
            }
        }
        self.load(u64::MAX)
    }

    /// Lamp test: every output on for `HOLD_MILLIS`, then every output off,
    /// then the image from before the call again.
    pub fn test(&mut self) -> (run: Run)
        ensures
            final(self).data == u64::MAX,
            final(self).same_wiring(old(self)),
            run@ == RunView::ready(flash_stages(u64::MAX, old(self).data)),
    {
        self.flash(u64::MAX)
    }

    /// Lamp test; the same operation as [`ShiftRegister::test`].
    pub fn test_timed(&mut self) -> (run: Run)
        ensures
            final(self).data == u64::MAX,
            final(self).same_wiring(old(self)),
            run@ == RunView::ready(flash_stages(u64::MAX, old(self).data)),
    {
        self.flash(u64::MAX)
    }

    /// Fills the image with a random pattern and hands out the commit. The
    /// pattern is never 0 and never all ones; it stays until it is replaced.
    pub fn test_random(&mut self) -> (run: Run)
        ensures
            1 <= final(self).data < u64::MAX,
            final(self).same_wiring(old(self)),
            run@ == RunView::ready(commit_stages(final(self).data)),
    {
        let pattern = random_between(1, u64::MAX);
        self.load(pattern)
    }

    /// Shows a random pattern, neither 0 nor all ones, for `HOLD_MILLIS`,
    /// then every output off, then the image from before the call again.
    pub fn test_random_timed(&mut self) -> (run: Run)
        ensures
            1 <= final(self).data < u64::MAX,
            final(self).same_wiring(old(self)),
            run@ == RunView::ready(flash_stages(final(self).data, old(self).data)),
    {
        let pattern = random_between(1, u64::MAX);
        self.flash(pattern)
    }

    /// Walks over the outputs 1 to `count`: each step switches one more
    /// output on, beside those that are on already, and holds for
    /// `WALK_DELAY_MILLIS`; at the end every output is switched off. A step
    /// whose commit fails is given up, and the walk goes on.
    pub fn walk(&mut self, count: u64) -> (run: Run)
        requires
            count <= OUTPUTS,
        ensures
            final(self).data == walk_stages(old(self).data, count)[0].image,
            final(self).same_wiring(old(self)),
            run@ == RunView::ready(walk_stages(old(self).data, count)),
    {
        let ghost start = self.data;
        let mut stages: Vec<Stage> = Vec::new();
        let mut image = self.data;
        let mut done: u64 = 0;
        assert(image | low_outputs(0) == image) by (bit_vector);
        while done < count
            invariant
                done <= count <= OUTPUTS,
                start == self.data,
                image == start | low_outputs(done),
                stages@ == walk_stages(start, count).take(done as int),
            decreases count - done,
        {
            proof {
                lemma_low_outputs_grow(start, done);
            }
            done = done + 1;
            image = image | mask_of(done);
            stages.push(Stage { image, hold_millis: WALK_DELAY_MILLIS, required: false });
        }
        stages.push(Stage { image: 0, hold_millis: 0, required: true });
        assert(stages@ == walk_stages(start, count));
        self.begin(stages)
    }

    /// Appends the reservation of the lines.
    fn export_pins(&self, plan: &mut Vec<LineAction>)
        ensures
            final(plan)@ == old(plan)@ + reserve_all(self.pins()),
    {
        if let Some(line) = self.oe_pin {
            plan.push(LineAction::Reserve { line });
        }
        if let Some(line) = self.ds_pin {
            plan.push(LineAction::Reserve { line });
        }
        if let Some(line) = self.clock_pin {
            plan.push(LineAction::Reserve { line });
        }
        if let Some(line) = self.latch_pin {
            plan.push(LineAction::Reserve { line });
        }
    }

    /// Appends the configuration of the lines as outputs driven low.
    fn set_pin_direction_output(&self, plan: &mut Vec<LineAction>)
        ensures
            final(plan)@ == old(plan)@ + configure_all(self.pins()),
    {
        if let Some(line) = self.oe_pin {
            plan.push(LineAction::SetDirectionOutput { line });
            plan.push(LineAction::SetValue { line, value: 0 });
        }
        if let Some(line) = self.ds_pin {
            plan.push(LineAction::SetDirectionOutput { line });
            plan.push(LineAction::SetValue { line, value: 0 });
        }
        if let Some(line) = self.clock_pin {
            plan.push(LineAction::SetDirectionOutput { line });
            plan.push(LineAction::SetValue { line, value: 0 });
        }
        if let Some(line) = self.latch_pin {
            plan.push(LineAction::SetDirectionOutput { line });
            plan.push(LineAction::SetValue { line, value: 0 });
        }
    }

    /// Appends a pulse of the clock line.
    fn clock_in(&self, plan: &mut Vec<LineAction>)
        ensures
            final(plan)@ == old(plan)@ + pulse(self.clock_pin),
    {
        if let Some(line) = self.clock_pin {
            plan.push(LineAction::SetValue { line, value: 1 });
            plan.push(LineAction::SetValue { line, value: 0 });
        }
    }

    /// Appends a pulse of the latch line.
    fn latch_out(&self, plan: &mut Vec<LineAction>)
        ensures
            final(plan)@ == old(plan)@ + pulse(self.latch_pin),
    {
        if let Some(line) = self.latch_pin {
            plan.push(LineAction::SetValue { line, value: 1 });
            plan.push(LineAction::SetValue { line, value: 0 });
        }
    }

    /// The line operations that shift the image out, in the order in which
    /// they are to be performed.
    pub fn shift_out(&self) -> (plan: Vec<LineAction>)
        ensures
            plan@ == commit(self.pins(), self.data),
    {
        let mut plan: Vec<LineAction> = Vec::new();
        self.export_pins(&mut plan);
        self.set_pin_direction_output(&mut plan);
        let ghost head = plan@;
        let mut bits: u64 = FRAME_BITS;
        while bits > 0
            invariant
                bits <= FRAME_BITS,
                plan@ + frame(self.pins(), self.data, bits as nat) == head + frame(
                    self.pins(),
                    self.data,
                    FRAME_BITS as nat,
                ),
            decreases bits,
        {
            let ghost before = plan@;
            bits = bits - 1;
            let high = (self.data >> bits) & 1 == 1;
            if let Some(line) = self.ds_pin {
                plan.push(LineAction::SetValue { line, value: if high { 1 } else { 0 } });
            }
            assert(plan@ == before + drive(self.ds_pin, image_bit(self.data, bits as nat)));
            self.clock_in(&mut plan);
            assert(plan@ + frame(self.pins(), self.data, bits as nat) == before + frame(
                self.pins(),
                self.data,
                (bits + 1) as nat,
            ));
        }
        self.latch_out(&mut plan);
        plan
    }
}

impl Default for ShiftRegister {
    /// A simulated register with every output off.
    fn default() -> (register: Self)
        ensures
            register.register_type == ShiftRegisterType::Simulation,
            register.pins() == ShiftRegisterType::Simulation.spec_pinout(),
            register.data == 0,
            forall|num: u64| valid_output(num) ==> !#[trigger] register.is_on(num),
    {
        proof {
            assert forall|num: u64| valid_output(num) implies !#[trigger] output_is_on(0, num) by {
                lemma_blank_has_no_output_on(num);
            }
        }
        ShiftRegister {
            register_type: ShiftRegisterType::Simulation,
            oe_pin: None,
            ds_pin: None,
            clock_pin: None,
            latch_pin: None,
            data: 0,
        }
    }
}

} // verus!
