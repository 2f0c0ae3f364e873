//! What a two-state control of the front end asks of a register.
//!
//! Each function takes the state that the control was switched to: switched
//! on, it starts something; switched off, it undoes it.

use crate::image::{valid_output, with_output_off, with_output_on, OUTPUTS};
use crate::run::{Run, RunView};
use crate::shift_register::{commit_stages, walk_stages, ShiftRegister};
use vstd::prelude::*;

verus! {

/// Number of LEDs on the LED bank.
pub const LED_OUTPUTS: u64 = 20;

/// Number of relays on the relay bank.
pub const RELAIS_OUTPUTS: u64 = 9;

/// Switched on: every output on. Switched off: every output off.
pub fn all(active: bool, register: &mut ShiftRegister) -> (run: Run)
    ensures
        final(register).data == (if active { u64::MAX } else { 0 }),
        final(register).same_wiring(old(register)),
        run@ == RunView::ready(commit_stages(final(register).data)),
{
    if active {
        register.all()
    } else {
        register.reset()
    }
}

/// Switched on: a random pattern, neither 0 nor all ones. Switched off:
/// every output off.
pub fn random(active: bool, register: &mut ShiftRegister) -> (run: Run)
    ensures
        active ==> 1 <= final(register).data < u64::MAX,
        !active ==> final(register).data == 0,
        final(register).same_wiring(old(register)),
        run@ == RunView::ready(commit_stages(final(register).data)),
{
    if active {
        register.test_random()
    } else {
        register.reset()
    }
}

/// Switched on: a walk over the outputs 1 to `count`. Switched off: every
/// output off.
pub fn one_after_one(active: bool, register: &mut ShiftRegister, count: u64) -> (run: Run)
    requires
        count <= OUTPUTS,
    ensures
        run@ == RunView::ready(
            if active {
                walk_stages(old(register).data, count)
            } else {
                commit_stages(0)
            },
        ),
        final(register).data == run@.stages[0].image,
        final(register).same_wiring(old(register)),
{
    if active {
        register.walk(count)
    } else {
        register.reset()
    }
}

/// Switched on: output `num` on. Switched off: output `num` off.
pub fn set(active: bool, register: &mut ShiftRegister, num: u64) -> (run: Run)
    requires
        valid_output(num),
    ensures
        final(register).data == (if active {
            with_output_on(old(register).data, num)
        } else {
            with_output_off(old(register).data, num)
        }),
        final(register).same_wiring(old(register)),
        run@ == RunView::ready(commit_stages(final(register).data)),
{
    if active {
        register.set(num)
    } else {
        register.clear(num)
    }
}

} // verus!
