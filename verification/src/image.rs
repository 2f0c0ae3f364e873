//! Bit algebra of the 64-bit output image.
//!
//! Outputs are numbered from 1: output `num` is bit `num - 1` of the image.

use vstd::prelude::*;

verus! {

/// Number of outputs that an image holds.
pub const OUTPUTS: u64 = 64;

/// Whether `num` names an output of the image.
pub open spec fn valid_output(num: u64) -> bool {
    1 <= num <= OUTPUTS
}

/// The image in which output `num` is on and every other output is off.
pub open spec fn output_mask(num: u64) -> u64 {
    1u64 << ((num - 1) as u64)
}

/// Whether output `num` is on in `image`.
pub open spec fn output_is_on(image: u64, num: u64) -> bool {
    (image >> ((num - 1) as u64)) & 1 == 1
}

/// `image` with output `num` switched on.
pub open spec fn with_output_on(image: u64, num: u64) -> u64 {
    image | output_mask(num)
}

/// `image` with output `num` switched off.
pub open spec fn with_output_off(image: u64, num: u64) -> u64 {
    image & !output_mask(num)
}

/// `image` with output `num` inverted.
pub open spec fn with_output_toggled(image: u64, num: u64) -> u64 {
    image ^ output_mask(num)
}

/// The image in which the outputs 1 to `count` are on and the others off.
pub open spec fn low_outputs(count: u64) -> u64 {
    if count >= OUTPUTS {
        u64::MAX
    } else {
        ((1u64 << count) - 1) as u64
    }
}

/// Computes the mask of output `num`.
pub fn mask_of(num: u64) -> (mask: u64)
    requires
        valid_output(num),
    ensures
        mask == output_mask(num),
{
    1u64 << (num - 1)
}

/// Switching an output on turns that output on and leaves the others as
/// they were.
pub proof fn lemma_on_changes_one_output(image: u64, num: u64, other: u64)
    requires
        valid_output(num),
        valid_output(other),
    ensures
        output_is_on(with_output_on(image, num), other) == (other == num || output_is_on(
            image,
            other,
        )),
{
    assert(((image | (1u64 << ((num - 1) as u64))) >> ((other - 1) as u64)) & 1 == 1 <==> (other
        == num || (image >> ((other - 1) as u64)) & 1 == 1)) by (bit_vector)
        requires
            1 <= num <= 64,
            1 <= other <= 64,
    ;
}

/// Switching an output off turns that output off and leaves the others as
/// they were.
pub proof fn lemma_off_changes_one_output(image: u64, num: u64, other: u64)
    requires
        valid_output(num),
        valid_output(other),
    ensures
        output_is_on(with_output_off(image, num), other) == (other != num && output_is_on(
            image,
            other,
        )),
{
    assert(((image & !(1u64 << ((num - 1) as u64))) >> ((other - 1) as u64)) & 1 == 1 <==> (other
        != num && (image >> ((other - 1) as u64)) & 1 == 1)) by (bit_vector)
        requires
            1 <= num <= 64,
            1 <= other <= 64,
    ;
}

/// Toggling an output inverts that output and leaves the others as they
/// were.
pub proof fn lemma_toggle_changes_one_output(image: u64, num: u64, other: u64)
    requires
        valid_output(num),
        valid_output(other),
    ensures
        output_is_on(with_output_toggled(image, num), other) == (output_is_on(image, other) != (
        other == num)),
{
    assert(((image ^ (1u64 << ((num - 1) as u64))) >> ((other - 1) as u64)) & 1 == 1 <==> (((image
        >> ((other - 1) as u64)) & 1 == 1) != (other == num))) by (bit_vector)
        requires
            1 <= num <= 64,
            1 <= other <= 64,
    ;
}

/// On an image with every output off, switching one output on leaves
/// exactly that output on.
pub proof fn lemma_on_from_blank(num: u64, other: u64)
    requires
        valid_output(num),
        valid_output(other),
    ensures
        output_is_on(with_output_on(0, num), other) == (other == num),
{
    lemma_on_changes_one_output(0, num, other);
    lemma_blank_has_no_output_on(other);
}

/// Switching an output on twice gives the image that switching it on once
/// gives.
pub proof fn lemma_on_is_idempotent(image: u64, num: u64)
    requires
        valid_output(num),
    ensures
        with_output_on(with_output_on(image, num), num) == with_output_on(image, num),
{
    assert((image | (1u64 << ((num - 1) as u64))) | (1u64 << ((num - 1) as u64)) == image | (1u64
        << ((num - 1) as u64))) by (bit_vector);
}

/// Toggling an output twice gives the image back. After an output was
/// switched on, one toggle turns it off and a second turns it on again.
pub proof fn lemma_toggle_is_self_inverse(image: u64, num: u64)
    requires
        valid_output(num),
    ensures
        with_output_toggled(with_output_toggled(image, num), num) == image,
        !output_is_on(with_output_toggled(with_output_on(image, num), num), num),
        output_is_on(
            with_output_toggled(with_output_toggled(with_output_on(image, num), num), num),
            num,
        ),
{
    assert((image ^ (1u64 << ((num - 1) as u64))) ^ (1u64 << ((num - 1) as u64)) == image)
        by (bit_vector);
    let on = with_output_on(image, num);
    assert((on ^ (1u64 << ((num - 1) as u64))) ^ (1u64 << ((num - 1) as u64)) == on)
        by (bit_vector);
    lemma_on_changes_one_output(image, num, num);
    lemma_toggle_changes_one_output(on, num, num);
}

/// The image 0 has every output off.
pub proof fn lemma_blank_has_no_output_on(num: u64)
    requires
        valid_output(num),
    ensures
        !output_is_on(0, num),
{
    assert((0u64 >> ((num - 1) as u64)) & 1 == 0) by (bit_vector);
}

/// The image of all ones has every output on.
pub proof fn lemma_full_has_every_output_on(num: u64)
    requires
        valid_output(num),
    ensures
        output_is_on(u64::MAX, num),
{
    assert((0xffff_ffff_ffff_ffffu64 >> ((num - 1) as u64)) & 1 == 1) by (bit_vector)
        requires
            1 <= num <= 64,
    ;
}

/// In `low_outputs(count)` exactly the outputs 1 to `count` are on.
pub proof fn lemma_low_outputs(count: u64, num: u64)
    requires
        count <= OUTPUTS,
        valid_output(num),
    ensures
        output_is_on(low_outputs(count), num) == (num <= count),
{
    if count >= 64 {
        lemma_full_has_every_output_on(num);
    } else {
        assert(((((1u64 << count) - 1) as u64) >> ((num - 1) as u64)) & 1 == 1 <==> num <= count)
            by (bit_vector)
            requires
                count < 64,
                1 <= num <= 64,
        ;
    }
}

/// Switching on the output after the lowest `count` gives the lowest
/// `count + 1`, whatever else is on.
pub proof fn lemma_low_outputs_grow(image: u64, count: u64)
    requires
        count < OUTPUTS,
    ensures
        with_output_on(image | low_outputs(count), (count + 1) as u64) == image | low_outputs(
            (count + 1) as u64,
        ),
{
    let next = (count + 1) as u64;
    if next >= 64 {
        assert((image | (((1u64 << count) - 1) as u64)) | (1u64 << ((next - 1) as u64)) == image
            | 0xffff_ffff_ffff_ffffu64) by (bit_vector)
            requires
                count == 63,
                next == 64,
        ;
    } else {
        assert((image | (((1u64 << count) - 1) as u64)) | (1u64 << ((next - 1) as u64)) == image
            | (((1u64 << next) - 1) as u64)) by (bit_vector)
            requires
                count < 63,
                next == count + 1,
        ;
    }
}

} // verus!
