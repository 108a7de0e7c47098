use crate::gain::{
    abs, lemma_scale_bound, lemma_scale_monotone, lemma_scale_odd, lemma_scale_unity, saturate,
    saturate_spec, scale, scale_spec, UNITY,
};
use vstd::prelude::*;

verus! {

/// One set of control values, as the smoothers hand them out for one sample.
/// All four are fixed-point: [`UNITY`] stands for a gain or a fraction of 1.0.
#[derive(Clone, Copy, Debug, PartialEq, Eq, Structural)]
pub struct Controls {
    pub input_gain: u32,
    pub ceiling: u32,
    pub reduce: u32,
    pub output_gain: u32,
}

/// The symmetric hard clip: a value within the ceiling passes, any other
/// snaps to the ceiling scaled by `reduce`, with the value's sign.
pub open spec fn clip_spec(x: int, ceiling: int, reduce: int) -> int {
    if abs(x) <= ceiling {
        x
    } else if x > 0 {
        scale_spec(ceiling, reduce)
    } else {
        -scale_spec(ceiling, reduce)
    }
}

/// The sample after the input gain.
pub open spec fn boosted_spec(sample: int, c: Controls) -> int {
    scale_spec(sample, c.input_gain as int)
}

/// The whole per-sample transfer: input gain, clip, then output gain. In
/// delta mode the result is what the clip took away from the boosted
/// signal, each of the two terms taken through the output gain.
pub open spec fn transfer_spec(sample: int, c: Controls, delta: bool) -> int {
    let boosted = boosted_spec(sample, c);
    let clipped = clip_spec(boosted, c.ceiling as int, c.reduce as int);
    if delta {
        scale_spec(boosted, c.output_gain as int) - scale_spec(clipped, c.output_gain as int)
    } else {
        scale_spec(clipped, c.output_gain as int)
    }
}

/// Clips `x` at `ceiling`, pulling clipped values to `ceiling * reduce`.
pub fn clip(x: i64, ceiling: u32, reduce: u32) -> (r: i64)
    requires
        -crate::gain::SCALE_LIMIT <= x <= crate::gain::SCALE_LIMIT,
    ensures
        r == clip_spec(x as int, ceiling as int, reduce as int),
{
    let mag: i64 = if x >= 0 { x } else { -x };
    if mag <= ceiling as i64 {
        x
    } else {
        let level = scale(ceiling as i64, reduce);
        if x > 0 {
            level
        } else {
            -level
        }
    }
}

/// Runs one sample through the transfer function, at full precision.
pub fn transfer(sample: i32, controls: Controls, delta: bool) -> (r: i64)
    ensures
        r == transfer_spec(sample as int, controls, delta),
{
    proof {
        lemma_scale_bound(sample as int, controls.input_gain as int);
        lemma_scale_bound(controls.ceiling as int, controls.reduce as int);
    }
    let boosted = scale(sample as i64, controls.input_gain);
    let clipped = clip(boosted, controls.ceiling, controls.reduce);
    proof {
        lemma_scale_bound(boosted as int, controls.output_gain as int);
        lemma_scale_bound(clipped as int, controls.output_gain as int);
    }
    let out_clipped = scale(clipped, controls.output_gain);
    if delta {
        let out_boosted = scale(boosted, controls.output_gain);
        out_boosted - out_clipped
    } else {
        out_clipped
    }
}

/// Runs one sample through the transfer function and saturates the result
/// to the sample format.
pub fn process_sample(sample: i32, controls: Controls, delta: bool) -> (r: i32)
    ensures
        r == saturate_spec(transfer_spec(sample as int, controls, delta)),
{
    saturate(transfer(sample, controls, delta))
}

/// The clip is odd: `clip(-x) == -clip(x)` for every `x`.
pub proof fn lemma_clip_symmetric(x: int, ceiling: u32, reduce: u32)
    ensures
        clip_spec(-x, ceiling as int, reduce as int) == -clip_spec(x, ceiling as int, reduce as int),
{
}

/// The whole transfer is odd as well, in both monitoring modes.
pub proof fn lemma_transfer_symmetric(sample: int, c: Controls, delta: bool)
    ensures
        transfer_spec(-sample, c, delta) == -transfer_spec(sample, c, delta),
{
    let b = boosted_spec(sample, c);
    lemma_scale_odd(sample, c.input_gain as int);
    lemma_clip_symmetric(b, c.ceiling, c.reduce);
    let k = clip_spec(b, c.ceiling as int, c.reduce as int);
    lemma_scale_odd(b, c.output_gain as int);
    lemma_scale_odd(k, c.output_gain as int);
}

/// A sample whose boosted value stays within the ceiling comes out as the
/// sample times the input gain times the output gain.
pub proof fn lemma_identity_below_ceiling(sample: int, c: Controls)
    requires
        abs(boosted_spec(sample, c)) <= c.ceiling,
    ensures
        transfer_spec(sample, c, false) == scale_spec(
            scale_spec(sample, c.input_gain as int),
            c.output_gain as int,
        ),
{
}

/// Outside delta mode the output never exceeds the output gain times the
/// ceiling times `max(reduce, 1.0)` in magnitude.
pub proof fn lemma_ceiling_bound(sample: int, c: Controls)
    ensures
        abs(transfer_spec(sample, c, false)) <= scale_spec(
            scale_spec(
                c.ceiling as int,
                if c.reduce >= UNITY { c.reduce as int } else { UNITY as int },
            ),
            c.output_gain as int,
        ),
{
    let b = boosted_spec(sample, c);
    let k = clip_spec(b, c.ceiling as int, c.reduce as int);
    let top: int = if c.reduce >= UNITY { c.reduce as int } else { UNITY as int };
    let limit = scale_spec(c.ceiling as int, top);
    lemma_scale_unity(c.ceiling as int);
    lemma_scale_monotone(c.ceiling as int, c.ceiling as int, UNITY as int, top);
    lemma_scale_monotone(c.ceiling as int, c.ceiling as int, c.reduce as int, top);
    assert(abs(k) <= limit);
    lemma_scale_bound(k, c.output_gain as int);
    lemma_scale_monotone(abs(k), limit, c.output_gain as int, c.output_gain as int);
}

/// The delta output and the clipped output add up to the boosted signal
/// taken through the output gain.
pub proof fn lemma_delta_complement(sample: int, c: Controls)
    ensures
        transfer_spec(sample, c, true) + transfer_spec(sample, c, false) == scale_spec(
            boosted_spec(sample, c),
            c.output_gain as int,
        ),
{
}

} // verus!
