use crate::clip::{process_sample, transfer_spec};
use crate::gain::saturate_spec;
use crate::params::{clamp_spec, ControlParam, HardclipperParams, DEFAULT_SAMPLE_RATE};
use vstd::prelude::*;

verus! {

/// Names one of the smoothed parameters.
#[derive(Clone, Copy, Debug, PartialEq, Eq, Structural)]
pub enum ParamId {
    InputGain,
    Ceiling,
    Reduce,
    OutputGain,
}

/// Whether every channel holds exactly `n` samples.
pub open spec fn block_shape(channels: Seq<Vec<i32>>, n: nat) -> bool {
    forall|c: int| 0 <= c < channels.len() ==> #[trigger] channels[c]@.len() == n
}

/// The number of samples per channel of a block: that of its first channel.
pub open spec fn block_len(channels: Seq<Vec<i32>>) -> nat {
    if channels.len() == 0 {
        0
    } else {
        channels[0]@.len()
    }
}

/// What sample `j` of a channel becomes when the block starts at `params`.
pub open spec fn processed(params: HardclipperParams, sample: i32, j: nat) -> i32 {
    saturate_spec(
        transfer_spec(sample as int, params.advance(j + 1).controls(), params.delta),
    ) as i32
}

/// The hard clipper: a parameter set and the engine that runs blocks of
/// samples through it.
#[derive(Clone, Copy, Debug, PartialEq, Eq, Structural)]
pub struct Hardclipper {
    pub params: HardclipperParams,
}

impl Hardclipper {
    pub open spec fn wf(self) -> bool {
        self.params.wf()
    }

    /// The parameter that `id` names.
    pub open spec fn param(self, id: ParamId) -> ControlParam {
        match id {
            ParamId::InputGain => self.params.input_gain,
            ParamId::Ceiling => self.params.ceiling,
            ParamId::Reduce => self.params.reduce,
            ParamId::OutputGain => self.params.output_gain,
        }
    }

    /// Creates a clipper at the default parameters for `sample_rate`.
    pub fn new(sample_rate: u32) -> (r: Hardclipper)
        ensures
            r.wf(),
            r.params == HardclipperParams::defaults(sample_rate),
    {
        Hardclipper { params: HardclipperParams::new(sample_rate) }
    }

    /// The parameter set.
    pub fn params(&self) -> (r: &HardclipperParams)
        ensures
            *r == self.params,
    {
        &self.params
    }

    /// Prepares for processing at `sample_rate`: the smoothing durations
    /// follow it and every parameter rests at its target.
    pub fn initialize(&mut self, sample_rate: u32)
        requires
            old(self).wf(),
        ensures
            final(self).wf(),
            final(self).params == (HardclipperParams {
                input_gain: old(self).params.input_gain.at_rate(sample_rate),
                ceiling: old(self).params.ceiling.at_rate(sample_rate),
                reduce: old(self).params.reduce.at_rate(sample_rate),
                output_gain: old(self).params.output_gain.at_rate(sample_rate),
                delta: old(self).params.delta,
            }),
    {
        self.params.set_sample_rate(sample_rate);
    }

    /// Clears the smoothing state: every parameter rests at its target.
    pub fn reset(&mut self)
        requires
            old(self).wf(),
        ensures
            final(self).wf(),
            final(self).params == (HardclipperParams {
                input_gain: old(self).params.input_gain.settle(),
                ceiling: old(self).params.ceiling.settle(),
                reduce: old(self).params.reduce.settle(),
                output_gain: old(self).params.output_gain.settle(),
                delta: old(self).params.delta,
            }),
    {
        self.params.reset();
    }

    /// Sets the target of a parameter, clamped to its range.
    pub fn set_param(&mut self, id: ParamId, value: u32)
        requires
            old(self).wf(),
        ensures
            final(self).wf(),
            final(self).params.delta == old(self).params.delta,
            forall|other: ParamId| other != id ==> final(self).param(other) == old(self).param(other),
            final(self).param(id) == (ControlParam {
                smoother: old(self).param(id).smoother.retarget(
                    clamp_spec(
                        value as int,
                        old(self).param(id).min as int,
                        old(self).param(id).max as int,
                    ) as u32,
                ),
                ..old(self).param(id)
            }),
    {
        match id {
            ParamId::InputGain => self.params.input_gain.set_value(value),
            ParamId::Ceiling => self.params.ceiling.set_value(value),
            ParamId::Reduce => self.params.reduce.set_value(value),
            ParamId::OutputGain => self.params.output_gain.set_value(value),
        }
    }

    /// Switches delta monitoring on or off, with immediate effect.
    pub fn set_delta(&mut self, delta: bool)
        ensures
            final(self).params == (HardclipperParams { delta, ..old(self).params }),
    {
        self.params.delta = delta;
    }

    /// Advances every smoothed parameter once and runs one sample through
    /// the transfer function with the new control values.
    pub fn clip(&mut self, sample: i32) -> (r: i32)
        requires
            old(self).wf(),
        ensures
            final(self).wf(),
            final(self).params == old(self).params.step(),
            r == saturate_spec(
                transfer_spec(sample as int, final(self).params.controls(), old(self).params.delta),
            ),
    {
        let controls = self.params.next_controls();
        process_sample(sample, controls, self.params.delta)
    }

    /// Processes a block in place. For each sample position the smoothed
    /// parameters advance once, and every channel's sample at that position
    /// goes through the transfer function with the same control values.
    pub fn process(&mut self, channels: &mut Vec<Vec<i32>>)
        requires
            old(self).wf(),
            block_shape(old(channels)@, block_len(old(channels)@)),
        ensures
            final(self).wf(),
            final(self).params == old(self).params.advance(block_len(old(channels)@)),
            final(channels)@.len() == old(channels)@.len(),
            block_shape(final(channels)@, block_len(old(channels)@)),
            forall|c: int, j: int|
                0 <= c < old(channels)@.len() && 0 <= j < block_len(old(channels)@) ==>
                    #[trigger] final(channels)@[c]@[j] == processed(
                        old(self).params,
                        old(channels)@[c]@[j],
                        j as nat,
                    ),
    {
        let n: usize = if channels.len() == 0 { 0 } else { channels[0].len() };
        let ghost start = self.params;
        let ghost input = channels@;
        let delta = self.params.delta;
        let mut j: usize = 0;
        while j < n
            invariant
                0 <= j <= n,
                n == block_len(input),
                block_shape(input, n as nat),
                start.wf(),
                self.wf(),
                self.params == start.advance(j as nat),
                delta == start.delta,
                channels@.len() == input.len(),
                block_shape(channels@, n as nat),
                forall|c: int, k: int|
                    0 <= c < input.len() && 0 <= k < n ==> #[trigger] channels@[c]@[k] == (if k
                        < j {
                        processed(start, input[c]@[k], k as nat)
                    } else {
                        input[c]@[k]
                    }),
            decreases n - j,
        {
            proof {
                Hardclipper::lemma_advance_step(start, j as nat);
                Hardclipper::lemma_advance_delta(start, j as nat);
            }
            let controls = self.params.next_controls();
            let mut c: usize = 0;
            while c < channels.len()
                invariant
                    0 <= j < n,
                    0 <= c <= channels@.len(),
                    n == block_len(input),
                    controls == start.advance(j as nat + 1).controls(),
                    delta == start.delta,
                    channels@.len() == input.len(),
                    block_shape(channels@, n as nat),
                    forall|d: int, k: int|
                        0 <= d < input.len() && 0 <= k < n ==> #[trigger] channels@[d]@[k] == (if k
                            < j || (k == j && d < c) {
                            processed(start, input[d]@[k], k as nat)
                        } else {
                            input[d]@[k]
                        }),
                decreases channels@.len() - c,
            {
                let out = process_sample(channels[c][j], controls, delta);
                set_sample(channels, c, j, out);
                c = c + 1;
            }
            j = j + 1;
        }
    }

    /// Advancing `n + 1` periods is advancing `n` and then one more.
    pub proof fn lemma_advance_step(p: HardclipperParams, n: nat)
        ensures
            p.advance(n + 1) == p.advance(n).step(),
        decreases n,
    {
        if n > 0 {
            Hardclipper::lemma_advance_step(p.step(), (n - 1) as nat);
            assert(p.advance(n) == p.step().advance((n - 1) as nat));
        } else {
            assert(p.advance(1) == p.step().advance(0));
        }
    }

    /// Advancing keeps well-formedness and the delta switch.
    pub proof fn lemma_advance_delta(p: HardclipperParams, n: nat)
        requires
            p.wf(),
        ensures
            p.advance(n).wf(),
            p.advance(n).delta == p.delta,
        decreases n,
    {
        if n > 0 {
            crate::smoother::Smoother::lemma_step(p.input_gain.smoother);
            crate::smoother::Smoother::lemma_step(p.ceiling.smoother);
            crate::smoother::Smoother::lemma_step(p.reduce.smoother);
            crate::smoother::Smoother::lemma_step(p.output_gain.smoother);
            Hardclipper::lemma_advance_delta(p.step(), (n - 1) as nat);
        }
    }
}

/// Writes `v` at position `j` of channel `c`.
fn set_sample(channels: &mut Vec<Vec<i32>>, c: usize, j: usize, v: i32)
    requires
        c < old(channels)@.len(),
        j < old(channels)@[c as int]@.len(),
    ensures
        final(channels)@.len() == old(channels)@.len(),
        forall|d: int|
            0 <= d < old(channels)@.len() && d != c ==> #[trigger] final(channels)@[d]@ == old(
                channels,
            )@[d]@,
        final(channels)@[c as int]@ == old(channels)@[c as int]@.update(j as int, v),
{
    channels[c].set(j, v);
}

impl Default for Hardclipper {
    fn default() -> (r: Hardclipper)
        ensures
            r.params == HardclipperParams::defaults(DEFAULT_SAMPLE_RATE),
    {
        Hardclipper::new(DEFAULT_SAMPLE_RATE)
    }
}

} // verus!
