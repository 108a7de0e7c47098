use crate::clip::Controls;
use crate::gain::UNITY;
use crate::smoother::{steps_for, steps_spec, Smoother};
use vstd::prelude::*;

verus! {

/// -30 dB as a fixed-point gain.
pub const GAIN_MIN: u32 = 530542;

/// +30 dB as a fixed-point gain.
pub const GAIN_MAX: u32 = 530542154;

/// -60 dB as a fixed-point gain.
pub const CEILING_MIN: u32 = 16777;

/// 0 dB as a fixed-point gain.
pub const CEILING_MAX: u32 = 16777216;

/// Time constant of the gain and ceiling smoothers, in milliseconds.
pub const GAIN_SMOOTHING_MS: u32 = 50;

/// Sample rate assumed until the host announces its own.
pub const DEFAULT_SAMPLE_RATE: u32 = 44100;

/// `v` clamped to `lo ..= hi`.
pub open spec fn clamp_spec(v: int, lo: int, hi: int) -> int {
    if v < lo {
        lo
    } else if v > hi {
        hi
    } else {
        v
    }
}

/// A continuously variable control: a range, a smoothing time constant
/// (zero for none) and the smoother that carries its value.
#[derive(Clone, Copy, Debug, PartialEq, Eq, Structural)]
pub struct ControlParam {
    pub min: u32,
    pub max: u32,
    pub smoothing_ms: u32,
    pub smoother: Smoother,
}

impl ControlParam {
    pub open spec fn wf(self) -> bool {
        &&& self.min <= self.max
        &&& self.smoother.wf()
        &&& self.min <= self.smoother.target <= self.max
        &&& self.min <= self.smoother.current <= self.max
    }

    /// The parameter after one sample period.
    pub open spec fn step(self) -> ControlParam {
        ControlParam { smoother: self.smoother.step(), ..self }
    }

    /// The parameter resting at its target, with the smoothing duration for
    /// `sample_rate`.
    pub open spec fn at_rate(self, sample_rate: u32) -> ControlParam {
        ControlParam {
            smoother: Smoother::settled(
                self.smoother.target,
                steps_spec(self.smoothing_ms as int, sample_rate as int) as u32,
            ),
            ..self
        }
    }

    /// Creates a parameter resting at `value`, smoothed over `smoothing_ms`
    /// at `sample_rate`.
    pub fn new(value: u32, min: u32, max: u32, smoothing_ms: u32, sample_rate: u32) -> (r: ControlParam)
        requires
            min <= value <= max,
        ensures
            r.wf(),
            r.min == min,
            r.max == max,
            r.smoothing_ms == smoothing_ms,
            r.smoother == Smoother::settled(
                value,
                steps_spec(smoothing_ms as int, sample_rate as int) as u32,
            ),
    {
        let steps = steps_for(smoothing_ms, sample_rate);
        ControlParam { min, max, smoothing_ms, smoother: Smoother::new(value, steps) }
    }

    /// The value last set, which the smoothed value chases.
    pub fn value(&self) -> (r: u32)
        ensures
            r == self.smoother.target,
    {
        self.smoother.target
    }

    /// Sets a new target; a value out of the range is clamped to it.
    pub fn set_value(&mut self, value: u32)
        requires
            old(self).wf(),
        ensures
            final(self).wf(),
            *final(self) == (ControlParam {
                smoother: old(self).smoother.retarget(
                    clamp_spec(value as int, old(self).min as int, old(self).max as int) as u32,
                ),
                ..*old(self)
            }),
    {
        let v = if value < self.min {
            self.min
        } else if value > self.max {
            self.max
        } else {
            value
        };
        self.smoother.set_target(v);
    }

    /// Recomputes the smoothing duration for a new sample rate and rests at
    /// the target.
    pub fn set_sample_rate(&mut self, sample_rate: u32)
        requires
            old(self).wf(),
        ensures
            final(self).wf(),
            *final(self) == old(self).at_rate(sample_rate),
    {
        let steps = steps_for(self.smoothing_ms, sample_rate);
        self.smoother.set_steps(steps);
    }

    /// The parameter resting at its target.
    pub open spec fn settle(self) -> ControlParam {
        ControlParam {
            smoother: Smoother::settled(self.smoother.target, self.smoother.steps_total),
            ..self
        }
    }

    /// Ends any smoothing in progress.
    pub fn reset(&mut self)
        requires
            old(self).wf(),
        ensures
            final(self).wf(),
            *final(self) == old(self).settle(),
    {
        self.smoother.reset();
    }

    /// Advances by one sample period and returns the smoothed value.
    pub fn next(&mut self) -> (r: u32)
        requires
            old(self).wf(),
        ensures
            final(self).wf(),
            *final(self) == old(self).step(),
            r == final(self).smoother.current,
    {
        proof {
            Smoother::lemma_step(self.smoother);
        }
        self.smoother.next()
    }
}

/// The processor's parameter set.
#[derive(Clone, Copy, Debug, PartialEq, Eq, Structural)]
pub struct HardclipperParams {
    pub input_gain: ControlParam,
    pub ceiling: ControlParam,
    pub reduce: ControlParam,
    pub output_gain: ControlParam,
    /// Outputs only what the clip removes.
    pub delta: bool,
}

impl HardclipperParams {
    pub open spec fn wf(self) -> bool {
        &&& self.input_gain.wf()
        &&& self.ceiling.wf()
        &&& self.reduce.wf()
        &&& self.output_gain.wf()
    }

    /// The control values of the current sample.
    pub open spec fn controls(self) -> Controls {
        Controls {
            input_gain: self.input_gain.smoother.current,
            ceiling: self.ceiling.smoother.current,
            reduce: self.reduce.smoother.current,
            output_gain: self.output_gain.smoother.current,
        }
    }

    /// All parameters after one sample period.
    pub open spec fn step(self) -> HardclipperParams {
        HardclipperParams {
            input_gain: self.input_gain.step(),
            ceiling: self.ceiling.step(),
            reduce: self.reduce.step(),
            output_gain: self.output_gain.step(),
            delta: self.delta,
        }
    }

    /// All parameters after `n` sample periods.
    pub open spec fn advance(self, n: nat) -> HardclipperParams
        decreases n,
    {
        if n == 0 {
            self
        } else {
            self.step().advance((n - 1) as nat)
        }
    }

    /// The parameters at their defaults: unity gains, a 0 dB ceiling, full
    /// reduce, delta off; gains and ceiling smoothed over 50 ms.
    pub open spec fn defaults(sample_rate: u32) -> HardclipperParams {
        let steps = steps_spec(GAIN_SMOOTHING_MS as int, sample_rate as int) as u32;
        HardclipperParams {
            input_gain: ControlParam {
                min: GAIN_MIN,
                max: GAIN_MAX,
                smoothing_ms: GAIN_SMOOTHING_MS,
                smoother: Smoother::settled(UNITY, steps),
            },
            ceiling: ControlParam {
                min: CEILING_MIN,
                max: CEILING_MAX,
                smoothing_ms: GAIN_SMOOTHING_MS,
                smoother: Smoother::settled(UNITY, steps),
            },
            reduce: ControlParam {
                min: 0,
                max: UNITY,
                smoothing_ms: 0,
                smoother: Smoother::settled(UNITY, 0),
            },
            output_gain: ControlParam {
                min: GAIN_MIN,
                max: GAIN_MAX,
                smoothing_ms: GAIN_SMOOTHING_MS,
                smoother: Smoother::settled(UNITY, steps),
            },
            delta: false,
        }
    }

    /// Creates the parameter set at its defaults for `sample_rate`.
    pub fn new(sample_rate: u32) -> (r: HardclipperParams)
        ensures
            r.wf(),
            r == HardclipperParams::defaults(sample_rate),
    {
        HardclipperParams {
            input_gain: ControlParam::new(UNITY, GAIN_MIN, GAIN_MAX, GAIN_SMOOTHING_MS, sample_rate),
            ceiling: ControlParam::new(UNITY, CEILING_MIN, CEILING_MAX, GAIN_SMOOTHING_MS, sample_rate),
            reduce: ControlParam::new(UNITY, 0, UNITY, 0, sample_rate),
            output_gain: ControlParam::new(UNITY, GAIN_MIN, GAIN_MAX, GAIN_SMOOTHING_MS, sample_rate),
            delta: false,
        }
    }

    /// Advances every smoothed parameter by one sample period and returns
    /// the control values for that sample.
    pub fn next_controls(&mut self) -> (r: Controls)
        requires
            old(self).wf(),
        ensures
            final(self).wf(),
            *final(self) == old(self).step(),
            r == final(self).controls(),
    {
        let input_gain = self.input_gain.next();
        let ceiling = self.ceiling.next();
        let reduce = self.reduce.next();
        let output_gain = self.output_gain.next();
        Controls { input_gain, ceiling, reduce, output_gain }
    }

    /// Ends the smoothing of every parameter.
    pub fn reset(&mut self)
        requires
            old(self).wf(),
        ensures
            final(self).wf(),
            *final(self) == (HardclipperParams {
                input_gain: old(self).input_gain.settle(),
                ceiling: old(self).ceiling.settle(),
                reduce: old(self).reduce.settle(),
                output_gain: old(self).output_gain.settle(),
                delta: old(self).delta,
            }),
    {
        self.input_gain.reset();
        self.ceiling.reset();
        self.reduce.reset();
        self.output_gain.reset();
    }

    /// Recomputes every smoothing duration for a new sample rate.
    pub fn set_sample_rate(&mut self, sample_rate: u32)
        requires
            old(self).wf(),
        ensures
            final(self).wf(),
            *final(self) == (HardclipperParams {
                input_gain: old(self).input_gain.at_rate(sample_rate),
                ceiling: old(self).ceiling.at_rate(sample_rate),
                reduce: old(self).reduce.at_rate(sample_rate),
                output_gain: old(self).output_gain.at_rate(sample_rate),
                delta: old(self).delta,
            }),
    {
        self.input_gain.set_sample_rate(sample_rate);
        self.ceiling.set_sample_rate(sample_rate);
        self.reduce.set_sample_rate(sample_rate);
        self.output_gain.set_sample_rate(sample_rate);
    }
}

impl Default for HardclipperParams {
    fn default() -> (r: HardclipperParams)
        ensures
            r == HardclipperParams::defaults(DEFAULT_SAMPLE_RATE),
    {
        HardclipperParams::new(DEFAULT_SAMPLE_RATE)
    }
}

} // verus!
