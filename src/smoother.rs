use crate::gain::abs;
use vstd::prelude::*;

verus! {

/// Each step covers at least `DECAY_RATE / steps_total` of the remaining
/// distance, so over one smoothing run the distance decays roughly like
/// `exp(-DECAY_RATE)`; the run's deadline settles what is left.
pub const DECAY_RATE: u64 = 5;

/// A parameter smoother that chases its target in steps proportional to the
/// remaining distance, and lands on the target exactly once `steps_total`
/// steps have passed since the target was set.
///
/// With `steps_total == 0` it does no smoothing: the target is taken at once.
#[derive(Clone, Copy, Debug, PartialEq, Eq, Structural)]
pub struct Smoother {
    pub current: u32,
    pub target: u32,
    pub steps_left: u32,
    pub steps_total: u32,
}

/// The value reached by moving `size` from `current` toward `target`.
pub open spec fn toward(current: int, target: int, size: int) -> int {
    if target >= current {
        current + size
    } else {
        current - size
    }
}

/// Whether `v` lies between `a` and `b`, in either order.
pub open spec fn between(v: int, a: int, b: int) -> bool {
    (a <= v <= b) || (b <= v <= a)
}

/// The smoothing duration in samples for a time constant and a sample rate,
/// rounded to the nearest sample and capped at `u32::MAX`.
pub open spec fn steps_spec(time_ms: int, sample_rate: int) -> int {
    let s = (time_ms * sample_rate + 500) / 1000;
    if s > u32::MAX {
        u32::MAX as int
    } else {
        s
    }
}

impl Smoother {
    pub open spec fn wf(self) -> bool {
        &&& self.steps_left <= self.steps_total
        &&& self.steps_left == 0 ==> self.current == self.target
    }

    /// The size of the next step: the larger of a fixed fraction of the
    /// remaining distance and an even share of it over the steps left, never
    /// more than the distance itself.
    pub open spec fn step_size(self) -> int {
        let rem = abs(self.target - self.current);
        let fast = rem * DECAY_RATE / (self.steps_total as int);
        let even = rem / (self.steps_left as int);
        let size = if fast >= even { fast } else { even };
        if size <= rem {
            size
        } else {
            rem
        }
    }

    /// The state after one sample period.
    pub open spec fn step(self) -> Smoother {
        if self.steps_left == 0 {
            self
        } else {
            Smoother {
                current: toward(self.current as int, self.target as int, self.step_size()) as u32,
                steps_left: (self.steps_left - 1) as u32,
                ..self
            }
        }
    }

    /// The state after `n` sample periods.
    pub open spec fn advance(self, n: nat) -> Smoother
        decreases n,
    {
        if n == 0 {
            self
        } else {
            self.step().advance((n - 1) as nat)
        }
    }

    /// The state right after the target is set to `target`.
    pub open spec fn retarget(self, target: u32) -> Smoother {
        Smoother {
            current: if self.steps_total == 0 { target } else { self.current },
            target,
            steps_left: self.steps_total,
            steps_total: self.steps_total,
        }
    }

    /// A smoother resting at `value`.
    pub open spec fn settled(value: u32, steps_total: u32) -> Smoother {
        Smoother { current: value, target: value, steps_left: 0, steps_total }
    }

    /// Creates a smoother resting at `value`.
    pub fn new(value: u32, steps_total: u32) -> (r: Smoother)
        ensures
            r == Smoother::settled(value, steps_total),
            r.wf(),
    {
        Smoother { current: value, target: value, steps_left: 0, steps_total }
    }

    /// Sets a new target; the next `steps_total` steps lead to it.
    pub fn set_target(&mut self, target: u32)
        requires
            old(self).wf(),
        ensures
            *final(self) == old(self).retarget(target),
            final(self).wf(),
    {
        self.target = target;
        self.steps_left = self.steps_total;
        if self.steps_total == 0 {
            self.current = target;
        }
    }

    /// Jumps to the target and ends any smoothing in progress.
    pub fn reset(&mut self)
        ensures
            *final(self) == Smoother::settled(old(self).target, old(self).steps_total),
            final(self).wf(),
    {
        self.current = self.target;
        self.steps_left = 0;
    }

    /// Sets the smoothing duration, resting at the target.
    pub fn set_steps(&mut self, steps_total: u32)
        ensures
            *final(self) == Smoother::settled(old(self).target, steps_total),
            final(self).wf(),
    {
        self.current = self.target;
        self.steps_left = 0;
        self.steps_total = steps_total;
    }

    /// Advances by one sample period and returns the new smoothed value.
    pub fn next(&mut self) -> (r: u32)
        requires
            old(self).wf(),
        ensures
            *final(self) == old(self).step(),
            final(self).wf(),
            r == final(self).current,
    {
        proof {
            Smoother::lemma_step(*self);
        }
        if self.steps_left == 0 {
            return self.current;
        }
        let rem: u64 = if self.target >= self.current {
            (self.target - self.current) as u64
        } else {
            (self.current - self.target) as u64
        };
        let fast: u64 = rem * DECAY_RATE / (self.steps_total as u64);
        let even: u64 = rem / (self.steps_left as u64);
        let mut size: u64 = if fast >= even { fast } else { even };
        if size > rem {
            size = rem;
        }
        if self.target >= self.current {
            self.current = self.current + size as u32;
        } else {
            self.current = self.current - size as u32;
        }
        self.steps_left = self.steps_left - 1;
        self.current
    }

    /// One step keeps the smoother well formed and moves its value toward
    /// the target, never past it.
    pub proof fn lemma_step(s: Smoother)
        requires
            s.wf(),
        ensures
            s.step().wf(),
            s.step().target == s.target,
            s.step().steps_total == s.steps_total,
            between(s.step().current as int, s.current as int, s.target as int),
            s.steps_left > 0 ==> s.step().steps_left == s.steps_left - 1,
    {
        if s.steps_left > 0 {
            let rem = abs(s.target - s.current);
            assert(rem / (s.steps_left as int) <= rem) by {
                vstd::arithmetic::div_mod::lemma_div_is_ordered_by_denominator(
                    rem,
                    1,
                    s.steps_left as int,
                );
            }
            assert(0 <= rem * DECAY_RATE) by (nonlinear_arith)
                requires 0 <= rem;
            if s.steps_left == 1 {
                assert(rem / 1 == rem);
            }
        }
    }

    /// Once as many steps as were left have passed, the value is the target
    /// exactly, and stays there: after holding a target for its whole
    /// smoothing time, the smoothed value equals it.
    pub proof fn lemma_converges(s: Smoother, n: nat)
        requires
            s.wf(),
            n >= s.steps_left,
        ensures
            s.advance(n).current == s.target,
            s.advance(n).wf(),
        decreases n,
    {
        if n > 0 {
            Smoother::lemma_step(s);
            Smoother::lemma_converges(s.step(), (n - 1) as nat);
        }
    }

    /// The smoothed values move toward the target without ever passing it:
    /// from below they never fall, from above they never rise.
    pub proof fn lemma_monotone(s: Smoother, n: nat)
        requires
            s.wf(),
        ensures
            s.advance(n).wf(),
            s.advance(n).target == s.target,
            s.current <= s.target ==> s.advance(n).current <= s.advance(n + 1).current <= s.target,
            s.current >= s.target ==> s.advance(n).current >= s.advance(n + 1).current >= s.target,
        decreases n,
    {
        Smoother::lemma_step(s);
        if n > 0 {
            Smoother::lemma_monotone(s.step(), (n - 1) as nat);
        } else {
            assert(s.advance(1) == s.step().advance(0));
        }
    }

    /// After a step change of the target from `a` to `b`, the smoothed
    /// sequence is non-decreasing when `a <= b` and non-increasing when
    /// `a >= b`, and stays between the two.
    pub proof fn lemma_step_change_monotone(a: u32, b: u32, steps_total: u32, n: nat)
        ensures
            ({
                let s = Smoother::settled(a, steps_total).retarget(b);
                &&& between(s.advance(n).current as int, a as int, b as int)
                &&& a <= b ==> s.advance(n).current <= s.advance(n + 1).current
                &&& a >= b ==> s.advance(n).current >= s.advance(n + 1).current
            }),
    {
        let s = Smoother::settled(a, steps_total).retarget(b);
        Smoother::lemma_monotone(s, n);
        Smoother::lemma_between_start_and_target(s, n);
    }

    /// The smoothed values never leave the interval between the value at
    /// the start and the target.
    pub proof fn lemma_between_start_and_target(s: Smoother, n: nat)
        requires
            s.wf(),
        ensures
            between(s.advance(n).current as int, s.current as int, s.target as int),
        decreases n,
    {
        Smoother::lemma_step(s);
        if n > 0 {
            Smoother::lemma_between_start_and_target(s.step(), (n - 1) as nat);
        }
    }
}

/// The smoothing duration in samples for a time constant in milliseconds at
/// a sample rate in hertz.
pub fn steps_for(time_ms: u32, sample_rate: u32) -> (r: u32)
    ensures
        r == steps_spec(time_ms as int, sample_rate as int),
{
    proof {
        assert((time_ms as int) * (sample_rate as int) <= 4294967295 * 4294967295) by (nonlinear_arith)
            requires time_ms <= 4294967295, sample_rate <= 4294967295;
    }
    let prod: u64 = (time_ms as u64) * (sample_rate as u64);
    let s: u64 = (prod + 500) / 1000;
    if s > u32::MAX as u64 {
        u32::MAX
    } else {
        s as u32
    }
}

} // verus!
