use hardclipper::clip::{clip, process_sample, transfer, Controls};
use hardclipper::engine::{Hardclipper, ParamId};
use hardclipper::gain::{saturate, scale, UNITY};
use hardclipper::params::{HardclipperParams, CEILING_MIN, GAIN_MAX, GAIN_MIN};
use hardclipper::smoother::{steps_for, Smoother};

fn fx(x: f64) -> i32 {
    (x * UNITY as f64).round() as i32
}

fn unity_controls() -> Controls {
    Controls { input_gain: UNITY, ceiling: UNITY, reduce: UNITY, output_gain: UNITY }
}

#[test]
fn scale_rounds_toward_zero() {
    assert_eq!(scale(2 * UNITY as i64, UNITY / 2), UNITY as i64);
    assert_eq!(scale(3, UNITY / 2), 1);
    assert_eq!(scale(-3, UNITY / 2), -1);
    assert_eq!(scale(-5, 0), 0);
}

#[test]
fn saturate_is_symmetric() {
    assert_eq!(saturate(i64::MAX), i32::MAX);
    assert_eq!(saturate(i64::MIN), -i32::MAX);
    assert_eq!(saturate(-7), -7);
}

#[test]
fn clip_snaps_to_reduced_ceiling() {
    let c = UNITY / 2;
    assert_eq!(clip(UNITY as i64, c, UNITY), c as i64);
    assert_eq!(clip(-(UNITY as i64), c, UNITY), -(c as i64));
    assert_eq!(clip(UNITY as i64, c, UNITY / 2), (UNITY / 4) as i64);
    assert_eq!(clip(c as i64, c, 0), c as i64);
    assert_eq!(clip(c as i64 + 1, c, 0), 0);
}

#[test]
fn clip_is_symmetric_on_samples() {
    let ctl = Controls { input_gain: 3 * UNITY, ceiling: UNITY / 3, reduce: UNITY / 5, output_gain: 7 * UNITY / 4 };
    for x in [1, 17, 1000, fx(0.01), fx(0.2), fx(0.9), fx(2.5), i32::MAX] {
        for delta in [false, true] {
            assert_eq!(transfer(-x, ctl, delta), -transfer(x, ctl, delta));
        }
    }
}

#[test]
fn identity_below_ceiling() {
    let ctl = Controls { input_gain: 2 * UNITY, ceiling: UNITY, reduce: UNITY / 2, output_gain: 3 * UNITY };
    // 0.25 * 2 = 0.5 stays below the ceiling, then 0.5 * 3
    assert_eq!(transfer(fx(0.25), ctl, false), fx(1.5) as i64);
    assert_eq!(transfer(fx(-0.5), ctl, false), -(fx(3.0) as i64));
}

#[test]
fn ceiling_bounds_output() {
    let ctl = Controls { input_gain: 4 * UNITY, ceiling: UNITY / 2, reduce: UNITY / 2, output_gain: 2 * UNITY };
    for x in [fx(0.1), fx(0.13), fx(0.5), fx(3.0), fx(-7.0)] {
        let out = transfer(x, ctl, false);
        assert!(out.abs() <= UNITY as i64);
    }
    // a clipped sample sits at ceiling * reduce before the output gain
    assert_eq!(transfer(fx(3.0), ctl, false), (UNITY / 2) as i64);
}

#[test]
fn delta_complements_clipped() {
    let ctl = Controls { input_gain: 2 * UNITY, ceiling: UNITY / 2, reduce: 3 * UNITY / 4, output_gain: UNITY / 2 };
    for x in [fx(0.1), fx(0.4), fx(-1.3), fx(5.0)] {
        let boosted = scale(x as i64, ctl.input_gain);
        let sum = transfer(x, ctl, true) + transfer(x, ctl, false);
        assert_eq!(sum, scale(boosted, ctl.output_gain));
    }
}

#[test]
fn delta_compares_against_boosted_signal() {
    let ctl = Controls { input_gain: 2 * UNITY, ceiling: UNITY, reduce: UNITY, output_gain: UNITY };
    // 1.5 boosted to 3.0, clipped to 1.0: the clip removed 2.0
    assert_eq!(transfer(fx(1.5), ctl, true), fx(2.0) as i64);
}

#[test]
fn unity_pass_through() {
    let mut clipper = Hardclipper::new(48000);
    let input = vec![fx(0.2), fx(-0.3), fx(0.05)];
    let mut block = vec![input.clone(), input.clone()];
    clipper.process(&mut block);
    assert_eq!(block[0], input);
    assert_eq!(block[1], input);
}

#[test]
fn delta_off_and_on_over_ceiling() {
    let mut clipper = Hardclipper::new(48000);
    let mut block = vec![vec![fx(2.0)], vec![fx(-2.0)]];
    clipper.process(&mut block);
    assert_eq!(block, vec![vec![fx(1.0)], vec![fx(-1.0)]]);

    clipper.set_delta(true);
    let mut block = vec![vec![fx(2.0)], vec![fx(-2.0)]];
    clipper.process(&mut block);
    assert_eq!(block, vec![vec![fx(1.0)], vec![fx(-1.0)]]);

    assert_eq!(process_sample(fx(2.0), unity_controls(), false), fx(1.0));
    assert_eq!(process_sample(fx(2.0), unity_controls(), true), fx(1.0));
}

#[test]
fn zero_reduce_silences_peaks() {
    let mut clipper = Hardclipper::new(48000);
    clipper.set_param(ParamId::Ceiling, UNITY / 2);
    clipper.set_param(ParamId::Reduce, 0);
    let n = 4800;
    let mut block = vec![vec![UNITY as i32; n], vec![UNITY as i32; n]];
    clipper.process(&mut block);
    for ch in &block {
        // the ceiling smoother lands on its target after 2400 samples
        for j in 2399..n {
            assert_eq!(ch[j], 0);
        }
    }
    assert_eq!(clipper.params().ceiling.smoother.current, UNITY / 2);
}

#[test]
fn zero_reduce_delta_shows_whole_signal() {
    let mut clipper = Hardclipper::new(48000);
    clipper.set_param(ParamId::Reduce, 0);
    clipper.set_delta(true);
    let mut block = vec![vec![fx(1.5), fx(-0.5)]];
    clipper.process(&mut block);
    assert_eq!(block, vec![vec![fx(1.5), 0]]);
}

#[test]
fn channels_share_control_values() {
    let mut clipper = Hardclipper::new(1000);
    clipper.set_param(ParamId::InputGain, 2 * UNITY);
    let mut block = vec![vec![fx(0.1); 60], vec![fx(0.1); 60]];
    clipper.process(&mut block);
    assert_eq!(block[0], block[1]);
    assert!(block[0][0] > fx(0.1));
    assert_eq!(block[0][59], 2 * fx(0.1));
}

#[test]
fn clip_method_advances_smoothers() {
    let mut clipper = Hardclipper::new(1000);
    clipper.set_param(ParamId::OutputGain, 2 * UNITY);
    let first = clipper.clip(fx(0.25));
    assert!(first > fx(0.25) && first < fx(0.5));
    for _ in 0..60 {
        clipper.clip(0);
    }
    assert_eq!(clipper.clip(fx(0.25)), fx(0.5));
}

#[test]
fn set_param_clamps_to_range() {
    let mut clipper = Hardclipper::default();
    clipper.set_param(ParamId::InputGain, u32::MAX);
    assert_eq!(clipper.params().input_gain.value(), GAIN_MAX);
    clipper.set_param(ParamId::OutputGain, 0);
    assert_eq!(clipper.params().output_gain.value(), GAIN_MIN);
    clipper.set_param(ParamId::Ceiling, 1);
    assert_eq!(clipper.params().ceiling.value(), CEILING_MIN);
    clipper.set_param(ParamId::Ceiling, 2 * UNITY);
    assert_eq!(clipper.params().ceiling.value(), UNITY);
    clipper.set_param(ParamId::Reduce, 3 * UNITY);
    assert_eq!(clipper.params().reduce.value(), UNITY);
}

#[test]
fn reduce_is_not_smoothed() {
    let mut clipper = Hardclipper::new(48000);
    clipper.set_param(ParamId::Reduce, UNITY / 4);
    assert_eq!(clipper.params().reduce.smoother.current, UNITY / 4);
}

#[test]
fn reset_and_initialize_settle() {
    let mut clipper = Hardclipper::new(48000);
    clipper.set_param(ParamId::InputGain, 4 * UNITY);
    clipper.reset();
    assert_eq!(clipper.params().input_gain.smoother.current, 4 * UNITY);
    clipper.set_param(ParamId::InputGain, UNITY);
    clipper.initialize(96000);
    assert_eq!(clipper.params().input_gain.smoother.current, UNITY);
    assert_eq!(clipper.params().input_gain.smoother.steps_total, 4800);
}

#[test]
fn default_params() {
    let p = HardclipperParams::default();
    assert_eq!(p.input_gain.value(), UNITY);
    assert_eq!(p.ceiling.value(), UNITY);
    assert_eq!(p.reduce.value(), UNITY);
    assert_eq!(p.output_gain.value(), UNITY);
    assert!(!p.delta);
    assert_eq!(p.input_gain.smoother.steps_total, 2205);
    assert_eq!(p.reduce.smoother.steps_total, 0);
}

#[test]
fn steps_for_rounds_to_nearest() {
    assert_eq!(steps_for(50, 48000), 2400);
    assert_eq!(steps_for(50, 44100), 2205);
    assert_eq!(steps_for(1, 1500), 2);
    assert_eq!(steps_for(1, 1499), 1);
    assert_eq!(steps_for(0, 48000), 0);
    assert_eq!(steps_for(u32::MAX, u32::MAX), u32::MAX);
}

#[test]
fn smoother_converges_within_time_constant() {
    let mut s = Smoother::new(UNITY, 2400);
    s.set_target(UNITY / 1000);
    let mut last = 0;
    for _ in 0..2400 {
        last = s.next();
    }
    assert_eq!(last, UNITY / 1000);
    // five time constants later it still holds the target
    for _ in 0..(5 * 2400) {
        assert_eq!(s.next(), UNITY / 1000);
    }
}

#[test]
fn smoother_rises_monotonically() {
    let mut s = Smoother::new(CEILING_MIN, 500);
    s.set_target(GAIN_MAX);
    let mut prev = CEILING_MIN;
    for _ in 0..600 {
        let v = s.next();
        assert!(prev <= v && v <= GAIN_MAX);
        prev = v;
    }
    assert_eq!(prev, GAIN_MAX);
}

#[test]
fn smoother_falls_monotonically() {
    let mut s = Smoother::new(UNITY, 97);
    s.set_target(3);
    let mut prev = UNITY;
    for _ in 0..100 {
        let v = s.next();
        assert!(prev >= v && v >= 3);
        prev = v;
    }
    assert_eq!(prev, 3);
}

#[test]
fn smoother_step_shrinks_with_distance() {
    let mut s = Smoother::new(0, 1000);
    s.set_target(1000000);
    // a fixed fraction, DECAY_RATE / steps_total, of the remaining distance
    assert_eq!(s.next(), 5000);
    assert_eq!(s.next(), 5000 + 4975);
}

#[test]
fn smoother_without_smoothing_jumps() {
    let mut s = Smoother::new(10, 0);
    s.set_target(99);
    assert_eq!(s.current, 99);
    assert_eq!(s.next(), 99);
}
