//! The control pipeline: PID behaviour, bias calibration, mixing, and the
//! per-tick orchestrator decision.

use flightcore::control::{control_tick, MotorCommand};
use flightcore::fx;
use flightcore::imu::{CalStep, Calibrator, ImuSample, CALIBRATION_TICKS};
use flightcore::motor::{
    self, MotorInput, PITCH_MIX_GAIN, ROLL_MIX_GAIN, YAW_MIX_GAIN,
};
use flightcore::pid::{Limits, Pid};
use flightcore::rc::RcData;
use flightcore::telemetry::Telemetry;

/// All sticks centered; throttle channel at `thr`.
fn centered_rc(thr: u16) -> RcData {
    let mut channels = [1023u16; 16];
    channels[2] = thr;
    channels[6] = 100;
    RcData::from_channels(channels)
}

#[test]
fn pid_proportional_only() {
    let mut p = Pid::new(800_000, 0, 50_000, 1000, None, None);
    // First call: no measurement change, so D is zero and I stays zero.
    let out = p.update(100, 0);
    assert_eq!(out, 80); // 0.8 * error
}

#[test]
fn pid_integral_never_leaves_the_clamp() {
    // A strong integral gain and a huge sustained error.
    let mut p = Pid::new(0, 10_000_000, 0, 1_000, None, None);
    for _ in 0..10_000 {
        p.update(1_000_000_000, 0);
        assert!(p.prev_i <= 10_000_000, "integral exceeded +10");
        assert!(p.prev_i >= -10_000_000, "integral exceeded -10");
    }
    // It saturates exactly at the clamp.
    assert_eq!(p.prev_i, 10_000_000);
    // And symmetrically for sustained negative error.
    for _ in 0..10_000 {
        p.update(-1_000_000_000, 0);
        assert!(p.prev_i.abs() <= 10_000_000);
    }
    assert_eq!(p.prev_i, -10_000_000);
}

#[test]
fn pid_zero_error_converges_to_zero() {
    let limits = Some(Limits { min: -1_000_000, max: 1_000_000 });
    let mut p = Pid::new(800_000, 0, 50_000, 1_000, limits, Some(50_000_000));
    // Kick the derivative filter with a measurement jump.
    p.update(500_000, 0);
    p.update(500_000, 500_000);
    // Sustain zero error with a steady measurement.
    let mut out = 0i64;
    let mut prev = i64::MAX;
    for _ in 0..200 {
        out = p.update(500_000, 500_000);
        assert!(out.abs() <= prev, "output magnitude grew");
        prev = out.abs();
    }
    // Converged to zero up to the filter's quantization floor
    // (SCALE / alpha = 4 millionths of a unit).
    assert!(out.abs() <= 4, "output {out} did not converge");
}

#[test]
fn calibration_constant_bias_is_exact() {
    let bias = [1_000i64, -2_000, 300];
    let sample = ImuSample { gyr: bias, acc: [0, 0, 9_810_000], mag: None, tmp: Some(25_000_000) };
    let mut cal = Calibrator::new();
    // Warmup tick: the first sample is discarded.
    assert!(matches!(cal.step(&sample), CalStep::Started));
    // The collecting window accumulates 2000 samples; the last one
    // freezes the bias.
    for _ in 0..CALIBRATION_TICKS - 1 {
        assert!(matches!(cal.step(&sample), CalStep::Collecting));
    }
    match cal.step(&sample) {
        CalStep::Calibrated(b, n) => {
            assert_eq!(b, bias, "constant input must freeze exactly that bias");
            assert_eq!(n, CALIBRATION_TICKS);
        }
        _ => panic!("the window's last sample must freeze the bias"),
    }
    // Every later sample streams out bias-corrected.
    match cal.step(&sample) {
        CalStep::Streaming(s) => {
            assert_eq!(s.gyr, [0, 0, 0]);
            assert_eq!(s.acc, sample.acc);
            assert_eq!(s.tmp, sample.tmp);
        }
        _ => panic!("the calibrator must stream after freezing"),
    }
    let other = ImuSample { gyr: [5_000, 0, -100], acc: [1, 2, 3], mag: None, tmp: None };
    match cal.step(&other) {
        CalStep::Streaming(s) => assert_eq!(s.gyr, [4_000, 2_000, -400]),
        _ => panic!("the calibrator must keep streaming"),
    }
}

#[test]
fn mix_formula_exact_values() {
    let mut tele = Telemetry::new(3);
    // throttle 0.5, roll output 0.2: m1 = 0.7, m2 = 0.3, m3 = 0.3, m4 = 0.7;
    // power-scaled by 0.6 and mapped through 48 + 1999 * v.
    let out = motor::inputs_to_throttle(0, 500_000, 200_000, 0, 0, &mut tele);
    assert_eq!(out, [887, 407, 407, 887]);
}

#[test]
fn mix_gains_scale_each_axis() {
    assert_eq!(fx::fx_mul(400_000, ROLL_MIX_GAIN), 200_000);
    assert_eq!(fx::fx_mul(400_000, PITCH_MIX_GAIN), 200_000);
    assert_eq!(fx::fx_mul(500_000, YAW_MIX_GAIN), 200_000);
    // The full pipeline from a raw axis output of 0.4 on roll.
    let mut tele = Telemetry::new(3);
    let scaled = fx::fx_mul(400_000, ROLL_MIX_GAIN);
    let out = motor::inputs_to_throttle(0, 500_000, scaled, 0, 0, &mut tele);
    assert_eq!(out, [887, 407, 407, 887]);
}

#[test]
fn pid_to_throttle_truncates_and_saturates() {
    // 48 + 1999 * 0.42 = 887.58, truncated to 887.
    assert_eq!(motor::pid_to_throttle(420_000), 887);
    assert_eq!(motor::pid_to_throttle(180_000), 407);
    assert_eq!(motor::pid_to_throttle(0), 48);
    assert_eq!(motor::pid_to_throttle(1_000_000), 2047);
    // Negative mixed values saturate at zero, huge ones at the u16 range.
    assert_eq!(motor::pid_to_throttle(-500_000), 0);
    assert_eq!(motor::pid_to_throttle(1_000_000_000_000), 65535);
}

#[test]
fn orchestrator_no_imu_issues_nothing() {
    let mut motor_input = MotorInput::new(1_000);
    let mut tele = Telemetry::new(3);
    let rc = centered_rc(1023);
    let r = control_tick(&mut motor_input, &mut tele, false, None, Some(&rc));
    assert!(r.is_none());
    assert_eq!(motor_input.tick_num, 0);
}

#[test]
fn orchestrator_no_rc_issues_minimum() {
    let mut motor_input = MotorInput::new(1_000);
    let mut tele = Telemetry::new(3);
    let r = control_tick(&mut motor_input, &mut tele, true, Some([0, 0, 0]), None);
    assert!(matches!(r, Some(MotorCommand::Minimum)));
}

#[test]
fn orchestrator_no_attitude_issues_zero() {
    let mut motor_input = MotorInput::new(1_000);
    let mut tele = Telemetry::new(3);
    let rc = centered_rc(1023);
    let r = control_tick(&mut motor_input, &mut tele, true, None, Some(&rc));
    match r {
        Some(MotorCommand::Throttle(v)) => assert_eq!(v, [0, 0, 0, 0]),
        _ => panic!("attitude loss must command all-zero throttle"),
    }
    assert_eq!(motor_input.tick_num, 1);
}

#[test]
fn orchestrator_level_hover_command() {
    let mut motor_input = MotorInput::new(1_000);
    let mut tele = Telemetry::new(3);
    // Level attitude, centered sticks, throttle low.
    let rc = centered_rc(240);
    let r = control_tick(&mut motor_input, &mut tele, true, Some([0, 0, 0]), Some(&rc));
    match r {
        Some(MotorCommand::Throttle(v)) => {
            // Zero throttle, zero attitude, centered sticks: every axis
            // contributes only the tiny setpoint from stick quantization,
            // so all four commands sit within a few units of the
            // protocol floor.
            for t in v {
                assert!((40..=60).contains(&t), "command {t} far from the floor");
            }
        }
        _ => panic!("a full tick must command the motors"),
    }
}
