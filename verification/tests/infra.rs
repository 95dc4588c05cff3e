//! Shared infrastructure: the coalescing broadcast slots, the telemetry
//! gate, and the attitude filter settling on synthetic level input.

use ahrs::{Ahrs, Madgwick};
use flightcore::channel::{Broadcast, Receiver};
use flightcore::fx::{clamp_i64, fx_div, fx_mul, tdiv_i64};
use flightcore::telemetry::{select_category, select_category_token, Category, RateLimiter, Telemetry};
use nalgebra::Vector3;

#[test]
fn slot_poll_is_idempotent() {
    let mut slot: Broadcast<u32> = Broadcast::new();
    let mut rx = Receiver::new();
    assert_eq!(rx.poll(&slot), None);
    slot.send(7);
    assert_eq!(rx.poll(&slot), Some(7));
    // Polling an un-updated slot again finds nothing new.
    assert_eq!(rx.poll(&slot), None);
    assert_eq!(rx.poll(&slot), None);
}

#[test]
fn slot_latest_value_wins() {
    let mut slot: Broadcast<u32> = Broadcast::new();
    let mut rx = Receiver::new();
    slot.send(1);
    slot.send(2);
    slot.send(3);
    // The consumer sees only the newest value; intermediates are dropped.
    assert_eq!(rx.poll(&slot), Some(3));
    assert_eq!(rx.poll(&slot), None);
}

#[test]
fn slot_clear_means_absence() {
    let mut slot: Broadcast<u32> = Broadcast::new();
    let mut rx = Receiver::new();
    slot.send(9);
    slot.clear();
    // A cleared slot yields nothing, whatever it held before.
    assert_eq!(rx.poll(&slot), None);
    // A fresh consumer sees nothing either.
    let mut rx2 = Receiver::new();
    slot.send(4);
    slot.clear();
    assert_eq!(rx2.poll(&slot), None);
}

#[test]
fn slot_consumers_are_independent() {
    let mut slot: Broadcast<u32> = Broadcast::new();
    let mut a = Receiver::new();
    let mut b = Receiver::new();
    slot.send(5);
    assert_eq!(a.poll(&slot), Some(5));
    assert_eq!(b.poll(&slot), Some(5));
    assert_eq!(a.poll(&slot), None);
    slot.send(6);
    assert_eq!(b.poll(&slot), Some(6));
    assert_eq!(a.poll(&slot), Some(6));
}

#[test]
fn fixed_point_ops_truncate_toward_zero() {
    assert_eq!(fx_mul(500_000, 500_000), 250_000); // 0.5 * 0.5
    assert_eq!(fx_mul(-1_500_000, 500_000), -750_000);
    // Sub-unit products truncate toward zero from both sides.
    assert_eq!(fx_mul(999, 999), 0);
    assert_eq!(fx_mul(-999, 999), 0);
    assert_eq!(fx_div(1_000_000, 3_000_000), 333_333); // 1 / 3
    assert_eq!(fx_div(-1_000_000, 3_000_000), -333_333);
    assert_eq!(tdiv_i64(7, 2), 3);
    assert_eq!(tdiv_i64(-7, 2), -3);
    assert_eq!(clamp_i64(5, -1, 1), 1);
    assert_eq!(clamp_i64(-5, -1, 1), -1);
    assert_eq!(clamp_i64(0, -1, 1), 0);
}

#[test]
fn rate_limiter_passes_every_nth_call() {
    let mut rl = RateLimiter::new(3);
    let passes: Vec<bool> = (0..9).map(|_| rl.tick()).collect();
    assert_eq!(
        passes,
        vec![false, false, true, false, false, true, false, false, true]
    );
}

#[test]
fn category_selection_bytes() {
    assert_eq!(select_category(0), Category::Silent);
    assert_eq!(select_category(1), Category::Imu);
    assert_eq!(select_category(2), Category::Attitude);
    assert_eq!(select_category(3), Category::Pid);
    assert_eq!(select_category(4), Category::Mix);
    assert_eq!(select_category(5), Category::Dshot);
    // Unrecognized input disables output.
    assert_eq!(select_category(6), Category::Silent);
    assert_eq!(select_category(255), Category::Silent);
}

#[test]
fn category_selection_tokens() {
    assert_eq!(select_category_token(b"Imu"), Category::Imu);
    assert_eq!(select_category_token(b"Attitude"), Category::Attitude);
    assert_eq!(select_category_token(b"Pid"), Category::Pid);
    assert_eq!(select_category_token(b"Mix"), Category::Mix);
    assert_eq!(select_category_token(b"Dshot"), Category::Dshot);
    // One-byte tokens select by numeric identifier.
    assert_eq!(select_category_token(&[3]), Category::Pid);
    // Unrecognized tokens disable output.
    assert_eq!(select_category_token(b"imu"), Category::Silent);
    assert_eq!(select_category_token(b"Mixer"), Category::Silent);
    assert_eq!(select_category_token(b""), Category::Silent);
}

#[test]
fn telemetry_gates_by_category_and_rate() {
    let mut tele = Telemetry::new(3);
    // Silent: nothing goes out.
    tele.emit(Category::Pid, vec![1]);
    assert_eq!(tele.out.len(), 0);
    tele.set_active(Category::Pid);
    // Only the third matching call passes the limiter.
    tele.emit(Category::Pid, vec![1]);
    tele.emit(Category::Mix, vec![2]); // wrong category: not even counted
    tele.emit(Category::Pid, vec![3]);
    assert_eq!(tele.out.len(), 0);
    tele.emit(Category::Pid, vec![4]);
    assert_eq!(tele.out.len(), 1);
    assert_eq!(tele.out[0].cat, Category::Pid);
    assert_eq!(tele.out[0].vals, vec![4]);
    // The cadence continues.
    tele.emit(Category::Pid, vec![5]);
    tele.emit(Category::Pid, vec![6]);
    tele.emit(Category::Pid, vec![7]);
    assert_eq!(tele.out.len(), 2);
    assert_eq!(tele.out[1].vals, vec![7]);
}

#[test]
fn telemetry_switching_category_redirects_output() {
    let mut tele = Telemetry::new(1);
    tele.set_active(Category::Mix);
    tele.emit(Category::Pid, vec![1]);
    tele.emit(Category::Mix, vec![2]);
    assert_eq!(tele.out.len(), 1);
    assert_eq!(tele.out[0].cat, Category::Mix);
    tele.set_active(Category::Silent);
    tele.emit(Category::Mix, vec![3]);
    assert_eq!(tele.out.len(), 1);
}

#[test]
fn attitude_settles_level_on_gravity_only_input() {
    // The orientation filter, fed a static, level accelerometer (gravity
    // on Z only) and zero gyro rates, converges to zero roll and pitch.
    let mut filter: Madgwick<f32> = Madgwick::new(0.001, 0.05);
    let gyr: Vector3<f32> = Vector3::new(0.0, 0.0, 0.0);
    let acc: Vector3<f32> = Vector3::new(0.0, 0.0, 9.81);
    let mut euler = (0.0f32, 0.0f32, 0.0f32);
    for _ in 0..4000 {
        let q = filter.update_imu(&gyr, &acc).expect("gravity input fuses");
        euler = q.euler_angles();
    }
    let (roll, pitch, _yaw) = euler;
    assert!(roll.abs() < 1e-3, "roll {roll} did not settle");
    assert!(pitch.abs() < 1e-3, "pitch {pitch} did not settle");
}

#[test]
fn end_to_end_level_flight_pipeline() {
    // Static level flight: fuse synthetic samples, convert the estimate to
    // fixed point, and drive the control loop. The settled attitude is
    // level, so the motor commands stay at the hover mapping of the
    // sticks.
    let mut filter: Madgwick<f32> = Madgwick::new(0.001, 0.05);
    let gyr: Vector3<f32> = Vector3::new(0.0, 0.0, 0.0);
    let acc: Vector3<f32> = Vector3::new(0.0, 0.0, 9.81);
    let mut att_fx = [0i64; 3];
    for _ in 0..4000 {
        let q = filter.update_imu(&gyr, &acc).expect("gravity input fuses");
        let (r, p, y) = q.euler_angles();
        att_fx = [
            (r * 1e6) as i64,
            (p * 1e6) as i64,
            (y * 1e6) as i64,
        ];
    }
    let mut motor_input = flightcore::motor::MotorInput::new(1_000);
    let mut tele = Telemetry::new(3);
    let mut channels = [1023u16; 16];
    channels[2] = 1023; // mid throttle
    channels[6] = 100;
    let rc = flightcore::rc::RcData::from_channels(channels);
    let mut last = [0u16; 4];
    for _ in 0..50 {
        last = motor_input.update(&rc, Some(att_fx), &mut tele);
    }
    // Mid throttle is just under 0.5; power scale 0.6 puts the hover
    // band near 48 + 1999 * 0.3 = 647. A level, settled attitude keeps
    // all four motors together within a tight band.
    let lo = *last.iter().min().unwrap();
    let hi = *last.iter().max().unwrap();
    assert!(lo >= 550 && hi <= 750, "commands {last:?} far from hover band");
    assert!(hi - lo <= 20, "commands {last:?} diverged across motors");
}
