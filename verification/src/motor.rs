//! Motor mixing for the quadcopter "X" frame: the pilot's throttle and the
//! three axis controllers' outputs combined, power-scaled, and mapped to
//! protocol-unit commands for the four motors.

use vstd::prelude::*;

verus! {

use crate::fx::{fx_mul, fx_mul_spec, lemma_fx_mul_bound, tdiv, tdiv_i64, SCALE};
use crate::pid::{alpha_spec, Limits, Pid, CYCLE_MAX, CYCLE_MIN, RATE_LIMIT};
use crate::rc::RcData;
use crate::telemetry::{tele_one_emit, tele_unchanged, Category, Telemetry};

/// Overall power scale applied to every mixed value (0.6 fixed point).
pub const MAX_POWER: i64 = 600_000;

/// Protocol floor: commands below this are reserved (disarm/minimum).
pub const THROTTLE_MIN: i64 = 48;

/// Protocol ceiling: full throttle.
pub const THROTTLE_MAX: i64 = 2047;

/// Slope of the linear map from mixed values to protocol units.
pub const SLOPE: i64 = THROTTLE_MAX - THROTTLE_MIN;

/// Full-deflection roll rate: 200 degrees per second, in rad/s fixed point.
pub const ROLL_RATE: i64 = 3_490_659;

/// Full-deflection pitch rate, equal to the roll rate.
pub const PITCH_RATE: i64 = 3_490_659;

/// Full-deflection yaw rate: 100 degrees per second, in rad/s fixed point.
pub const YAW_RATE: i64 = 1_745_329;

/// Mix gain on the roll axis output.
pub const ROLL_MIX_GAIN: i64 = 500_000;

/// Mix gain on the pitch axis output.
pub const PITCH_MIX_GAIN: i64 = 500_000;

/// Mix gain on the yaw axis output.
pub const YAW_MIX_GAIN: i64 = 400_000;

/// Largest magnitude each mixer input may have (1000.0 fixed point).
pub const MIX_INPUT_LIMIT: i64 = 1_000_000_000;

/// The derivative-filter cutoff all three axis controllers use (50 Hz).
pub const D_FILTER_CUTOFF: i64 = 50_000_000;

/// A value truncated into the range a `u16` holds.
pub open spec fn sat_u16_spec(x: int) -> int {
    if x < 0 {
        0
    } else if x > 65535 {
        65535
    } else {
        x
    }
}

/// The protocol-unit command for one power-scaled mixed value: the linear
/// map `THROTTLE_MIN + SLOPE * v`, truncated to whole protocol units (not
/// rounded) and saturated at the `u16` range.
pub open spec fn pid_to_throttle_spec(v: int) -> int {
    sat_u16_spec(tdiv((THROTTLE_MIN as int) * (SCALE as int) + (SLOPE as int) * v, SCALE as int))
}

/// The four "X"-frame mixed values, in motor order.
pub open spec fn mix1_spec(throttle: int, roll: int, pitch: int, yaw: int) -> int {
    throttle - pitch + roll - yaw
}

pub open spec fn mix2_spec(throttle: int, roll: int, pitch: int, yaw: int) -> int {
    throttle + pitch - roll - yaw
}

pub open spec fn mix3_spec(throttle: int, roll: int, pitch: int, yaw: int) -> int {
    throttle - pitch - roll + yaw
}

pub open spec fn mix4_spec(throttle: int, roll: int, pitch: int, yaw: int) -> int {
    throttle + pitch + roll + yaw
}

/// One mixed value taken through power scaling and the protocol map.
pub open spec fn mix_output_spec(m: int) -> int {
    pid_to_throttle_spec(fx_mul_spec(m, MAX_POWER as int))
}

/// The mixer's diagnostic effect: whichever of its three emission sites
/// matches the active category advanced its limiter once and emitted its
/// line exactly when the limiter passed; under any other active category
/// nothing was counted and nothing went out.
pub open spec fn mixer_tele_effect(
    a: Telemetry,
    b: Telemetry,
    pid_vals: Seq<i64>,
    mix_vals: Seq<i64>,
    dshot_vals: Seq<i64>,
) -> bool {
    match a.active {
        Category::Pid => tele_one_emit(a, b, Category::Pid, pid_vals),
        Category::Mix => tele_one_emit(a, b, Category::Mix, mix_vals),
        Category::Dshot => tele_one_emit(a, b, Category::Dshot, dshot_vals),
        _ => tele_unchanged(a, b),
    }
}

/// Converts one power-scaled mixed value to protocol units.
pub fn pid_to_throttle(rc: i64) -> (r: u16)
    requires
        -1_000_000_000_000 <= rc <= 1_000_000_000_000,
    ensures
        r as int == pid_to_throttle_spec(rc as int),
{
    let v: i64 = THROTTLE_MIN * SCALE + SLOPE * rc;
    let q: i64 = tdiv_i64(v, SCALE);
    if q < 0 {
        0
    } else if q > 65535 {
        65535
    } else {
        q as u16
    }
}

/// Mixes the pilot's throttle with the three scaled axis outputs into the
/// four motor commands, reporting the stage values to the diagnostic gate.
pub fn inputs_to_throttle(
    _tick_num: u64,
    throttle: i64,
    pid_roll: i64,
    pid_pitch: i64,
    pid_yaw: i64,
    tele: &mut Telemetry,
) -> (r: [u16; 4])
    requires
        old(tele).wf(),
        -MIX_INPUT_LIMIT <= throttle <= MIX_INPUT_LIMIT,
        -MIX_INPUT_LIMIT <= pid_roll <= MIX_INPUT_LIMIT,
        -MIX_INPUT_LIMIT <= pid_pitch <= MIX_INPUT_LIMIT,
        -MIX_INPUT_LIMIT <= pid_yaw <= MIX_INPUT_LIMIT,
    ensures
        final(tele).wf(),
        r@[0] as int == mix_output_spec(
            mix1_spec(throttle as int, pid_roll as int, pid_pitch as int, pid_yaw as int),
        ),
        r@[1] as int == mix_output_spec(
            mix2_spec(throttle as int, pid_roll as int, pid_pitch as int, pid_yaw as int),
        ),
        r@[2] as int == mix_output_spec(
            mix3_spec(throttle as int, pid_roll as int, pid_pitch as int, pid_yaw as int),
        ),
        r@[3] as int == mix_output_spec(
            mix4_spec(throttle as int, pid_roll as int, pid_pitch as int, pid_yaw as int),
        ),
        mixer_tele_effect(
            *old(tele),
            *final(tele),
            seq![throttle, pid_roll, pid_pitch, pid_yaw],
            seq![
                (mix1_spec(throttle as int, pid_roll as int, pid_pitch as int, pid_yaw as int))
                    as i64,
                (mix2_spec(throttle as int, pid_roll as int, pid_pitch as int, pid_yaw as int))
                    as i64,
                (mix3_spec(throttle as int, pid_roll as int, pid_pitch as int, pid_yaw as int))
                    as i64,
                (mix4_spec(throttle as int, pid_roll as int, pid_pitch as int, pid_yaw as int))
                    as i64,
            ],
            seq![
                (mix_output_spec(
                    mix1_spec(throttle as int, pid_roll as int, pid_pitch as int, pid_yaw as int),
                )) as i64,
                (mix_output_spec(
                    mix2_spec(throttle as int, pid_roll as int, pid_pitch as int, pid_yaw as int),
                )) as i64,
                (mix_output_spec(
                    mix3_spec(throttle as int, pid_roll as int, pid_pitch as int, pid_yaw as int),
                )) as i64,
                (mix_output_spec(
                    mix4_spec(throttle as int, pid_roll as int, pid_pitch as int, pid_yaw as int),
                )) as i64,
            ],
        ),
{
    tele.emit(Category::Pid, vec![throttle, pid_roll, pid_pitch, pid_yaw]);

    let m1: i64 = throttle - pid_pitch + pid_roll - pid_yaw;
    let m2: i64 = throttle + pid_pitch - pid_roll - pid_yaw;
    let m3: i64 = throttle - pid_pitch - pid_roll + pid_yaw;
    let m4: i64 = throttle + pid_pitch + pid_roll + pid_yaw;

    tele.emit(Category::Mix, vec![m1, m2, m3, m4]);

    proof {
        lemma_fx_mul_bound(m1 as int, MAX_POWER as int, 4_000_000_000, MAX_POWER as int);
        lemma_fx_mul_bound(m2 as int, MAX_POWER as int, 4_000_000_000, MAX_POWER as int);
        lemma_fx_mul_bound(m3 as int, MAX_POWER as int, 4_000_000_000, MAX_POWER as int);
        lemma_fx_mul_bound(m4 as int, MAX_POWER as int, 4_000_000_000, MAX_POWER as int);
    }
    let t1: u16 = pid_to_throttle(fx_mul(m1, MAX_POWER));
    let t2: u16 = pid_to_throttle(fx_mul(m2, MAX_POWER));
    let t3: u16 = pid_to_throttle(fx_mul(m3, MAX_POWER));
    let t4: u16 = pid_to_throttle(fx_mul(m4, MAX_POWER));

    tele.emit(Category::Dshot, vec![t1 as i64, t2 as i64, t3 as i64, t4 as i64]);

    let mut out: [u16; 4] = [0u16; 4];
    out[0] = t1;
    out[1] = t2;
    out[2] = t3;
    out[3] = t4;
    out
}

/// The per-tick control pipeline: the three axis controllers and the tick
/// counter. Attitude estimates arrive as arguments, produced upstream by
/// the orientation filter.
#[derive(Clone, Copy, Debug)]
pub struct MotorInput {
    pub pid_roll: Pid,
    pub pid_pitch: Pid,
    pub pid_yaw: Pid,
    pub tick_num: u64,
}

/// The roll-rate setpoint the pilot's stick commands.
pub open spec fn desired_roll_spec(rc: RcData) -> int {
    fx_mul_spec(rc.roll_spec(), ROLL_RATE as int)
}

/// The pitch-rate setpoint the pilot's stick commands.
pub open spec fn desired_pitch_spec(rc: RcData) -> int {
    fx_mul_spec(rc.pitch_spec(), PITCH_RATE as int)
}

/// The yaw-rate setpoint the pilot's stick commands.
pub open spec fn desired_yaw_spec(rc: RcData) -> int {
    fx_mul_spec(rc.yaw_spec(), YAW_RATE as int)
}

impl MotorInput {
    /// Three consistent controllers, each clamped to `[-1, 1]` output.
    pub open spec fn wf(self) -> bool {
        &&& self.pid_roll.wf()
        &&& self.pid_pitch.wf()
        &&& self.pid_yaw.wf()
        &&& self.pid_roll.limit_pid == Option::Some(Limits { min: (-SCALE) as i64, max: SCALE })
        &&& self.pid_pitch.limit_pid == Option::Some(Limits { min: (-SCALE) as i64, max: SCALE })
        &&& self.pid_yaw.limit_pid == Option::Some(Limits { min: (-SCALE) as i64, max: SCALE })
    }

    /// The scaled roll-axis control output for this tick.
    pub open spec fn scaled_roll_spec(self, rc: RcData, att: [i64; 3]) -> int {
        fx_mul_spec(
            self.pid_roll.output_spec(desired_roll_spec(rc), -(att[0] as int)),
            ROLL_MIX_GAIN as int,
        )
    }

    /// The scaled pitch-axis control output for this tick.
    pub open spec fn scaled_pitch_spec(self, rc: RcData, att: [i64; 3]) -> int {
        fx_mul_spec(
            self.pid_pitch.output_spec(desired_pitch_spec(rc), att[1] as int),
            PITCH_MIX_GAIN as int,
        )
    }

    /// The scaled yaw-axis control output for this tick.
    pub open spec fn scaled_yaw_spec(self, rc: RcData, att: [i64; 3]) -> int {
        fx_mul_spec(
            self.pid_yaw.output_spec(desired_yaw_spec(rc), att[2] as int),
            YAW_MIX_GAIN as int,
        )
    }

    /// The diagnostic effect of one `update` call that ran the full
    /// pipeline: the mixer's three emission sites seen with this tick's
    /// setpoint, mix, and command values.
    pub open spec fn update_tele_effect(
        self,
        rc: RcData,
        a: [i64; 3],
        t0: Telemetry,
        t1: Telemetry,
    ) -> bool {
        mixer_tele_effect(
            t0,
            t1,
            seq![
                (rc.throttle_spec()) as i64,
                (self.scaled_roll_spec(rc, a)) as i64,
                (self.scaled_pitch_spec(rc, a)) as i64,
                (self.scaled_yaw_spec(rc, a)) as i64,
            ],
            seq![
                (mix1_spec(
                    rc.throttle_spec(),
                    self.scaled_roll_spec(rc, a),
                    self.scaled_pitch_spec(rc, a),
                    self.scaled_yaw_spec(rc, a),
                )) as i64,
                (mix2_spec(
                    rc.throttle_spec(),
                    self.scaled_roll_spec(rc, a),
                    self.scaled_pitch_spec(rc, a),
                    self.scaled_yaw_spec(rc, a),
                )) as i64,
                (mix3_spec(
                    rc.throttle_spec(),
                    self.scaled_roll_spec(rc, a),
                    self.scaled_pitch_spec(rc, a),
                    self.scaled_yaw_spec(rc, a),
                )) as i64,
                (mix4_spec(
                    rc.throttle_spec(),
                    self.scaled_roll_spec(rc, a),
                    self.scaled_pitch_spec(rc, a),
                    self.scaled_yaw_spec(rc, a),
                )) as i64,
            ],
            seq![
                (self.motor_out_spec(rc, a, 0)) as i64,
                (self.motor_out_spec(rc, a, 1)) as i64,
                (self.motor_out_spec(rc, a, 2)) as i64,
                (self.motor_out_spec(rc, a, 3)) as i64,
            ],
        )
    }

    /// Motor `k`'s protocol-unit command for this tick (`k` in 0..4).
    pub open spec fn motor_out_spec(self, rc: RcData, att: [i64; 3], k: int) -> int {
        let t = rc.throttle_spec();
        let r = self.scaled_roll_spec(rc, att);
        let p = self.scaled_pitch_spec(rc, att);
        let y = self.scaled_yaw_spec(rc, att);
        if k == 0 {
            mix_output_spec(mix1_spec(t, r, p, y))
        } else if k == 1 {
            mix_output_spec(mix2_spec(t, r, p, y))
        } else if k == 2 {
            mix_output_spec(mix3_spec(t, r, p, y))
        } else {
            mix_output_spec(mix4_spec(t, r, p, y))
        }
    }

    /// A fresh pipeline: three identically tuned controllers (P 0.8, I 0,
    /// D 0.05, output clamped to `[-1, 1]`, derivative filtered at 50 Hz).
    pub fn new(cycle_time: i64) -> (r: MotorInput)
        requires
            CYCLE_MIN <= cycle_time <= CYCLE_MAX,
        ensures
            r.wf(),
            r.tick_num == 0,
            r.pid_pitch == r.pid_roll,
            r.pid_yaw == r.pid_roll,
            r.pid_roll.kp == 800_000,
            r.pid_roll.ki == 0,
            r.pid_roll.kd == 50_000,
            r.pid_roll.cycle_time == cycle_time,
            r.pid_roll.prev_error == 0,
            r.pid_roll.prev_measured == 0,
            r.pid_roll.prev_i == 0,
            r.pid_roll.d_lowpass_filter matches Option::Some(lp) && lp.alpha == alpha_spec(
                cycle_time as int,
                D_FILTER_CUTOFF as int,
            ) && lp.prev_d == 0,
    {
        let pid_limits = Option::Some(Limits { min: -SCALE, max: SCALE });
        let d_filter_cutoff_hz = Option::Some(D_FILTER_CUTOFF);
        MotorInput {
            pid_roll: Pid::new(800_000, 0, 50_000, cycle_time, pid_limits, d_filter_cutoff_hz),
            pid_pitch: Pid::new(800_000, 0, 50_000, cycle_time, pid_limits, d_filter_cutoff_hz),
            pid_yaw: Pid::new(800_000, 0, 50_000, cycle_time, pid_limits, d_filter_cutoff_hz),
            tick_num: 0,
        }
    }

    /// One control tick: with an attitude estimate, runs the three axis
    /// controllers against the pilot's rate setpoints and mixes their
    /// outputs into motor commands; without one, no controller state moves
    /// and the command is all-zero (full cutoff).
    pub fn update(&mut self, rc_data: &RcData, att: Option<[i64; 3]>, tele: &mut Telemetry)
        -> (r: [u16; 4])
        requires
            old(self).wf(),
            old(tele).wf(),
            old(self).tick_num < u64::MAX,
            att matches Option::Some(a) ==> -RATE_LIMIT <= a[0] <= RATE_LIMIT && -RATE_LIMIT
                <= a[1] <= RATE_LIMIT && -RATE_LIMIT <= a[2] <= RATE_LIMIT,
        ensures
            final(self).wf(),
            final(tele).wf(),
            final(self).tick_num == old(self).tick_num + 1,
            att is None ==> {
                &&& final(self).pid_roll == old(self).pid_roll
                &&& final(self).pid_pitch == old(self).pid_pitch
                &&& final(self).pid_yaw == old(self).pid_yaw
                &&& r@[0] == 0 && r@[1] == 0 && r@[2] == 0 && r@[3] == 0
                &&& tele_unchanged(*old(tele), *final(tele))
            },
            att matches Option::Some(a) ==> {
                &&& final(self).pid_roll == old(self).pid_roll.next_spec(
                    desired_roll_spec(*rc_data),
                    -(a[0] as int),
                )
                &&& final(self).pid_pitch == old(self).pid_pitch.next_spec(
                    desired_pitch_spec(*rc_data),
                    a[1] as int,
                )
                &&& final(self).pid_yaw == old(self).pid_yaw.next_spec(
                    desired_yaw_spec(*rc_data),
                    a[2] as int,
                )
                &&& forall|k: int|
                    0 <= k < 4 ==> r@[k] as int == old(self).motor_out_spec(*rc_data, a, k)
                &&& old(self).update_tele_effect(*rc_data, a, *old(tele), *final(tele))
            },
    {
        self.tick_num = self.tick_num + 1;
        match att {
            Option::Some(a) => {
                let roll_norm: i64 = rc_data.roll();
                let pitch_norm: i64 = rc_data.pitch();
                let yaw_norm: i64 = rc_data.yaw();
                proof {
                    lemma_fx_mul_bound(roll_norm as int, ROLL_RATE as int, 85_000_000, 3_500_000);
                    lemma_fx_mul_bound(pitch_norm as int, PITCH_RATE as int, 85_000_000, 3_500_000);
                    lemma_fx_mul_bound(yaw_norm as int, YAW_RATE as int, 85_000_000, 3_500_000);
                }
                let desired_roll: i64 = fx_mul(roll_norm, ROLL_RATE);
                let desired_pitch: i64 = fx_mul(pitch_norm, PITCH_RATE);
                let desired_yaw: i64 = fx_mul(yaw_norm, YAW_RATE);
                let out_roll: i64 = self.pid_roll.update(desired_roll, -a[0]);
                let out_pitch: i64 = self.pid_pitch.update(desired_pitch, a[1]);
                let out_yaw: i64 = self.pid_yaw.update(desired_yaw, a[2]);
                proof {
                    lemma_fx_mul_bound(out_roll as int, ROLL_MIX_GAIN as int, SCALE as int, SCALE as int);
                    lemma_fx_mul_bound(out_pitch as int, PITCH_MIX_GAIN as int, SCALE as int, SCALE as int);
                    lemma_fx_mul_bound(out_yaw as int, YAW_MIX_GAIN as int, SCALE as int, SCALE as int);
                }
                let pid_roll: i64 = fx_mul(out_roll, ROLL_MIX_GAIN);
                let pid_pitch: i64 = fx_mul(out_pitch, PITCH_MIX_GAIN);
                let pid_yaw: i64 = fx_mul(out_yaw, YAW_MIX_GAIN);
                inputs_to_throttle(
                    self.tick_num,
                    rc_data.throttle(),
                    pid_roll,
                    pid_pitch,
                    pid_yaw,
                    tele,
                )
            },
            Option::None => {
                [0u16; 4]
            },
        }
    }
}

} // verus!
