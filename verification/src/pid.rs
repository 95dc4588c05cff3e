//! Per-axis PID controller: proportional and clamped-integral terms plus a
//! derivative passed through a single-pole low-pass filter, all in fixed
//! point with exact contracts.

use vstd::prelude::*;

verus! {

use crate::fx::{
    clamp_i64,
    clamp_spec,
    fx_div,
    fx_div_spec,
    fx_mul,
    fx_mul_spec,
    lemma_fx_mul_bound,
    lemma_fx_mul_frac,
    lemma_tdiv_exact,
    lemma_tdiv_range,
    SCALE,
};
use vstd::arithmetic::div_mod::{
    lemma_div_by_self,
    lemma_div_is_ordered,
    lemma_div_is_ordered_by_denominator,
};

/// Two pi in fixed point, used for the derivative filter time constant.
pub const TWO_PI: i64 = 6_283_185;

/// Largest gain magnitude a controller accepts (10.0 in fixed point).
pub const GAIN_LIMIT: i64 = 10_000_000;

/// Largest rate magnitude `update` accepts (1000 units/s in fixed point).
pub const RATE_LIMIT: i64 = 1_000_000_000;

/// Shortest supported cycle time (0.0001 s in fixed point).
pub const CYCLE_MIN: i64 = 100;

/// Longest supported cycle time (1 s in fixed point).
pub const CYCLE_MAX: i64 = 1_000_000;

/// The anti-windup clamp on the integral term (10.0 in fixed point).
pub const INTEGRAL_LIMIT: i64 = 10_000_000;

/// Largest magnitude the (filtered) derivative term can reach under the
/// bounds above.
pub const D_BOUND: i64 = 200_000_000_000_000;

/// Lowest derivative-filter cutoff `new` accepts (1 Hz in fixed point).
pub const CUTOFF_MIN: i64 = 1_000_000;

/// Highest derivative-filter cutoff `new` accepts (1000 Hz in fixed point).
pub const CUTOFF_MAX: i64 = 1_000_000_000;

/// Clamp bounds for the controller output.
#[derive(Clone, Copy, Debug)]
pub struct Limits {
    pub min: i64,
    pub max: i64,
}

/// State of the single-pole low-pass filter on the derivative term.
#[derive(Clone, Copy, Debug)]
pub struct LowPassFilterState {
    pub alpha: i64,
    pub prev_d: i64,
}

/// One axis of PID control. The three flight axes each own an independent
/// instance; nothing is shared.
#[derive(Clone, Copy, Debug)]
pub struct Pid {
    pub kp: i64,
    pub ki: i64,
    pub kd: i64,
    pub prev_error: i64,
    pub prev_measured: i64,
    pub cycle_time: i64,
    pub prev_i: i64,
    pub limit_i: i64,
    pub limit_pid: Option<Limits>,
    pub d_lowpass_filter: Option<LowPassFilterState>,
}

/// The filter time constant `1 / (2 pi * freq)` in fixed point.
pub open spec fn rc_constant_spec(freq: int) -> int {
    fx_div_spec(SCALE as int, fx_mul_spec(TWO_PI as int, freq))
}

/// The filter coefficient `dt / (RC + dt)` in fixed point.
pub open spec fn alpha_spec(cycle_time: int, freq: int) -> int {
    fx_div_spec(cycle_time, rc_constant_spec(freq) + cycle_time)
}

impl Pid {
    /// Internal consistency of a controller: gains, cycle time, integral
    /// and filter state all within the ranges the arithmetic needs.
    pub open spec fn wf(self) -> bool {
        &&& 0 <= self.kp <= GAIN_LIMIT
        &&& 0 <= self.ki <= GAIN_LIMIT
        &&& 0 <= self.kd <= GAIN_LIMIT
        &&& CYCLE_MIN <= self.cycle_time <= CYCLE_MAX
        &&& 0 < self.limit_i <= 100_000_000
        &&& -self.limit_i <= self.prev_i <= self.limit_i
        &&& -RATE_LIMIT <= self.prev_measured <= RATE_LIMIT
        &&& -2_000_000_000 <= self.prev_error <= 2_000_000_000
        &&& match self.d_lowpass_filter {
            Option::Some(f) => 0 <= f.alpha <= SCALE && -D_BOUND <= f.prev_d <= D_BOUND,
            Option::None => true,
        }
        &&& match self.limit_pid {
            Option::Some(l) => l.min <= l.max,
            Option::None => true,
        }
    }

    /// The error the controller acts on.
    pub open spec fn error_spec(desired: int, measured: int) -> int {
        desired - measured
    }

    /// The proportional term.
    pub open spec fn p_spec(self, desired: int, measured: int) -> int {
        fx_mul_spec(Self::error_spec(desired, measured), self.kp as int)
    }

    /// The integral term after this call: the accumulated value plus this
    /// cycle's contribution, clamped to the anti-windup window.
    pub open spec fn i_next_spec(self, desired: int, measured: int) -> int {
        clamp_spec(
            self.prev_i + fx_mul_spec(
                fx_mul_spec(Self::error_spec(desired, measured), self.ki as int),
                self.cycle_time as int,
            ),
            -self.limit_i as int,
            self.limit_i as int,
        )
    }

    /// The raw derivative term: the measured rate's change over one cycle,
    /// scaled by the derivative gain, sign flipped.
    pub open spec fn d_raw_spec(self, measured: int) -> int {
        fx_div_spec(
            fx_mul_spec(-self.kd as int, measured - self.prev_measured),
            self.cycle_time as int,
        )
    }

    /// The derivative term after this call: filtered when a low-pass filter
    /// is configured, raw otherwise.
    pub open spec fn d_next_spec(self, measured: int) -> int {
        match self.d_lowpass_filter {
            Option::Some(f) => f.prev_d + fx_mul_spec(
                f.alpha as int,
                self.d_raw_spec(measured) - f.prev_d,
            ),
            Option::None => self.d_raw_spec(measured),
        }
    }

    /// The controller output: the sum of the three terms, clamped when
    /// output limits are configured.
    pub open spec fn output_spec(self, desired: int, measured: int) -> int {
        let sum = self.p_spec(desired, measured) + self.i_next_spec(desired, measured)
            + self.d_next_spec(measured);
        match self.limit_pid {
            Option::Some(l) => clamp_spec(sum, l.min as int, l.max as int),
            Option::None => sum,
        }
    }

    /// The whole controller state after one `update` call with the given
    /// setpoint and measurement.
    pub open spec fn next_spec(self, desired: int, measured: int) -> Pid {
        Pid {
            kp: self.kp,
            ki: self.ki,
            kd: self.kd,
            prev_error: (desired - measured) as i64,
            prev_measured: measured as i64,
            cycle_time: self.cycle_time,
            prev_i: self.i_next_spec(desired, measured) as i64,
            limit_i: self.limit_i,
            limit_pid: self.limit_pid,
            d_lowpass_filter: match self.d_lowpass_filter {
                Option::Some(f) => Option::Some(
                    LowPassFilterState { alpha: f.alpha, prev_d: self.d_next_spec(measured) as i64 },
                ),
                Option::None => Option::None,
            },
        }
    }

    /// A fresh controller with zeroed state. When a derivative-filter
    /// cutoff is given, the filter coefficient is `dt / (RC + dt)` with
    /// `RC = 1 / (2 pi * cutoff)`.
    pub fn new(
        kp: i64,
        ki: i64,
        kd: i64,
        cycle_time: i64,
        limit_pid: Option<Limits>,
        d_filter_cutoff_hz: Option<i64>,
    ) -> (r: Pid)
        requires
            0 <= kp <= GAIN_LIMIT,
            0 <= ki <= GAIN_LIMIT,
            0 <= kd <= GAIN_LIMIT,
            CYCLE_MIN <= cycle_time <= CYCLE_MAX,
            match limit_pid {
                Option::Some(l) => l.min <= l.max,
                Option::None => true,
            },
            match d_filter_cutoff_hz {
                Option::Some(f) => CUTOFF_MIN <= f <= CUTOFF_MAX,
                Option::None => true,
            },
        ensures
            r.wf(),
            r.kp == kp,
            r.ki == ki,
            r.kd == kd,
            r.cycle_time == cycle_time,
            r.prev_error == 0,
            r.prev_measured == 0,
            r.prev_i == 0,
            r.limit_i == INTEGRAL_LIMIT,
            r.limit_pid == limit_pid,
            match d_filter_cutoff_hz {
                Option::Some(f) => r.d_lowpass_filter matches Option::Some(lp)
                    && lp.alpha == alpha_spec(cycle_time as int, f as int) && lp.prev_d == 0,
                Option::None => r.d_lowpass_filter is None,
            },
    {
        let d_lowpass_filter: Option<LowPassFilterState> = match d_filter_cutoff_hz {
            Option::Some(freq) => {
                proof {
                    lemma_fx_mul_bound(TWO_PI as int, freq as int, TWO_PI as int, CUTOFF_MAX as int);
                    assert((TWO_PI as int) * (CUTOFF_MIN as int)
                        <= (TWO_PI as int) * (freq as int)) by (nonlinear_arith)
                        requires
                            CUTOFF_MIN as int <= freq as int,
                    ;
                    lemma_div_is_ordered(
                        (TWO_PI as int) * (CUTOFF_MIN as int),
                        (TWO_PI as int) * (freq as int),
                        SCALE as int,
                    );
                }
                let denom: i64 = fx_mul(TWO_PI, freq);
                let rc_constant: i64 = fx_div(SCALE, denom);
                proof {
                    lemma_tdiv_range(
                        (SCALE as int) * (SCALE as int),
                        denom as int,
                        (SCALE as int) * (SCALE as int),
                    );
                    // alpha = dt / (RC + dt) lies in [0, SCALE]: the
                    // denominator is at least the numerator.
                    lemma_tdiv_range(
                        (cycle_time as int) * (SCALE as int),
                        rc_constant as int + cycle_time as int,
                        (cycle_time as int) * (SCALE as int),
                    );
                    lemma_div_is_ordered_by_denominator(
                        (cycle_time as int) * (SCALE as int),
                        cycle_time as int,
                        rc_constant as int + cycle_time as int,
                    );
                    lemma_tdiv_exact(SCALE as int, cycle_time as int);
                    assert((SCALE as int) * (cycle_time as int)
                        == (cycle_time as int) * (SCALE as int)) by (nonlinear_arith);
                    assert((cycle_time as int) * (SCALE as int) >= 0) by (nonlinear_arith)
                        requires
                            cycle_time as int >= 0,
                    ;
                }
                let alpha: i64 = fx_div(cycle_time, rc_constant + cycle_time);
                Option::Some(LowPassFilterState { alpha, prev_d: 0 })
            },
            Option::None => Option::None,
        };
        Pid {
            kp,
            ki,
            kd,
            prev_error: 0,
            prev_measured: 0,
            cycle_time,
            prev_i: 0,
            limit_i: INTEGRAL_LIMIT,
            limit_pid,
            d_lowpass_filter,
        }
    }

    /// One control step: returns `P + I + D` for the given setpoint and
    /// measurement and advances every piece of internal state. The integral
    /// term never leaves the anti-windup window.
    pub fn update(&mut self, desired_rate: i64, measured_rate: i64) -> (r: i64)
        requires
            old(self).wf(),
            -RATE_LIMIT <= desired_rate <= RATE_LIMIT,
            -RATE_LIMIT <= measured_rate <= RATE_LIMIT,
        ensures
            final(self).wf(),
            r == old(self).output_spec(desired_rate as int, measured_rate as int),
            *final(self) == old(self).next_spec(desired_rate as int, measured_rate as int),
            final(self).prev_error == desired_rate - measured_rate,
            final(self).prev_measured == measured_rate,
            final(self).prev_i == old(self).i_next_spec(desired_rate as int, measured_rate as int),
            -old(self).limit_i <= final(self).prev_i <= old(self).limit_i,
            final(self).kp == old(self).kp,
            final(self).ki == old(self).ki,
            final(self).kd == old(self).kd,
            final(self).cycle_time == old(self).cycle_time,
            final(self).limit_i == old(self).limit_i,
            final(self).limit_pid == old(self).limit_pid,
            match old(self).d_lowpass_filter {
                Option::Some(f) => final(self).d_lowpass_filter matches Option::Some(f2)
                    && f2.alpha == f.alpha && f2.prev_d == old(self).d_next_spec(
                    measured_rate as int,
                ),
                Option::None => final(self).d_lowpass_filter is None,
            },
    {
        let error_rate: i64 = desired_rate - measured_rate;
        proof {
            lemma_fx_mul_bound(error_rate as int, self.kp as int, 2_000_000_000, GAIN_LIMIT as int);
            lemma_fx_mul_bound(error_rate as int, self.ki as int, 2_000_000_000, GAIN_LIMIT as int);
        }
        // P term
        let p: i64 = fx_mul(error_rate, self.kp);
        // I term
        let i_gain: i64 = fx_mul(error_rate, self.ki);
        proof {
            lemma_fx_mul_bound(
                i_gain as int,
                self.cycle_time as int,
                20_000_000_000,
                CYCLE_MAX as int,
            );
        }
        let i_step: i64 = fx_mul(i_gain, self.cycle_time);
        let i: i64 = clamp_i64(self.prev_i + i_step, -self.limit_i, self.limit_i);
        // D term
        let delta: i64 = measured_rate - self.prev_measured;
        proof {
            lemma_fx_mul_bound(-self.kd as int, delta as int, GAIN_LIMIT as int, 2_000_000_000);
        }
        let d_gain: i64 = fx_mul(-self.kd, delta);
        proof {
            lemma_tdiv_range(
                (d_gain as int) * (SCALE as int),
                self.cycle_time as int,
                20_000_000_000_000_000,
            );
            lemma_div_is_ordered_by_denominator(
                20_000_000_000_000_000,
                CYCLE_MIN as int,
                self.cycle_time as int,
            );
        }
        let mut d: i64 = fx_div(d_gain, self.cycle_time);
        match self.d_lowpass_filter {
            Option::Some(f) => {
                let diff: i64 = d - f.prev_d;
                proof {
                    lemma_fx_mul_bound(f.alpha as int, diff as int, SCALE as int, 400_000_000_000_000);
                    lemma_fx_mul_frac(f.alpha as int, diff as int);
                }
                let step: i64 = fx_mul(f.alpha, diff);
                let new_prev_d: i64 = f.prev_d + step;
                self.d_lowpass_filter = Option::Some(
                    LowPassFilterState { alpha: f.alpha, prev_d: new_prev_d },
                );
                d = new_prev_d;
            },
            Option::None => {},
        }
        // state store
        self.prev_measured = measured_rate;
        self.prev_error = error_rate;
        self.prev_i = i;

        let pid: i64 = p + i + d;
        match self.limit_pid {
            Option::Some(limits) => clamp_i64(pid, limits.min, limits.max),
            Option::None => pid,
        }
    }
}

/// Law: under sustained zero error — the setpoint equals the measurement,
/// which has not moved since the last call — and with no integral
/// contribution (`ki == 0`, integral at zero), a filtered controller's
/// output is the decayed derivative-filter state alone. That state's
/// magnitude never grows, and it strictly shrinks while it is above the
/// filter's quantization floor `SCALE / alpha`, so the output converges to
/// zero up to that floor.
pub proof fn lemma_pid_zero_error_decay(s: Pid, v: int)
    requires
        s.wf(),
        s.ki == 0,
        s.prev_i == 0,
        v == s.prev_measured,
        s.d_lowpass_filter is Some,
    ensures
        s.i_next_spec(v, v) == 0,
        s.p_spec(v, v) == 0,
        s.d_raw_spec(v) == 0,
        ({
            let f = s.d_lowpass_filter->Some_0;
            let d2 = s.d_next_spec(v);
            &&& f.prev_d >= 0 ==> 0 <= d2 <= f.prev_d
            &&& f.prev_d <= 0 ==> f.prev_d <= d2 <= 0
            &&& f.alpha * f.prev_d >= SCALE ==> d2 < f.prev_d
            &&& f.alpha * f.prev_d <= -(SCALE as int) ==> d2 > f.prev_d
            &&& s.output_spec(v, v) == match s.limit_pid {
                Option::Some(l) => clamp_spec(d2, l.min as int, l.max as int),
                Option::None => d2,
            }
        }),
{
    let f = s.d_lowpass_filter->Some_0;
    let sc = SCALE as int;
    assert((0 - 0) * (s.ki as int) == 0) by (nonlinear_arith);
    assert(0int * (s.cycle_time as int) == 0) by (nonlinear_arith);
    assert((0 - 0) * (s.kp as int) == 0) by (nonlinear_arith);
    assert((-s.kd as int) * (v - s.prev_measured as int) == 0) by (nonlinear_arith)
        requires
            v == s.prev_measured as int,
    ;
    lemma_tdiv_exact(0, sc);
    assert(0int * sc == 0) by (nonlinear_arith);
    lemma_tdiv_exact(0, s.cycle_time as int);
    assert(0int * (s.cycle_time as int) == 0) by (nonlinear_arith);
    assert(s.d_raw_spec(v) == 0);
    // The filter step moves prev_d toward zero without crossing it.
    lemma_fx_mul_frac(f.alpha as int, 0 - f.prev_d as int);
    // Strict decrease above the quantization floor.
    if f.alpha * f.prev_d >= SCALE {
        assert(f.alpha as int * (0 - f.prev_d as int) == -(f.alpha as int * f.prev_d as int))
            by (nonlinear_arith);
        lemma_div_is_ordered(sc, f.alpha as int * f.prev_d as int, sc);
        lemma_div_by_self(sc);
    }
    if f.alpha * f.prev_d <= -(SCALE as int) {
        assert(f.alpha as int * (0 - f.prev_d as int) == -(f.alpha as int * f.prev_d as int))
            by (nonlinear_arith);
        lemma_div_is_ordered(sc, -(f.alpha as int * f.prev_d as int), sc);
        lemma_div_by_self(sc);
    }
}

} // verus!
