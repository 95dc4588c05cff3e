//! Inertial sampling support: the sample type and the one-time gyro bias
//! calibrator that turns raw samples into bias-corrected ones.

use vstd::prelude::*;

verus! {

use crate::fx::{lemma_tdiv_range, tdiv, tdiv_i64};

/// Ticks of the fixed-rate sampling loop per second.
pub const IMU_TICK: u64 = 1000;

/// Number of samples the calibration window averages.
pub const CALIBRATION_TICKS: u64 = 2000;

/// Largest gyro-rate magnitude a sample may carry (100 rad/s fixed point).
pub const GYR_LIMIT: i64 = 100_000_000;

/// One inertial sample: gyro rates (rad/s), accelerations (m/s^2), and
/// the optional magnetometer field and temperature, all fixed point.
#[derive(Clone, Copy, Debug)]
pub struct ImuSample {
    pub gyr: [i64; 3],
    pub acc: [i64; 3],
    pub mag: Option<[i64; 3]>,
    pub tmp: Option<i64>,
}

impl ImuSample {
    /// Every gyro axis within the magnitude the calibrator accepts.
    pub open spec fn gyr_bounded(self) -> bool {
        forall|k: int| 0 <= k < 3 ==> -GYR_LIMIT <= #[trigger] self.gyr@[k] <= GYR_LIMIT
    }
}

/// What one calibration step announces.
#[derive(Clone, Copy, Debug)]
pub enum CalStep {
    /// The first sample was discarded; calibration begins.
    Started,
    /// The sample was folded into the bias accumulator.
    Collecting,
    /// The window is complete: the frozen per-axis mean bias, and the
    /// number of samples it averages.
    Calibrated([i64; 3], u64),
    /// A bias-corrected sample, ready to publish.
    Streaming(ImuSample),
}

/// The gyro bias calibrator. Its phases — warmup, collecting, frozen and
/// streaming — are strictly ordered and irreversible: once the bias is
/// frozen it is never recomputed.
#[derive(Clone, Copy, Debug)]
pub struct Calibrator {
    pub ticks: u64,
    pub sum: [i64; 3],
    pub bias: [i64; 3],
}

impl Calibrator {
    /// Samples folded into the accumulator so far.
    pub open spec fn samples(self) -> int {
        if self.ticks == 0 {
            0
        } else if self.ticks > CALIBRATION_TICKS {
            CALIBRATION_TICKS as int
        } else {
            self.ticks - 1
        }
    }

    /// The bias stands frozen and only streaming remains.
    pub open spec fn is_frozen(self) -> bool {
        self.ticks == CALIBRATION_TICKS + 1
    }

    /// Internal consistency: the tick counter never passes the streaming
    /// phase, and the accumulator and bias stay within what bounded
    /// samples can produce.
    pub open spec fn wf(self) -> bool {
        &&& self.ticks <= CALIBRATION_TICKS + 1
        &&& forall|k: int|
            0 <= k < 3 ==> -(self.samples() * GYR_LIMIT) <= #[trigger] self.sum@[k]
                <= self.samples() * GYR_LIMIT
        &&& forall|k: int| 0 <= k < 3 ==> -GYR_LIMIT <= #[trigger] self.bias@[k] <= GYR_LIMIT
    }

    /// The calibrator state after one step with `sample`.
    pub open spec fn next_spec(self, sample: ImuSample) -> Calibrator {
        if self.ticks == 0 {
            Calibrator { ticks: 1, sum: self.sum, bias: self.bias }
        } else if self.ticks < CALIBRATION_TICKS {
            Calibrator {
                ticks: (self.ticks + 1) as u64,
                sum: [
                    (self.sum@[0] + sample.gyr@[0]) as i64,
                    (self.sum@[1] + sample.gyr@[1]) as i64,
                    (self.sum@[2] + sample.gyr@[2]) as i64,
                ],
                bias: self.bias,
            }
        } else if self.ticks == CALIBRATION_TICKS {
            let s0 = (self.sum@[0] + sample.gyr@[0]) as i64;
            let s1 = (self.sum@[1] + sample.gyr@[1]) as i64;
            let s2 = (self.sum@[2] + sample.gyr@[2]) as i64;
            Calibrator {
                ticks: (CALIBRATION_TICKS + 1) as u64,
                sum: [s0, s1, s2],
                bias: [
                    tdiv(s0 as int, CALIBRATION_TICKS as int) as i64,
                    tdiv(s1 as int, CALIBRATION_TICKS as int) as i64,
                    tdiv(s2 as int, CALIBRATION_TICKS as int) as i64,
                ],
            }
        } else {
            self
        }
    }

    /// The warmup-phase state every calibrator starts in.
    pub open spec fn initial_spec() -> Calibrator {
        Calibrator { ticks: 0, sum: [0i64, 0i64, 0i64], bias: [0i64, 0i64, 0i64] }
    }

    /// The calibrator state after feeding `n` identical samples.
    pub open spec fn run_spec(s: Calibrator, sample: ImuSample, n: nat) -> Calibrator
        decreases n,
    {
        if n == 0 {
            s
        } else {
            Self::run_spec(s, sample, (n - 1) as nat).next_spec(sample)
        }
    }

    /// A calibrator at its warmup tick, with nothing accumulated.
    pub fn new() -> (r: Calibrator)
        ensures
            r.wf(),
            r == Calibrator::initial_spec(),
            r.ticks == 0,
            forall|k: int| 0 <= k < 3 ==> #[trigger] r.sum@[k] == 0,
            forall|k: int| 0 <= k < 3 ==> #[trigger] r.bias@[k] == 0,
    {
        let r = Calibrator { ticks: 0, sum: [0i64; 3], bias: [0i64; 3] };
        proof {
            assert(r.sum@ =~= Calibrator::initial_spec().sum@);
            assert(r.bias@ =~= Calibrator::initial_spec().bias@);
            assert(r.sum == Calibrator::initial_spec().sum);
            assert(r.bias == Calibrator::initial_spec().bias);
        }
        r
    }

    /// One sampling tick. The first sample is discarded; the next
    /// `CALIBRATION_TICKS` samples are accumulated, the last of them
    /// freezing the per-axis mean as the bias; every later sample comes
    /// back bias-corrected on the gyro axes, acceleration, magnetometer
    /// and temperature untouched. A failed read is simply not presented
    /// here, so it advances nothing.
    pub fn step(&mut self, sample: &ImuSample) -> (r: CalStep)
        requires
            old(self).wf(),
            sample.gyr_bounded(),
        ensures
            final(self).wf(),
            *final(self) == old(self).next_spec(*sample),
            old(self).ticks == 0 ==> {
                &&& r is Started
                &&& final(self).ticks == 1
                &&& final(self).sum == old(self).sum
                &&& final(self).bias == old(self).bias
            },
            1 <= old(self).ticks < CALIBRATION_TICKS ==> {
                &&& r is Collecting
                &&& final(self).ticks == old(self).ticks + 1
                &&& forall|k: int|
                    0 <= k < 3 ==> #[trigger] final(self).sum@[k] == old(self).sum@[k]
                        + sample.gyr@[k]
                &&& final(self).bias == old(self).bias
            },
            old(self).ticks == CALIBRATION_TICKS ==> {
                &&& final(self).ticks == CALIBRATION_TICKS + 1
                &&& forall|k: int|
                    0 <= k < 3 ==> #[trigger] final(self).sum@[k] == old(self).sum@[k]
                        + sample.gyr@[k]
                &&& forall|k: int|
                    0 <= k < 3 ==> #[trigger] final(self).bias@[k] == tdiv(
                        final(self).sum@[k] as int,
                        CALIBRATION_TICKS as int,
                    )
                &&& r matches CalStep::Calibrated(b, n) && b == final(self).bias && n
                    == CALIBRATION_TICKS
            },
            old(self).is_frozen() ==> {
                &&& *final(self) == *old(self)
                &&& r matches CalStep::Streaming(s) && (forall|k: int|
                    0 <= k < 3 ==> #[trigger] s.gyr@[k] == sample.gyr@[k] - old(self).bias@[k])
                    && s.acc == sample.acc && s.mag == sample.mag && s.tmp == sample.tmp
            },
    {
        if self.ticks == 0 {
            self.ticks = 1;
            CalStep::Started
        } else if self.ticks < CALIBRATION_TICKS {
            self.sum[0] = self.sum[0] + sample.gyr[0];
            self.sum[1] = self.sum[1] + sample.gyr[1];
            self.sum[2] = self.sum[2] + sample.gyr[2];
            self.ticks = self.ticks + 1;
            proof {
                assert(self.sum =~= old(self).next_spec(*sample).sum);
            }
            CalStep::Collecting
        } else if self.ticks == CALIBRATION_TICKS {
            self.sum[0] = self.sum[0] + sample.gyr[0];
            self.sum[1] = self.sum[1] + sample.gyr[1];
            self.sum[2] = self.sum[2] + sample.gyr[2];
            proof {
                lemma_tdiv_range(self.sum@[0] as int, CALIBRATION_TICKS as int, 200_000_000_000);
                lemma_tdiv_range(self.sum@[1] as int, CALIBRATION_TICKS as int, 200_000_000_000);
                lemma_tdiv_range(self.sum@[2] as int, CALIBRATION_TICKS as int, 200_000_000_000);
            }
            self.bias[0] = tdiv_i64(self.sum[0], CALIBRATION_TICKS as i64);
            self.bias[1] = tdiv_i64(self.sum[1], CALIBRATION_TICKS as i64);
            self.bias[2] = tdiv_i64(self.sum[2], CALIBRATION_TICKS as i64);
            self.ticks = self.ticks + 1;
            proof {
                assert(self.sum =~= old(self).next_spec(*sample).sum);
                assert(self.bias =~= old(self).next_spec(*sample).bias);
            }
            CalStep::Calibrated(self.bias, CALIBRATION_TICKS)
        } else {
            let mut gyr: [i64; 3] = [0i64; 3];
            gyr[0] = sample.gyr[0] - self.bias[0];
            gyr[1] = sample.gyr[1] - self.bias[1];
            gyr[2] = sample.gyr[2] - self.bias[2];
            CalStep::Streaming(
                ImuSample { gyr, acc: sample.acc, mag: sample.mag, tmp: sample.tmp },
            )
        }
    }
}

/// Law: a constant gyro reading held through the whole calibration window
/// freezes a bias exactly equal to that reading — the window's sum is
/// `CALIBRATION_TICKS * c`, and its mean divides out with no rounding
/// error.
pub proof fn lemma_constant_bias_exact(c: int)
    ensures
        tdiv((CALIBRATION_TICKS as int) * c, CALIBRATION_TICKS as int) == c,
{
    crate::fx::lemma_tdiv_exact(c, CALIBRATION_TICKS as int);
    assert((CALIBRATION_TICKS as int) * c == c * (CALIBRATION_TICKS as int)) by (nonlinear_arith);
}

/// After the warmup step and `m` collecting steps of one constant sample,
/// the counter reads `m + 1` and the accumulator holds `m` copies of the
/// sample's gyro reading.
proof fn lemma_constant_run_collecting(sample: ImuSample, m: int)
    requires
        sample.gyr_bounded(),
        0 <= m < CALIBRATION_TICKS,
    ensures
        ({
            let r = Calibrator::run_spec(Calibrator::initial_spec(), sample, (m + 1) as nat);
            &&& r.ticks == m + 1
            &&& r.sum@[0] == m * sample.gyr@[0]
            &&& r.sum@[1] == m * sample.gyr@[1]
            &&& r.sum@[2] == m * sample.gyr@[2]
            &&& r.bias@[0] == 0 && r.bias@[1] == 0 && r.bias@[2] == 0
        }),
    decreases m,
{
    let g0 = sample.gyr@[0] as int;
    let g1 = sample.gyr@[1] as int;
    let g2 = sample.gyr@[2] as int;
    if m == 0 {
        assert(0 * g0 == 0 && 0 * g1 == 0 && 0 * g2 == 0) by (nonlinear_arith);
    } else {
        lemma_constant_run_collecting(sample, m - 1);
        assert((m - 1) * g0 + g0 == m * g0 && (m - 1) * g1 + g1 == m * g1 && (m - 1) * g2 + g2
            == m * g2) by (nonlinear_arith);
        assert(-200_000_000_000 <= m * g0 <= 200_000_000_000 && -200_000_000_000 <= m * g1
            <= 200_000_000_000 && -200_000_000_000 <= m * g2 <= 200_000_000_000)
            by (nonlinear_arith)
            requires
                0 <= m <= 2000,
                -(GYR_LIMIT as int) <= g0 <= GYR_LIMIT as int,
                -(GYR_LIMIT as int) <= g1 <= GYR_LIMIT as int,
                -(GYR_LIMIT as int) <= g2 <= GYR_LIMIT as int,
        ;
    }
}

/// Law: from a fresh calibrator, one constant sample held through the
/// warmup tick and the whole collecting window freezes a bias exactly
/// equal to that sample's gyro reading, on every axis.
pub proof fn lemma_constant_calibration(sample: ImuSample)
    requires
        sample.gyr_bounded(),
    ensures
        ({
            let end = Calibrator::run_spec(
                Calibrator::initial_spec(),
                sample,
                (CALIBRATION_TICKS + 1) as nat,
            );
            &&& end.is_frozen()
            &&& end.bias@[0] == sample.gyr@[0]
            &&& end.bias@[1] == sample.gyr@[1]
            &&& end.bias@[2] == sample.gyr@[2]
        }),
{
    let n = CALIBRATION_TICKS as int;
    let g0 = sample.gyr@[0] as int;
    let g1 = sample.gyr@[1] as int;
    let g2 = sample.gyr@[2] as int;
    lemma_constant_run_collecting(sample, n - 1);
    let mid = Calibrator::run_spec(Calibrator::initial_spec(), sample, CALIBRATION_TICKS as nat);
    assert(Calibrator::run_spec(
        Calibrator::initial_spec(),
        sample,
        (CALIBRATION_TICKS + 1) as nat,
    ) == mid.next_spec(sample));
    assert((n - 1) * g0 + g0 == n * g0 && (n - 1) * g1 + g1 == n * g1 && (n - 1) * g2 + g2 == n
        * g2) by (nonlinear_arith);
    assert(-200_000_000_000 <= n * g0 <= 200_000_000_000 && -200_000_000_000 <= n * g1
        <= 200_000_000_000 && -200_000_000_000 <= n * g2 <= 200_000_000_000) by (nonlinear_arith)
        requires
            n == 2000,
            -(GYR_LIMIT as int) <= g0 <= GYR_LIMIT as int,
            -(GYR_LIMIT as int) <= g1 <= GYR_LIMIT as int,
            -(GYR_LIMIT as int) <= g2 <= GYR_LIMIT as int,
    ;
    lemma_constant_bias_exact(g0);
    lemma_constant_bias_exact(g1);
    lemma_constant_bias_exact(g2);
}

} // verus!
