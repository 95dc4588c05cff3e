//! Radio-control data: raw channel values, normalized stick positions, and
//! the per-cycle producer decision that enforces the failsafe policy.

use vstd::prelude::*;

verus! {

use crate::fx::{tdiv, tdiv_i64, lemma_tdiv_range, lemma_tdiv_exact, SCALE};
use crate::sbus;

/// Lowest raw channel value the transmitter produces.
pub const RC_MIN: u16 = 240;

/// Highest raw channel value the transmitter produces.
pub const RC_MAX: u16 = 1807;

/// Raw value of the failsafe switch channel at or above which the link is
/// treated as lost.
pub const RC_FAILSAFE: u16 = 1500;

/// Linear map of `val` from the window `[omin, omax]` to `[nmin, nmax]` in
/// fixed point. Values outside the raw window extrapolate; nothing clamps.
pub open spec fn normalize_spec(val: int, omin: int, omax: int, nmin: int, nmax: int) -> int
    recommends
        omin < omax,
{
    nmin + tdiv((nmax - nmin) * (val - omin), omax - omin)
}

/// One decoded radio frame: 16 raw channel values in device units.
/// Immutable once constructed; a newer frame supersedes it whole.
#[derive(Clone, Copy, Debug)]
pub struct RcData(pub [u16; 16]);

impl RcData {
    /// The raw channel values as a sequence.
    pub open spec fn channels(self) -> Seq<u16> {
        self.0@
    }

    /// The roll stick's normalized value (channel 0, `[-1, 1]`).
    pub open spec fn roll_spec(self) -> int {
        normalize_spec(
            self.channels()[0] as int,
            RC_MIN as int,
            RC_MAX as int,
            -(SCALE as int),
            SCALE as int,
        )
    }

    /// The pitch stick's normalized value (channel 1, `[-1, 1]`).
    pub open spec fn pitch_spec(self) -> int {
        normalize_spec(
            self.channels()[1] as int,
            RC_MIN as int,
            RC_MAX as int,
            -(SCALE as int),
            SCALE as int,
        )
    }

    /// The throttle stick's normalized value (channel 2, `[0, 1]`).
    pub open spec fn throttle_spec(self) -> int {
        normalize_spec(self.channels()[2] as int, RC_MIN as int, RC_MAX as int, 0, SCALE as int)
    }

    /// The yaw stick's normalized value (channel 3, `[-1, 1]`).
    pub open spec fn yaw_spec(self) -> int {
        normalize_spec(
            self.channels()[3] as int,
            RC_MIN as int,
            RC_MAX as int,
            -(SCALE as int),
            SCALE as int,
        )
    }

    /// Wraps 16 raw channel values.
    pub fn from_channels(channels: [u16; 16]) -> (r: RcData)
        ensures
            r.channels() == channels@,
    {
        RcData(channels)
    }

    /// Linear map of `val` from `[original_min, original_max]` to
    /// `[new_min, new_max]` fixed point, extrapolating outside the window.
    pub fn normalize(val: u16, original_min: u16, original_max: u16, new_min: i64, new_max: i64)
        -> (r: i64)
        requires
            original_min < original_max,
            -100_000_000 <= new_min <= 100_000_000,
            -100_000_000 <= new_max <= 100_000_000,
        ensures
            r == normalize_spec(
                val as int,
                original_min as int,
                original_max as int,
                new_min as int,
                new_max as int,
            ),
    {
        let span: i64 = (original_max as i64) - (original_min as i64);
        let diff: i64 = (val as i64) - (original_min as i64);
        proof {
            assert(-13_107_000_000_000 <= (new_max - new_min) * (diff as int)
                <= 13_107_000_000_000) by (nonlinear_arith)
                requires
                    -200_000_000 <= new_max - new_min <= 200_000_000,
                    -65535 <= diff as int <= 65535,
            ;
        }
        let num: i64 = (new_max - new_min) * diff;
        new_min + tdiv_i64(num, span)
    }

    /// Roll stick position in `[-1, 1]` fixed point (channel 0).
    pub fn roll(&self) -> (r: i64)
        ensures
            r == self.roll_spec(),
            -85_000_000 <= r <= 85_000_000,
    {
        let r = Self::normalize(self.0[0], RC_MIN, RC_MAX, -SCALE, SCALE);
        proof {
            lemma_tdiv_range(
                2_000_000 * (self.channels()[0] - RC_MIN as int),
                RC_MAX as int - RC_MIN as int,
                131_070_000_000,
            );
        }
        r
    }

    /// Pitch stick position in `[-1, 1]` fixed point (channel 1).
    pub fn pitch(&self) -> (r: i64)
        ensures
            r == self.pitch_spec(),
            -85_000_000 <= r <= 85_000_000,
    {
        let r = Self::normalize(self.0[1], RC_MIN, RC_MAX, -SCALE, SCALE);
        proof {
            lemma_tdiv_range(
                2_000_000 * (self.channels()[1] - RC_MIN as int),
                RC_MAX as int - RC_MIN as int,
                131_070_000_000,
            );
        }
        r
    }

    /// Throttle stick position in `[0, 1]` fixed point (channel 2).
    pub fn throttle(&self) -> (r: i64)
        ensures
            r == self.throttle_spec(),
            -42_000_000 <= r <= 42_000_000,
    {
        let r = Self::normalize(self.0[2], RC_MIN, RC_MAX, 0, SCALE);
        proof {
            lemma_tdiv_range(
                1_000_000 * (self.channels()[2] - RC_MIN as int),
                RC_MAX as int - RC_MIN as int,
                65_535_000_000,
            );
        }
        r
    }

    /// Yaw stick position in `[-1, 1]` fixed point (channel 3).
    pub fn yaw(&self) -> (r: i64)
        ensures
            r == self.yaw_spec(),
            -85_000_000 <= r <= 85_000_000,
    {
        let r = Self::normalize(self.0[3], RC_MIN, RC_MAX, -SCALE, SCALE);
        proof {
            lemma_tdiv_range(
                2_000_000 * (self.channels()[3] - RC_MIN as int),
                RC_MAX as int - RC_MIN as int,
                131_070_000_000,
            );
        }
        r
    }

    /// The raw value of the designated failsafe switch channel (channel 6).
    pub fn swd(&self) -> (r: u16)
        ensures
            r == self.channels()[6],
    {
        self.0[6]
    }

    /// Whether the failsafe switch channel asserts loss of control.
    pub fn is_failsafe(&self) -> (r: bool)
        ensures
            r == (self.channels()[6] >= RC_FAILSAFE),
    {
        self.swd() >= RC_FAILSAFE
    }
}

/// Law: the linear map hits its endpoints exactly — the window's lower
/// bound maps to `nmin` and its upper bound to `nmax`.
pub proof fn lemma_normalize_endpoints(omin: int, omax: int, nmin: int, nmax: int)
    requires
        omin < omax,
    ensures
        normalize_spec(omin, omin, omax, nmin, nmax) == nmin,
        normalize_spec(omax, omin, omax, nmin, nmax) == nmax,
{
    let d = omax - omin;
    assert((nmax - nmin) * (omin - omin) == 0) by (nonlinear_arith);
    lemma_tdiv_exact(0, d);
    assert(0 * d == 0) by (nonlinear_arith);
    lemma_tdiv_exact(nmax - nmin, d);
}

/// What the radio producer does with one read cycle's outcome.
#[derive(Clone, Copy, Debug)]
pub enum RcAction {
    /// A fresh, non-failsafe frame: publish it, superseding the old one.
    Publish(RcData),
    /// Timeout, read error, malformed frame, or failsafe asserted: clear
    /// the published slot so consumers see "no current data".
    Clear,
}

/// The radio producer's decision for one cycle. `read` is the frame the
/// wire delivered, or nothing on a read error or timeout. The slot is
/// cleared — never left stale — unless a well-formed, non-failsafe frame
/// arrived.
pub fn rc_frame_step(read: Option<&[u8; 25]>) -> (r: RcAction)
    ensures
        match r {
            RcAction::Publish(rc) => {
                &&& read is Some
                &&& sbus::valid_frame(read->Some_0@)
                &&& forall|i: int|
                    0 <= i < 16 ==> #[trigger] (rc.channels()[i] as int) == sbus::channel_spec(
                        read->Some_0@,
                        i,
                    )
                &&& rc.channels()[6] < RC_FAILSAFE
            },
            RcAction::Clear => {
                read is Some ==> (sbus::valid_frame(read->Some_0@) ==> sbus::channel_spec(
                    read->Some_0@,
                    6,
                ) >= RC_FAILSAFE)
            },
        },
{
    match read {
        Option::Some(frame) => {
            match sbus::decode_frame(frame) {
                Option::Some(data) => {
                    let rc = RcData::from_channels(data.channels);
                    if rc.is_failsafe() {
                        RcAction::Clear
                    } else {
                        RcAction::Publish(rc)
                    }
                },
                Option::None => RcAction::Clear,
            }
        },
        Option::None => RcAction::Clear,
    }
}

} // verus!
