//! The control loop's per-tick decision: which actuator command this tick
//! issues, from the freshness of the inertial pipeline, the attitude
//! estimate, and the radio data.

use vstd::prelude::*;

verus! {

use crate::motor::{desired_pitch_spec, desired_roll_spec, desired_yaw_spec, MotorInput};
use crate::pid::RATE_LIMIT;
use crate::rc::RcData;
use crate::telemetry::{tele_unchanged, Telemetry};

/// The actuator command one tick issues.
#[derive(Clone, Copy, Debug)]
pub enum MotorCommand {
    /// Four explicit protocol-unit throttle values, one per motor.
    Throttle([u16; 4]),
    /// The protocol's minimum/disarm command on all four motors.
    Minimum,
}

/// One tick of the fixed-rate control loop.
///
/// - Without fresh inertial data this tick issues no command at all and
///   moves no state.
/// - With fresh inertial data but no radio data (failsafe, timeout, or a
///   bad frame cleared the slot), it issues the minimum command — never
///   stale setpoints.
/// - With both, it issues the mixed motor command; when the attitude
///   filter produced no estimate this tick, that command is all-zero
///   (full cutoff, distinct from the minimum command) and no controller
///   state moves.
pub fn control_tick(
    motor: &mut MotorInput,
    tele: &mut Telemetry,
    imu_fresh: bool,
    att: Option<[i64; 3]>,
    rc: Option<&RcData>,
) -> (r: Option<MotorCommand>)
    requires
        old(motor).wf(),
        old(tele).wf(),
        old(motor).tick_num < u64::MAX,
        att is Some ==> imu_fresh,
        att matches Option::Some(a) ==> -RATE_LIMIT <= a[0] <= RATE_LIMIT && -RATE_LIMIT <= a[1]
            <= RATE_LIMIT && -RATE_LIMIT <= a[2] <= RATE_LIMIT,
    ensures
        final(motor).wf(),
        final(tele).wf(),
        !imu_fresh ==> {
            &&& r is None
            &&& *final(motor) == *old(motor)
            &&& tele_unchanged(*old(tele), *final(tele))
        },
        imu_fresh && rc is None ==> {
            &&& r == Option::Some(MotorCommand::Minimum)
            &&& *final(motor) == *old(motor)
            &&& tele_unchanged(*old(tele), *final(tele))
        },
        imu_fresh ==> (rc matches Option::Some(d) ==> {
            &&& final(motor).tick_num == old(motor).tick_num + 1
            &&& match att {
                Option::Some(a) => {
                    &&& r matches Option::Some(MotorCommand::Throttle(v)) && forall|k: int|
                        0 <= k < 4 ==> v@[k] as int == old(motor).motor_out_spec(*d, a, k)
                    &&& final(motor).pid_roll == old(motor).pid_roll.next_spec(
                        desired_roll_spec(*d),
                        -(a[0] as int),
                    )
                    &&& final(motor).pid_pitch == old(motor).pid_pitch.next_spec(
                        desired_pitch_spec(*d),
                        a[1] as int,
                    )
                    &&& final(motor).pid_yaw == old(motor).pid_yaw.next_spec(
                        desired_yaw_spec(*d),
                        a[2] as int,
                    )
                    &&& old(motor).update_tele_effect(*d, a, *old(tele), *final(tele))
                },
                Option::None => {
                    &&& r matches Option::Some(MotorCommand::Throttle(v)) && v@[0] == 0 && v@[1]
                        == 0 && v@[2] == 0 && v@[3] == 0
                    &&& final(motor).pid_roll == old(motor).pid_roll
                    &&& final(motor).pid_pitch == old(motor).pid_pitch
                    &&& final(motor).pid_yaw == old(motor).pid_yaw
                    &&& tele_unchanged(*old(tele), *final(tele))
                },
            }
        }),
{
    if !imu_fresh {
        return Option::None;
    }
    match rc {
        Option::Some(rc_data) => {
            let throttle = motor.update(rc_data, att, tele);
            Option::Some(MotorCommand::Throttle(throttle))
        },
        Option::None => Option::Some(MotorCommand::Minimum),
    }
}

} // verus!
