use core::ops::Range;
use vstd::prelude::*;

use crate::utils::{lemma_mapped_within, map_in_range, mapped};

verus! {

/// Largest magnitude of a motor power value.
pub const MAX_IN_MOTOR_VALUE: u32 = 255;

/// Smallest (most backward) motor power value.
pub const MIN_IN_MOTOR_VALUE: i16 = -255;

/// Lower end of the PWM input range that a power magnitude is mapped from.
pub const ABS_IN_PWM_START: u32 = 0;

/// Upper end (exclusive) of the PWM input range that a power magnitude is mapped from.
pub const ABS_IN_PWM_END: u32 = 256;

/// Calibrated PWM range used when driving forward: start.
pub const CALIBRATED_PWM_FORWARD_START: u32 = 100;

/// Calibrated PWM range used when driving forward: end (exclusive).
pub const CALIBRATED_PWM_FORWARD_END: u32 = 190;

/// Calibrated PWM range used when driving backward: start.
pub const CALIBRATED_PWM_BACKWARD_START: u32 = 100;

/// Calibrated PWM range used when driving backward: end (exclusive).
pub const CALIBRATED_PWM_BACKWARD_END: u32 = 211;

/// Power applied to the left and right wheel pairs, each in `-255..=255`;
/// a negative value drives backward.
#[derive(Clone, Copy, PartialEq, Eq, Structural, Debug)]
pub struct MotorsPower {
    pub left: i16,
    pub right: i16,
}

/// Whether `v` is an admissible power value for one side.
pub open spec fn power_in_range(v: int) -> bool {
    MIN_IN_MOTOR_VALUE <= v <= MAX_IN_MOTOR_VALUE
}

impl MotorsPower {
    /// Both sides hold admissible power values.
    pub open spec fn wf(self) -> bool {
        power_in_range(self.left as int) && power_in_range(self.right as int)
    }

    /// The command with both directions inverted.
    pub open spec fn reversed_spec(self) -> MotorsPower {
        MotorsPower { left: (-self.left) as i16, right: (-self.right) as i16 }
    }

    /// Both sides stopped.
    pub open spec fn stop_spec() -> MotorsPower {
        MotorsPower { left: 0, right: 0 }
    }

    /// Builds a power command; both values must lie in `-255..=255`.
    pub fn new(left: i16, right: i16) -> (p: MotorsPower)
        requires
            power_in_range(left as int),
            power_in_range(right as int),
        ensures
            p.left == left,
            p.right == right,
            p.wf(),
    {
        MotorsPower { left, right }
    }

    /// Both sides stopped.
    pub fn stop() -> (p: MotorsPower)
        ensures
            p == MotorsPower::stop_spec(),
            p.wf(),
    {
        MotorsPower::new(0, 0)
    }

    /// The same power with both directions inverted.
    pub fn reversed(&self) -> (p: MotorsPower)
        requires
            self.wf(),
        ensures
            p == self.reversed_spec(),
            p.left == -self.left,
            p.right == -self.right,
            p.wf(),
    {
        MotorsPower::new(-self.left, -self.right)
    }
}

/// Reversing an admissible command keeps it admissible, and reversing it
/// twice gives back the command.
pub proof fn lemma_reversed_involution(p: MotorsPower)
    requires
        p.wf(),
    ensures
        p.reversed_spec().wf(),
        p.reversed_spec().reversed_spec() == p,
{
}

/// What one side of the motor driver is told: the level of its direction
/// pin and the PWM duty cycle of its speed pin.
#[derive(Clone, Copy, PartialEq, Eq, Structural, Debug)]
pub enum PwmDuty {
    /// The PWM output is switched fully off.
    FullyOff,
    /// The PWM output is on for `numerator / denominator` of each period.
    Fraction { numerator: u32, denominator: u32 },
}

/// Driver setting for one side of the car.
#[derive(Clone, Copy, PartialEq, Eq, Structural, Debug)]
pub struct WheelDrive {
    /// Level of the forward/backward pin: high drives forward.
    pub direction_high: bool,
    pub duty: PwmDuty,
}

pub open spec fn abs_in_pwm_range() -> Range<u32> {
    Range { start: ABS_IN_PWM_START, end: ABS_IN_PWM_END }
}

pub open spec fn calibrated_forward_range() -> Range<u32> {
    Range { start: CALIBRATED_PWM_FORWARD_START, end: CALIBRATED_PWM_FORWARD_END }
}

pub open spec fn calibrated_backward_range() -> Range<u32> {
    Range { start: CALIBRATED_PWM_BACKWARD_START, end: CALIBRATED_PWM_BACKWARD_END }
}

/// The driver setting for one side given its power: stopped for zero;
/// backward with the magnitude mapped onto the calibrated backward range;
/// forward with `255 - power` mapped onto the calibrated forward range
/// (the driver runs faster at a smaller duty when its direction pin is high).
pub open spec fn wheel_drive_spec(power: int) -> WheelDrive {
    if power == 0 {
        WheelDrive { direction_high: false, duty: PwmDuty::FullyOff }
    } else if power < 0 {
        WheelDrive {
            direction_high: false,
            duty: PwmDuty::Fraction {
                numerator: mapped(-power, abs_in_pwm_range(), calibrated_backward_range()) as u32,
                denominator: MAX_IN_MOTOR_VALUE,
            },
        }
    } else {
        WheelDrive {
            direction_high: true,
            duty: PwmDuty::Fraction {
                numerator: mapped(
                    MAX_IN_MOTOR_VALUE - power,
                    abs_in_pwm_range(),
                    calibrated_forward_range(),
                ) as u32,
                denominator: MAX_IN_MOTOR_VALUE,
            },
        }
    }
}

/// Computes the driver setting of one side for the given power.
pub fn wheel_drive(power: i16) -> (d: WheelDrive)
    requires
        power_in_range(power as int),
    ensures
        d == wheel_drive_spec(power as int),
{
    if power == 0 {
        WheelDrive { direction_high: false, duty: PwmDuty::FullyOff }
    } else if power < 0 {
        let magnitude: u32 = (-power) as u32;
        let fraction = map_in_range(
            magnitude,
            ABS_IN_PWM_START..ABS_IN_PWM_END,
            CALIBRATED_PWM_BACKWARD_START..CALIBRATED_PWM_BACKWARD_END,
        );
        WheelDrive {
            direction_high: false,
            duty: PwmDuty::Fraction { numerator: fraction, denominator: MAX_IN_MOTOR_VALUE },
        }
    } else {
        let magnitude: u32 = power as u32;
        let fraction = map_in_range(
            MAX_IN_MOTOR_VALUE - magnitude,
            ABS_IN_PWM_START..ABS_IN_PWM_END,
            CALIBRATED_PWM_FORWARD_START..CALIBRATED_PWM_FORWARD_END,
        );
        WheelDrive {
            direction_high: true,
            duty: PwmDuty::Fraction { numerator: fraction, denominator: MAX_IN_MOTOR_VALUE },
        }
    }
}

/// A moving side is driven within its calibrated PWM range, with its
/// direction pin high exactly when it moves forward; a stopped side has its
/// PWM switched off. Between two powers in the same direction, the larger
/// magnitude gets a duty at least as large backward and at most as large
/// forward.
pub proof fn lemma_wheel_drive_calibrated(power: int, other: int)
    requires
        power_in_range(power),
        power_in_range(other),
    ensures
        power == 0 ==> wheel_drive_spec(power) == (WheelDrive {
            direction_high: false,
            duty: PwmDuty::FullyOff,
        }),
        power != 0 ==> wheel_drive_spec(power).direction_high == (power > 0),
        power < 0 ==> (wheel_drive_spec(power).duty matches PwmDuty::Fraction { numerator, denominator }
            && denominator == MAX_IN_MOTOR_VALUE
            && CALIBRATED_PWM_BACKWARD_START <= numerator < CALIBRATED_PWM_BACKWARD_END),
        power > 0 ==> (wheel_drive_spec(power).duty matches PwmDuty::Fraction { numerator, denominator }
            && denominator == MAX_IN_MOTOR_VALUE
            && CALIBRATED_PWM_FORWARD_START <= numerator < CALIBRATED_PWM_FORWARD_END),
        other <= power < 0 ==> mapped(-other, abs_in_pwm_range(), calibrated_backward_range())
            >= mapped(-power, abs_in_pwm_range(), calibrated_backward_range()),
        0 < power <= other ==> mapped(
            MAX_IN_MOTOR_VALUE - other,
            abs_in_pwm_range(),
            calibrated_forward_range(),
        ) <= mapped(MAX_IN_MOTOR_VALUE - power, abs_in_pwm_range(), calibrated_forward_range()),
{
    if power < 0 {
        let o = if other < 0 { -other } else { -power };
        lemma_mapped_within(-power, o, abs_in_pwm_range(), calibrated_backward_range());
    } else if power > 0 {
        let o = if other > 0 { MAX_IN_MOTOR_VALUE - other } else { MAX_IN_MOTOR_VALUE - power };
        lemma_mapped_within(o, MAX_IN_MOTOR_VALUE - power, abs_in_pwm_range(), calibrated_forward_range());
    }
}

} // verus!
