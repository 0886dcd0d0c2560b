use vstd::prelude::*;

verus! {

/// Which sensors are currently delivering data.
#[derive(Clone, Copy, PartialEq, Eq, Structural, Debug)]
pub struct SystemHealth {
    pub imu_is_up: bool,
    pub baro_is_up: bool,
}

impl SystemHealth {
    /// Both sensors marked down.
    pub fn new() -> (h: SystemHealth)
        ensures
            !h.imu_is_up,
            !h.baro_is_up,
    {
        SystemHealth { imu_is_up: false, baro_is_up: false }
    }

    /// Whether every sensor is up; the health report is a warning
    /// otherwise.
    pub fn all_up(&self) -> (b: bool)
        ensures
            b == (self.imu_is_up && self.baro_is_up),
    {
        self.imu_is_up && self.baro_is_up
    }
}

impl Default for SystemHealth {
    fn default() -> (h: SystemHealth)
        ensures
            !h.imu_is_up,
            !h.baro_is_up,
    {
        SystemHealth::new()
    }
}

/// Records whether the IMU is up; the barometer status is kept.
pub fn update_imu_health(health: &mut SystemHealth, is_up: bool)
    ensures
        final(health).imu_is_up == is_up,
        final(health).baro_is_up == old(health).baro_is_up,
{
    health.imu_is_up = is_up;
}

/// Records whether the barometer is up; the IMU status is kept.
pub fn update_baro_health(health: &mut SystemHealth, is_up: bool)
    ensures
        final(health).baro_is_up == is_up,
        final(health).imu_is_up == old(health).imu_is_up,
{
    health.baro_is_up = is_up;
}

} // verus!
