use vstd::prelude::*;

use crate::frame::Point3;

verus! {

/// Number of discrete bands in the emulated sensor stack.
pub const NUM_SENSORS: usize = 6;

/// One frame's worth of sensor output. Entry `i` is true when band `i` (the
/// `i`-th height interval above the configured base) contains a tracked
/// point. Every array produced by this crate has length [`NUM_SENSORS`].
pub type AirSensorData = Vec<bool>;

/// Spatial-mapping parameters for bucketing tracked points into bands.
///
/// Heights are fixed-point integers in thousandths of a millimetre, so a
/// `base_height` of `100_000` puts the bottom of band 0 at 100 mm above the
/// device origin, with height increasing upward.
#[derive(Clone, Copy)]
pub struct AirSensorConfig {
    /// Height of the bottom boundary of band 0.
    pub base_height: i64,
    /// Height of one band; must be positive for bucketing to be defined.
    pub step_height: i64,
    /// When false, only the palm point of each hand is tested.
    pub check_fingers: bool,
}

impl AirSensorConfig {
    /// A configuration is acceptable only with a positive band height:
    /// bucketing divides by `step_height`.
    pub open spec fn wf(self) -> bool {
        0 < self.step_height
    }

    /// Runtime form of [`AirSensorConfig::wf`], used to reject a bad
    /// configuration at acceptance time.
    pub fn is_valid(&self) -> (r: bool)
        ensures
            r == self.wf(),
    {
        0 < self.step_height
    }

    /// Band assigned to height `y`: the floor of `(y - base) / step`, kept
    /// only when it lies in `[0, NUM_SENSORS)`. A height below `base_height`
    /// has a negative band and is excluded, so it is folded into the `None`
    /// branch directly.
    pub open spec fn spec_sensor_index(self, y: int) -> Option<int> {
        if y < self.base_height {
            None
        } else {
            let i = (y - self.base_height) / (self.step_height as int);
            if i < NUM_SENSORS as int {
                Some(i)
            } else {
                None
            }
        }
    }

    /// Band containing the point, or `None` when the point lies outside the
    /// band stack (never an error: such points are simply ignored). A point
    /// exactly on a band boundary belongs to the upper band.
    pub fn sensor_index(&self, pos: &Point3) -> (r: Option<usize>)
        requires
            self.wf(),
        ensures
            match r {
                Some(i) => self.spec_sensor_index(pos.y as int) == Some(i as int) && i
                    < NUM_SENSORS,
                None => self.spec_sensor_index(pos.y as int) is None,
            },
    {
        if pos.y < self.base_height {
            return None;
        }
        let diff_wide: i128 = pos.y as i128 - self.base_height as i128;
        let diff: u128 = diff_wide as u128;
        let step: u128 = self.step_height as u128;
        let q: u128 = diff / step;
        if q < NUM_SENSORS as u128 {
            Some(q as usize)
        } else {
            None
        }
    }

    /// The startup fallback mapping: bands of 25 mm starting 100 mm above the
    /// origin, all points tested.
    pub open spec fn spec_default() -> AirSensorConfig {
        AirSensorConfig { base_height: 100_000, step_height: 25_000, check_fingers: true }
    }
}

impl Default for AirSensorConfig {
    /// Returns [`AirSensorConfig::spec_default`], which is well-formed.
    fn default() -> (r: Self)
        ensures
            r == AirSensorConfig::spec_default(),
            r.wf(),
    {
        AirSensorConfig { base_height: 100_000, step_height: 25_000, check_fingers: true }
    }
}

} // verus!
