use vstd::prelude::*;

use crate::geometry::{Quat, Vec3, QUAT_ONE};
use crate::sensor::Palm;

verus! {

/// The palm of a hand of the pose.
#[derive(Clone, Copy, Debug, PartialEq, Eq, Structural)]
pub struct MyPalm {
    /// The center position of the palm from the device origin.
    pub position: Vec3,
    /// The time-filtered and stabilized position of the palm.
    pub stabilized_position: Vec3,
    /// The rate of change of the palm position, in micrometres per second.
    pub velocity: Vec3,
    /// The normal vector to the palm, in billionths.
    pub normal: Vec3,
    /// The estimated width of the palm when the hand is flat.
    pub width: i32,
    /// The palm's orientation.
    pub orientation: Quat,
}

impl Default for MyPalm {
    fn default() -> (r: MyPalm)
        ensures
            r == MyPalm::unset(),
    {
        MyPalm {
            position: Vec3::zero(),
            stabilized_position: Vec3::zero(),
            velocity: Vec3::zero(),
            normal: Vec3::zero(),
            width: 0,
            orientation: Quat::identity(),
        }
    }
}

impl MyPalm {
    /// The palm at the origin, at rest, without width or turn.
    pub open spec fn unset() -> MyPalm {
        MyPalm {
            position: Vec3 { x: 0, y: 0, z: 0 },
            stabilized_position: Vec3 { x: 0, y: 0, z: 0 },
            velocity: Vec3 { x: 0, y: 0, z: 0 },
            normal: Vec3 { x: 0, y: 0, z: 0 },
            width: 0,
            orientation: Quat { x: 0, y: 0, z: 0, w: QUAT_ONE },
        }
    }
}

impl From<Palm> for MyPalm {
    fn from(palm: Palm) -> (r: MyPalm)
        ensures
            r == MyPalm::spec_from(palm),
    {
        MyPalm {
            position: palm.position,
            stabilized_position: palm.stabilized_position,
            velocity: palm.velocity,
            normal: palm.normal,
            width: palm.width,
            orientation: palm.orientation,
        }
    }
}

impl vstd::std_specs::convert::FromSpecImpl<Palm> for MyPalm {
    open spec fn obeys_from_spec() -> bool {
        true
    }

    open spec fn from_spec(palm: Palm) -> MyPalm {
        MyPalm::spec_from(palm)
    }
}

impl MyPalm {
    /// What `from` makes of a device record.
    pub open spec fn spec_from(palm: Palm) -> MyPalm {
        MyPalm {
            position: palm.position,
            stabilized_position: palm.stabilized_position,
            velocity: palm.velocity,
            normal: palm.normal,
            width: palm.width,
            orientation: palm.orientation,
        }
    }
}

} // verus!
