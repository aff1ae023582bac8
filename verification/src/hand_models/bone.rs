use vstd::prelude::*;

use crate::geometry::{Quat, Vec3, QUAT_ONE};
use crate::sensor::Bone;

verus! {

/// One bone of the pose.
#[derive(Clone, Copy, Debug, PartialEq, Eq, Structural)]
pub struct MyBone {
    /// The base of the bone, closer to the heart.
    pub prev_joint: Vec3,
    /// The end of the bone, further from the heart.
    pub next_joint: Vec3,
    /// The average width of the flesh around the bone, in micrometres.
    pub width: i32,
    /// Rotation in world space from the forward direction, as the device
    /// reported it.
    pub rotation: Quat,
}

impl MyBone {
    /// The bone at the origin, without length, width or turn.
    pub open spec fn unset() -> MyBone {
        MyBone {
            prev_joint: Vec3 { x: 0, y: 0, z: 0 },
            next_joint: Vec3 { x: 0, y: 0, z: 0 },
            width: 0,
            rotation: Quat { x: 0, y: 0, z: 0, w: QUAT_ONE },
        }
    }

    /// Whether the bone has no length and no turn, as the device reports the
    /// metacarpal of a thumb.
    pub open spec fn is_degenerate(self) -> bool {
        self.prev_joint == self.next_joint && self.rotation == (Quat {
            x: 0,
            y: 0,
            z: 0,
            w: QUAT_ONE,
        })
    }
}

impl Default for MyBone {
    fn default() -> (r: MyBone)
        ensures
            r == MyBone::unset(),
    {
        MyBone {
            prev_joint: Vec3::zero(),
            next_joint: Vec3::zero(),
            width: 0,
            rotation: Quat::identity(),
        }
    }
}

impl From<Bone> for MyBone {
    fn from(bone: Bone) -> (r: MyBone)
        ensures
            r == MyBone::spec_from(bone),
    {
        MyBone {
            prev_joint: bone.prev_joint,
            next_joint: bone.next_joint,
            width: bone.width,
            rotation: bone.rotation,
        }
    }
}

impl vstd::std_specs::convert::FromSpecImpl<Bone> for MyBone {
    open spec fn obeys_from_spec() -> bool {
        true
    }

    open spec fn from_spec(bone: Bone) -> MyBone {
        MyBone::spec_from(bone)
    }
}

impl MyBone {
    /// What `from` makes of a device record.
    pub open spec fn spec_from(bone: Bone) -> MyBone {
        MyBone {
            prev_joint: bone.prev_joint,
            next_joint: bone.next_joint,
            width: bone.width,
            rotation: bone.rotation,
        }
    }
}

} // verus!
