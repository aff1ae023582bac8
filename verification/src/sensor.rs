//! The records of one frame as the tracking device reports them.

use vstd::prelude::*;

use crate::geometry::{Quat, Vec3, QUAT_ONE};

verus! {

/// The chirality that the device reports for a hand.
#[derive(Clone, Copy, Debug, PartialEq, Eq, Structural)]
pub enum HandType {
    Left,
    Right,
}

/// A bone as the device reports it.
#[derive(Clone, Copy, Debug, PartialEq, Eq, Structural)]
pub struct Bone {
    /// The base of the bone, closer to the heart.
    pub prev_joint: Vec3,
    /// The end of the bone, further from the heart.
    pub next_joint: Vec3,
    /// The average width of the flesh around the bone, in micrometres.
    pub width: i32,
    /// Rotation in world space from the forward direction.
    pub rotation: Quat,
}

impl Bone {
    /// Whether the bone has no length and no turn, as the device reports the
    /// metacarpal of a thumb.
    pub open spec fn is_degenerate(self) -> bool {
        self.prev_joint == self.next_joint && self.rotation == (Quat {
            x: 0,
            y: 0,
            z: 0,
            w: QUAT_ONE,
        })
    }
}

/// A digit as the device reports it.
#[derive(Clone, Copy, Debug, PartialEq, Eq, Structural)]
pub struct Digit {
    pub metacarpal: Bone,
    pub proximal: Bone,
    pub intermediate: Bone,
    pub distal: Bone,
    pub is_extended: bool,
}

/// A palm as the device reports it.
#[derive(Clone, Copy, Debug, PartialEq, Eq, Structural)]
pub struct Palm {
    pub position: Vec3,
    pub stabilized_position: Vec3,
    /// Micrometres per second.
    pub velocity: Vec3,
    /// A direction, in billionths.
    pub normal: Vec3,
    pub width: i32,
    pub orientation: Quat,
}

/// A hand as the device reports it.
#[derive(Clone, Copy, Debug, PartialEq, Eq)]
pub struct Hand {
    pub hand_type: HandType,
    /// In thousandths.
    pub confidence: i32,
    /// In microseconds.
    pub visible_time: u64,
    /// In micrometres.
    pub pinch_distance: i32,
    /// In thousandths of a radian.
    pub grab_angle: i32,
    /// In thousandths.
    pub pinch_strength: i32,
    /// In thousandths.
    pub grab_strength: i32,
    pub palm: Palm,
    /// The digits by the device's own position.
    pub digits: [Digit; 5],
    pub arm: Bone,
}

/// What one poll of the device yields.
#[derive(Clone, Debug, PartialEq, Eq)]
pub enum FrameEvent {
    /// The connection to the tracking service changed.
    Connection,
    /// A device was attached, detached or changed.
    Device,
    /// A frame of tracked hands; it may hold none.
    Tracking(Vec<Hand>),
}

/// Why a poll yielded no event.
#[derive(Clone, Copy, Debug, PartialEq, Eq, Structural)]
pub enum PollError {
    /// No event arrived within the timeout.
    Timeout,
    /// The tracking service reported a failure.
    Failed,
}

} // verus!
