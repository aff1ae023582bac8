//! The pool of visual slots, one renderable bone each.

use vstd::prelude::*;

use crate::constant::{
    BONES_PER_DIGIT, BONES_PER_HAND, LEAP_BONES_TYPES_ORDER, LEAP_DIGITS_TYPES_ORDER,
    POOL_CAPACITY,
};
use crate::geometry::{Quat, Vec3, QUAT_ONE};

verus! {

/// Which digit of a hand.
#[derive(Clone, Copy, Debug, PartialEq, Eq, Structural)]
pub enum DigitType {
    Unknown,
    Thumb,
    Index,
    Middle,
    Ring,
    Pinky,
}

/// Which bone of a digit.
#[derive(Clone, Copy, Debug, PartialEq, Eq, Structural)]
pub enum BoneType {
    Unknown,
    Metacarpal,
    Proximal,
    Intermediate,
    Distal,
}

/// What a slot shows: which bone of which digit.
#[derive(Clone, Copy, Debug, PartialEq, Eq, Structural)]
pub struct BoneComponent {
    pub digit_type: DigitType,
    pub bone_type: BoneType,
}

/// Where a slot stands.
#[derive(Clone, Copy, Debug, PartialEq, Eq, Structural)]
pub struct Transform {
    pub translation: Vec3,
    pub rotation: Quat,
}

/// One renderable bone of the pool.
#[derive(Clone, Copy, Debug, PartialEq, Eq, Structural)]
pub struct VisualSlot {
    pub visible: bool,
    pub transform: Transform,
    pub bone: BoneComponent,
}

/// The slot that a fresh pool holds at every place: hidden, at the origin,
/// unturned, showing no bone.
pub open spec fn unused_slot() -> VisualSlot {
    VisualSlot {
        visible: false,
        transform: Transform {
            translation: Vec3 { x: 0, y: 0, z: 0 },
            rotation: Quat { x: 0, y: 0, z: 0, w: QUAT_ONE },
        },
        bone: BoneComponent { digit_type: DigitType::Unknown, bone_type: BoneType::Unknown },
    }
}

/// The tag of the slot at place `j` of a filled pool: places run through the
/// hands in turn, within a hand through its digits, within a digit through
/// its bones.
pub open spec fn tag_at(j: int) -> BoneComponent {
    BoneComponent {
        digit_type: LEAP_DIGITS_TYPES_ORDER[(j % (BONES_PER_HAND as int)) / (BONES_PER_DIGIT
            as int)],
        bone_type: LEAP_BONES_TYPES_ORDER[j % (BONES_PER_DIGIT as int)],
    }
}

impl Transform {
    /// The transform of a bone that was never placed.
    pub fn identity() -> (r: Transform)
        ensures
            r == (Transform {
                translation: Vec3 { x: 0, y: 0, z: 0 },
                rotation: Quat { x: 0, y: 0, z: 0, w: QUAT_ONE },
            }),
    {
        Transform { translation: Vec3::zero(), rotation: Quat::identity() }
    }
}

impl BoneComponent {
    /// The tag of the slot at place `j` of a filled pool.
    pub fn at(j: usize) -> (r: BoneComponent)
        ensures
            r == tag_at(j as int),
    {
        let within_hand: usize = j % BONES_PER_HAND;
        BoneComponent {
            digit_type: LEAP_DIGITS_TYPES_ORDER[within_hand / BONES_PER_DIGIT],
            bone_type: LEAP_BONES_TYPES_ORDER[j % BONES_PER_DIGIT],
        }
    }
}

/// A fresh pool: `POOL_CAPACITY` unused slots.
pub fn spawn_hands_entities() -> (slots: Vec<VisualSlot>)
    ensures
        slots@.len() == POOL_CAPACITY,
        forall|j: int| 0 <= j < slots@.len() ==> slots@[j] == unused_slot(),
{
    let mut slots: Vec<VisualSlot> = Vec::new();
    let mut j: usize = 0;
    while j < POOL_CAPACITY
        invariant
            j <= POOL_CAPACITY,
            slots@.len() == j,
            forall|k: int| 0 <= k < slots@.len() ==> slots@[k] == unused_slot(),
        decreases POOL_CAPACITY - j,
    {
        slots.push(
            VisualSlot {
                visible: false,
                transform: Transform::identity(),
                bone: BoneComponent {
                    digit_type: DigitType::Unknown,
                    bone_type: BoneType::Unknown,
                },
            },
        );
        j = j + 1;
    }
    slots
}

} // verus!
