//! The fixed tables and thresholds that every stage shares.

use vstd::prelude::*;

use crate::slots::{BoneType, DigitType};

verus! {

/// The digit type at each position of a hand's digits.  Ingestion and slot
/// placement both index this one table.
pub const LEAP_DIGITS_TYPES_ORDER: [DigitType; 5] = [
    DigitType::Thumb,
    DigitType::Index,
    DigitType::Middle,
    DigitType::Ring,
    DigitType::Pinky,
];

/// The bone type at each position of a digit's bones, from the wrist outwards.
pub const LEAP_BONES_TYPES_ORDER: [BoneType; 4] = [
    BoneType::Metacarpal,
    BoneType::Proximal,
    BoneType::Intermediate,
    BoneType::Distal,
];

/// Digits of one hand.
pub const DIGITS_PER_HAND: usize = 5;

/// Bones of one digit.
pub const BONES_PER_DIGIT: usize = 4;

/// Bones of one hand's digits.
pub const BONES_PER_HAND: usize = DIGITS_PER_HAND * BONES_PER_DIGIT;

/// The most hands the sensor reports in one frame.
pub const MAX_HANDS: usize = 2;

/// Slots of the pool: room for every bone of `MAX_HANDS` hands.
pub const POOL_CAPACITY: usize = MAX_HANDS * BONES_PER_HAND;

/// A finger tip counts as on the target when it is nearer than this: 35 mm.
pub const CAPTURE_RADIUS: u32 = 35_000;

/// A grab needs at least this many finger tips on the target.
pub const GRAB_THRESHOLD: usize = 3;

/// Opacity of the indicator of a held target, in percent.
pub const HIGHLIGHTED_ALPHA_PERCENT: u8 = 80;

/// Opacity of the indicator of a released target, in percent.
pub const NORMAL_ALPHA_PERCENT: u8 = 40;

/// How long one poll of the sensor may wait, in milliseconds.
pub const POLL_TIMEOUT_MS: u64 = 25;

} // verus!
