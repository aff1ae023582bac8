use vstd::prelude::*;

use crate::constant::{DIGITS_PER_HAND, LEAP_DIGITS_TYPES_ORDER};
use crate::hand_models::bone::MyBone;
use crate::hand_models::digit::MyDigit;
use crate::hand_models::palm::MyPalm;
use crate::sensor::{Hand, HandType};
use crate::slots::DigitType;

verus! {

/// The chirality of a hand of the pose.
#[derive(Clone, Copy, Debug, PartialEq, Eq, Structural)]
pub enum MyHandType {
    Left,
    Right,
}

impl Default for MyHandType {
    fn default() -> (r: MyHandType)
        ensures
            r == MyHandType::Left,
    {
        MyHandType::Left
    }
}

impl From<HandType> for MyHandType {
    fn from(hand_type: HandType) -> (r: MyHandType)
        ensures
            r == MyHandType::spec_from(hand_type),
    {
        match hand_type {
            HandType::Left => MyHandType::Left,
            HandType::Right => MyHandType::Right,
        }
    }
}

impl vstd::std_specs::convert::FromSpecImpl<HandType> for MyHandType {
    open spec fn obeys_from_spec() -> bool {
        true
    }

    open spec fn from_spec(hand_type: HandType) -> MyHandType {
        MyHandType::spec_from(hand_type)
    }
}

impl MyHandType {
    /// What `from` makes of a device record.
    pub open spec fn spec_from(hand_type: HandType) -> MyHandType {
        match hand_type {
            HandType::Left => MyHandType::Left,
            HandType::Right => MyHandType::Right,
        }
    }
}

/// One hand of the pose.
#[derive(Clone, Copy, Debug, PartialEq, Eq)]
pub struct MyHand {
    /// Identifies the chirality of this hand.
    pub type_: MyHandType,
    /// How confident the device is of the pose, in thousandths.
    pub confidence: i32,
    /// The total amount of time this hand has been tracked, in microseconds.
    pub visible_time: u64,
    /// The distance between index finger and thumb, in micrometres.
    pub pinch_distance: i32,
    /// The average angle of fingers to palm, in thousandths of a radian.
    pub grab_angle: i32,
    /// The normalized estimate of the pinch pose, in thousandths.
    pub pinch_strength: i32,
    /// The normalized estimate of the grab pose, in thousandths.
    pub grab_strength: i32,
    /// Additional information associated with the palm.
    pub palm: MyPalm,
    /// The digits; the one at place `k` has the type
    /// `LEAP_DIGITS_TYPES_ORDER[k]`.
    pub digits: [MyDigit; 5],
    /// The arm to which this hand is attached.
    pub arm: MyBone,
}

/// The place of `digit_type` among a hand's digits, if it has one.
pub open spec fn digit_place(digit_type: DigitType) -> Option<int> {
    if LEAP_DIGITS_TYPES_ORDER[0] == digit_type {
        Some(0int)
    } else if LEAP_DIGITS_TYPES_ORDER[1] == digit_type {
        Some(1int)
    } else if LEAP_DIGITS_TYPES_ORDER[2] == digit_type {
        Some(2int)
    } else if LEAP_DIGITS_TYPES_ORDER[3] == digit_type {
        Some(3int)
    } else if LEAP_DIGITS_TYPES_ORDER[4] == digit_type {
        Some(4int)
    } else {
        None
    }
}

impl MyHand {
    /// The left hand of unset parts, never seen.
    pub open spec fn unset() -> MyHand {
        MyHand {
            type_: MyHandType::Left,
            confidence: 0,
            visible_time: 0,
            pinch_distance: 0,
            grab_angle: 0,
            pinch_strength: 0,
            grab_strength: 0,
            palm: MyPalm::unset(),
            digits: [
                MyDigit::unset(),
                MyDigit::unset(),
                MyDigit::unset(),
                MyDigit::unset(),
                MyDigit::unset(),
            ],
            arm: MyBone::unset(),
        }
    }

    /// The digit of the given type, if the hand has one of that type.
    pub open spec fn digit_of(self, digit_type: DigitType) -> Option<MyDigit> {
        match digit_place(digit_type) {
            Some(k) => Some(self.digits[k]),
            None => None,
        }
    }

    /// The digit of the given type.
    pub fn digit(&self, digit_type: DigitType) -> (r: Option<MyDigit>)
        ensures
            r == self.digit_of(digit_type),
    {
        let mut k: usize = 0;
        while k < DIGITS_PER_HAND
            invariant
                k <= DIGITS_PER_HAND,
                forall|p: int| 0 <= p < k ==> LEAP_DIGITS_TYPES_ORDER[p] != digit_type,
            decreases DIGITS_PER_HAND - k,
        {
            if LEAP_DIGITS_TYPES_ORDER[k] == digit_type {
                return Some(self.digits[k]);
            }
            k = k + 1;
        }
        None
    }
}

impl Default for MyHand {
    fn default() -> (r: MyHand)
        ensures
            r == MyHand::unset(),
    {
        MyHand {
            type_: MyHandType::default(),
            confidence: 0,
            visible_time: 0,
            pinch_distance: 0,
            grab_angle: 0,
            pinch_strength: 0,
            grab_strength: 0,
            palm: MyPalm::default(),
            digits: [
                MyDigit::default(),
                MyDigit::default(),
                MyDigit::default(),
                MyDigit::default(),
                MyDigit::default(),
            ],
            arm: MyBone::default(),
        }
    }
}

impl From<Hand> for MyHand {
    fn from(hand: Hand) -> (r: MyHand)
        ensures
            r == MyHand::spec_from(hand),
    {
        let digits = hand.digits;
        let my_digits: [MyDigit; 5] = [
            MyDigit::from(digits[0]),
            MyDigit::from(digits[1]),
            MyDigit::from(digits[2]),
            MyDigit::from(digits[3]),
            MyDigit::from(digits[4]),
        ];

        MyHand {
            type_: MyHandType::from(hand.hand_type),
            confidence: hand.confidence,
            visible_time: hand.visible_time,
            pinch_distance: hand.pinch_distance,
            grab_angle: hand.grab_angle,
            pinch_strength: hand.pinch_strength,
            grab_strength: hand.grab_strength,
            palm: MyPalm::from(hand.palm),
            digits: my_digits,
            arm: MyBone::from(hand.arm),
        }
    }
}

impl vstd::std_specs::convert::FromSpecImpl<Hand> for MyHand {
    open spec fn obeys_from_spec() -> bool {
        true
    }

    open spec fn from_spec(hand: Hand) -> MyHand {
        MyHand::spec_from(hand)
    }
}

impl MyHand {
    /// What `from` makes of a device record.
    pub open spec fn spec_from(hand: Hand) -> MyHand {
        MyHand {
            type_: MyHandType::spec_from(hand.hand_type),
            confidence: hand.confidence,
            visible_time: hand.visible_time,
            pinch_distance: hand.pinch_distance,
            grab_angle: hand.grab_angle,
            pinch_strength: hand.pinch_strength,
            grab_strength: hand.grab_strength,
            palm: MyPalm::spec_from(hand.palm),
            digits: [
                MyDigit::spec_from(hand.digits[0]),
                MyDigit::spec_from(hand.digits[1]),
                MyDigit::spec_from(hand.digits[2]),
                MyDigit::spec_from(hand.digits[3]),
                MyDigit::spec_from(hand.digits[4]),
            ],
            arm: MyBone::spec_from(hand.arm),
        }
    }
}

/// The digits of a converted hand stand in the order thumb, index, middle,
/// ring, pinky: the digit at each place is the device's digit of that place,
/// converted, and it is the digit of the type that the table gives the place.
/// Converting the same record again gives the same hand.
pub proof fn lemma_digits_in_canonical_order(hand: Hand)
    ensures
        LEAP_DIGITS_TYPES_ORDER@ == seq![
            DigitType::Thumb,
            DigitType::Index,
            DigitType::Middle,
            DigitType::Ring,
            DigitType::Pinky,
        ],
        forall|k: int|
            0 <= k < 5 ==> #[trigger] MyHand::spec_from(hand).digits[k] == MyDigit::spec_from(
                hand.digits[k],
            ),
        forall|k: int|
            0 <= k < 5 ==> MyHand::spec_from(hand).digit_of(#[trigger] LEAP_DIGITS_TYPES_ORDER[k])
                == Some(MyDigit::spec_from(hand.digits[k])),
        MyHand::spec_from(hand).digit_of(DigitType::Unknown) is None,
{
    assert(LEAP_DIGITS_TYPES_ORDER@ =~= seq![
        DigitType::Thumb,
        DigitType::Index,
        DigitType::Middle,
        DigitType::Ring,
        DigitType::Pinky,
    ]);
}

/// The metacarpal of a converted thumb is the device's, joint for joint and
/// with its rotation untouched: where the device reports it without length
/// and without turn, so does the pose.
pub proof fn lemma_thumb_metacarpal_kept(hand: Hand)
    ensures
        MyHand::spec_from(hand).digit_of(DigitType::Thumb) is Some,
        MyHand::spec_from(hand).digit_of(DigitType::Thumb)->0.metacarpal == MyBone::spec_from(
            hand.digits[0].metacarpal,
        ),
        MyHand::spec_from(hand).digit_of(DigitType::Thumb)->0.metacarpal.prev_joint
            == hand.digits[0].metacarpal.prev_joint,
        MyHand::spec_from(hand).digit_of(DigitType::Thumb)->0.metacarpal.next_joint
            == hand.digits[0].metacarpal.next_joint,
        MyHand::spec_from(hand).digit_of(DigitType::Thumb)->0.metacarpal.rotation
            == hand.digits[0].metacarpal.rotation,
        hand.digits[0].metacarpal.is_degenerate() ==> MyHand::spec_from(hand).digit_of(
            DigitType::Thumb,
        )->0.metacarpal.is_degenerate(),
{
}

} // verus!
