use vstd::prelude::*;

use crate::hand_models::bone::MyBone;
use crate::sensor::Digit;
use crate::slots::BoneType;

verus! {

/// One digit of the pose: four bones from the wrist outwards.
#[derive(Clone, Copy, Debug, PartialEq, Eq, Structural)]
pub struct MyDigit {
    /// The finger bone wholly inside the hand.  For a thumb the device
    /// reports it with equal joints and no turn.
    pub metacarpal: MyBone,
    /// The phalange extending from the knuckle.
    pub proximal: MyBone,
    /// The bone between the proximal phalange and the distal phalange.
    pub intermediate: MyBone,
    /// The distal phalange terminating at the finger tip.
    pub distal: MyBone,
    pub is_extended: bool,
}

impl MyDigit {
    /// The digit of four unset bones, not extended.
    pub open spec fn unset() -> MyDigit {
        MyDigit {
            metacarpal: MyBone::unset(),
            proximal: MyBone::unset(),
            intermediate: MyBone::unset(),
            distal: MyBone::unset(),
            is_extended: false,
        }
    }

    /// The bones from the wrist outwards: the order of
    /// `LEAP_BONES_TYPES_ORDER`.
    pub open spec fn spec_bones(&self) -> [MyBone; 4] {
        [self.metacarpal, self.proximal, self.intermediate, self.distal]
    }

    /// The bones from the wrist outwards.
    #[verifier::when_used_as_spec(spec_bones)]
    pub fn bones(&self) -> (r: [MyBone; 4])
        ensures
            r == self.spec_bones(),
    {
        [self.metacarpal, self.proximal, self.intermediate, self.distal]
    }

    /// The bone of the given type, if the digit has one of that type.
    pub open spec fn bone_of(self, bone_type: BoneType) -> Option<MyBone> {
        match bone_type {
            BoneType::Unknown => None,
            BoneType::Metacarpal => Some(self.metacarpal),
            BoneType::Proximal => Some(self.proximal),
            BoneType::Intermediate => Some(self.intermediate),
            BoneType::Distal => Some(self.distal),
        }
    }

    /// The bone of the given type.
    pub fn bone(&self, bone_type: BoneType) -> (r: Option<MyBone>)
        ensures
            r == self.bone_of(bone_type),
    {
        match bone_type {
            BoneType::Unknown => None,
            BoneType::Metacarpal => Some(self.metacarpal),
            BoneType::Proximal => Some(self.proximal),
            BoneType::Intermediate => Some(self.intermediate),
            BoneType::Distal => Some(self.distal),
        }
    }
}

impl Default for MyDigit {
    fn default() -> (r: MyDigit)
        ensures
            r == MyDigit::unset(),
    {
        MyDigit {
            metacarpal: MyBone::default(),
            proximal: MyBone::default(),
            intermediate: MyBone::default(),
            distal: MyBone::default(),
            is_extended: false,
        }
    }
}

impl From<Digit> for MyDigit {
    fn from(digit: Digit) -> (r: MyDigit)
        ensures
            r == MyDigit::spec_from(digit),
    {
        MyDigit {
            metacarpal: MyBone::from(digit.metacarpal),
            proximal: MyBone::from(digit.proximal),
            intermediate: MyBone::from(digit.intermediate),
            distal: MyBone::from(digit.distal),
            is_extended: digit.is_extended,
        }
    }
}

impl vstd::std_specs::convert::FromSpecImpl<Digit> for MyDigit {
    open spec fn obeys_from_spec() -> bool {
        true
    }

    open spec fn from_spec(digit: Digit) -> MyDigit {
        MyDigit::spec_from(digit)
    }
}

impl MyDigit {
    /// What `from` makes of a device record.
    pub open spec fn spec_from(digit: Digit) -> MyDigit {
        MyDigit {
            metacarpal: MyBone::spec_from(digit.metacarpal),
            proximal: MyBone::spec_from(digit.proximal),
            intermediate: MyBone::spec_from(digit.intermediate),
            distal: MyBone::spec_from(digit.distal),
            is_extended: digit.is_extended,
        }
    }
}

} // verus!
