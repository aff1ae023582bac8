//! A set of digit types.

use vstd::prelude::*;

use crate::slots::DigitType;

verus! {

/// A set of digit types, one flag for each type.
#[derive(Clone, Copy, Debug)]
pub struct DigitSet {
    unknown: bool,
    thumb: bool,
    index: bool,
    middle: bool,
    ring: bool,
    pinky: bool,
}

spec fn with_if(set: Set<DigitType>, flag: bool, digit_type: DigitType) -> Set<DigitType> {
    if flag {
        set.insert(digit_type)
    } else {
        set
    }
}

spec fn one_if(flag: bool) -> nat {
    if flag {
        1
    } else {
        0
    }
}

impl View for DigitSet {
    type V = Set<DigitType>;

    closed spec fn view(&self) -> Set<DigitType> {
        Set::new(|digit_type: DigitType| self.has(digit_type))
    }
}

impl DigitSet {
    spec fn has(self, digit_type: DigitType) -> bool {
        match digit_type {
            DigitType::Unknown => self.unknown,
            DigitType::Thumb => self.thumb,
            DigitType::Index => self.index,
            DigitType::Middle => self.middle,
            DigitType::Ring => self.ring,
            DigitType::Pinky => self.pinky,
        }
    }

    spec fn flags_set(self) -> nat {
        one_if(self.unknown) + one_if(self.thumb) + one_if(self.index) + one_if(self.middle)
            + one_if(self.ring) + one_if(self.pinky)
    }

    proof fn lemma_len(self)
        ensures
            self@.finite(),
            self@.len() == self.flags_set(),
    {
        let s1 = with_if(Set::empty(), self.unknown, DigitType::Unknown);
        let s2 = with_if(s1, self.thumb, DigitType::Thumb);
        let s3 = with_if(s2, self.index, DigitType::Index);
        let s4 = with_if(s3, self.middle, DigitType::Middle);
        let s5 = with_if(s4, self.ring, DigitType::Ring);
        let s6 = with_if(s5, self.pinky, DigitType::Pinky);
        assert(s1.finite() && s1.len() == one_if(self.unknown));
        assert(s2.finite() && s2.len() == s1.len() + one_if(self.thumb));
        assert(s3.finite() && s3.len() == s2.len() + one_if(self.index));
        assert(s4.finite() && s4.len() == s3.len() + one_if(self.middle));
        assert(s5.finite() && s5.len() == s4.len() + one_if(self.ring));
        assert(s6.finite() && s6.len() == s5.len() + one_if(self.pinky));
        assert(self@ =~= s6);
    }

    /// The set without a member.
    pub fn new() -> (r: DigitSet)
        ensures
            r@ == Set::<DigitType>::empty(),
    {
        let r = DigitSet {
            unknown: false,
            thumb: false,
            index: false,
            middle: false,
            ring: false,
            pinky: false,
        };
        assert(r@ =~= Set::<DigitType>::empty());
        r
    }

    /// Makes `digit_type` a member.
    pub fn insert(&mut self, digit_type: DigitType)
        ensures
            final(self)@ == old(self)@.insert(digit_type),
    {
        match digit_type {
            DigitType::Unknown => {
                self.unknown = true;
            },
            DigitType::Thumb => {
                self.thumb = true;
            },
            DigitType::Index => {
                self.index = true;
            },
            DigitType::Middle => {
                self.middle = true;
            },
            DigitType::Ring => {
                self.ring = true;
            },
            DigitType::Pinky => {
                self.pinky = true;
            },
        }
        assert(self@ =~= old(self)@.insert(digit_type));
    }

    /// Whether `digit_type` is a member.
    pub fn contains(&self, digit_type: DigitType) -> (r: bool)
        ensures
            r == self@.contains(digit_type),
    {
        match digit_type {
            DigitType::Unknown => self.unknown,
            DigitType::Thumb => self.thumb,
            DigitType::Index => self.index,
            DigitType::Middle => self.middle,
            DigitType::Ring => self.ring,
            DigitType::Pinky => self.pinky,
        }
    }

    /// The number of members.
    pub fn len(&self) -> (r: usize)
        ensures
            self@.finite(),
            r == self@.len(),
    {
        proof {
            self.lemma_len();
        }
        let mut n: usize = 0;
        if self.unknown {
            n = n + 1;
        }
        if self.thumb {
            n = n + 1;
        }
        if self.index {
            n = n + 1;
        }
        if self.middle {
            n = n + 1;
        }
        if self.ring {
            n = n + 1;
        }
        if self.pinky {
            n = n + 1;
        }
        n
    }

    /// Whether the set has no member.
    pub fn is_empty(&self) -> (r: bool)
        ensures
            r == self@.is_empty(),
    {
        let r = !(self.unknown || self.thumb || self.index || self.middle || self.ring
            || self.pinky);
        proof {
            if r {
                assert(self@ =~= Set::<DigitType>::empty());
            } else {
                let member = if self.unknown {
                    DigitType::Unknown
                } else if self.thumb {
                    DigitType::Thumb
                } else if self.index {
                    DigitType::Index
                } else if self.middle {
                    DigitType::Middle
                } else if self.ring {
                    DigitType::Ring
                } else {
                    DigitType::Pinky
                };
                assert(self@.contains(member));
            }
        }
        r
    }
}

} // verus!
