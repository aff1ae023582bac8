//! The most recent pose: replaced whole by each tracking frame.

use vstd::prelude::*;

use crate::hand_models::hand::MyHand;
use crate::sensor::{FrameEvent, Hand, PollError};

verus! {

/// The hands of the most recent tracking frame, in the order of the frame.
#[derive(Clone, Debug, PartialEq, Eq)]
pub struct HandsData {
    pub hands: Vec<MyHand>,
}

/// The pose that a frame of device hands gives: each hand converted, in the
/// order of the frame.
pub open spec fn pose_of(frame: Seq<Hand>) -> Seq<MyHand> {
    Seq::new(frame.len(), |i: int| MyHand::spec_from(frame[i]))
}

/// The hands that the store holds after a poll that yielded `polled`: those
/// of a tracking frame, and the earlier ones after anything else.
pub open spec fn stored_after(before: Seq<MyHand>, polled: Result<FrameEvent, PollError>) -> Seq<
    MyHand,
> {
    match polled {
        Ok(FrameEvent::Tracking(frame)) => pose_of(frame@),
        _ => before,
    }
}

impl HandsData {
    /// A store that holds no hand.
    pub fn new() -> (r: HandsData)
        ensures
            r.hands@.len() == 0,
    {
        HandsData { hands: Vec::new() }
    }

    /// Puts the hands of `frame` in the place of the stored ones.
    pub fn replace(&mut self, frame: &Vec<Hand>)
        ensures
            final(self).hands@ == pose_of(frame@),
    {
        let mut hands: Vec<MyHand> = Vec::new();
        let mut i: usize = 0;
        while i < frame.len()
            invariant
                i <= frame.len(),
                hands@.len() == i,
                forall|k: int| 0 <= k < i ==> hands@[k] == MyHand::spec_from(frame@[k]),
            decreases frame.len() - i,
        {
            hands.push(MyHand::from(frame[i]));
            i = i + 1;
        }
        self.hands = hands;
    }
}

/// Takes in what one poll of the device yielded.  A tracking frame replaces
/// the stored hands, also where it holds none; a timeout, a failure or any
/// other event leaves them as they are.
pub fn update_hand_data(hands_res: &mut HandsData, polled: &Result<FrameEvent, PollError>)
    ensures
        final(hands_res).hands@ == stored_after(old(hands_res).hands@, *polled),
{
    match polled {
        Ok(FrameEvent::Tracking(frame)) => {
            hands_res.replace(frame);
        },
        _ => {},
    }
}

} // verus!
