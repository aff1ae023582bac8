//! One tick of the whole pipeline, in its fixed order.

use vstd::prelude::*;

use crate::constant::{
    BONES_PER_DIGIT, BONES_PER_HAND, LEAP_DIGITS_TYPES_ORDER, POOL_CAPACITY,
};
use crate::display::{bones_count, display_hands, displayed, lemma_no_hands_hide_every_slot};
use crate::geometry::Vec3;
use crate::grab_gesture::{
    detect_obj_grabbing, grab_step, grabbed_obj_move, indicator_update, is_tip,
    lemma_hidden_pool_has_no_tips, tips_near, update_grabbed_obj_transform,
    update_grabbed_obj_transparency, GrabData, GrabState, IndicatorUpdate, TargetId, TargetMove,
};
use crate::hand_models::hand::MyHand;
use crate::pose_store::{pose_of, stored_after, update_hand_data, HandsData};
use crate::sensor::{FrameEvent, Hand, PollError};
use crate::slots::{spawn_hands_entities, unused_slot, Transform, VisualSlot};

verus! {

/// Everything that lasts from tick to tick.
#[derive(Clone, Debug)]
pub struct Pipeline {
    pub hands: HandsData,
    pub slots: Vec<VisualSlot>,
    pub grab: GrabData,
}

/// What a tick asks of the scene.
#[derive(Clone, Copy, Debug, PartialEq, Eq, Structural)]
pub struct TickOutcome {
    /// Where the held target goes, if one is held.
    pub target_move: Option<TargetMove>,
    /// The indicator to change, if the grab changed.
    pub indicator: Option<IndicatorUpdate>,
}

impl Pipeline {
    /// The pipeline before the first tick: no hand stored, a fresh pool, no
    /// grab.
    pub fn new() -> (r: Pipeline)
        ensures
            r.hands.hands@.len() == 0,
            r.slots@.len() == POOL_CAPACITY,
            forall|j: int| 0 <= j < r.slots@.len() ==> r.slots@[j] == unused_slot(),
            r.grab@ == GrabState::idle(),
    {
        Pipeline {
            hands: HandsData::new(),
            slots: spawn_hands_entities(),
            grab: GrabData::default(),
        }
    }

    /// One tick: takes in what the poll yielded, lays the stored pose out over
    /// the pool, lets the detector start or end the grab of the target
    /// `entity`, which stands at `main_gizmo_transform`, and says where a held
    /// target goes and which indicator changes.
    pub fn tick(
        &mut self,
        polled: &Result<FrameEvent, PollError>,
        entity: TargetId,
        main_gizmo_transform: &Transform,
    ) -> (r: TickOutcome)
        ensures
            final(self).hands.hands@ == stored_after(old(self).hands.hands@, *polled),
            final(self).slots@ == displayed(final(self).hands.hands@, old(self).slots@),
            final(self).grab@ == grab_step(
                old(self).grab@,
                entity,
                main_gizmo_transform.translation,
                tips_near(final(self).slots@, main_gizmo_transform.translation),
            ),
            old(self).grab@.wf() ==> final(self).grab@.wf(),
            r.target_move == grabbed_obj_move(final(self).grab@, final(self).slots@),
            r.indicator == indicator_update(old(self).grab@, final(self).grab@),
    {
        let before = self.grab;
        update_hand_data(&mut self.hands, polled);
        display_hands(&self.hands, &mut self.slots);
        detect_obj_grabbing(&mut self.grab, entity, main_gizmo_transform, &self.slots);
        let target_move = update_grabbed_obj_transform(&self.grab, &self.slots);
        let indicator = update_grabbed_obj_transparency(&before, &self.grab);
        TickOutcome { target_move, indicator }
    }
}

/// After the pose was laid out, the finger tips of the pool are the distal
/// bones of the pose that found a slot: every fourth slot of those that the
/// pose fills, at the far joint of the distal bone of its digit.
pub proof fn lemma_tips_are_distal_bones(hands: Seq<MyHand>, before: Seq<VisualSlot>, j: int)
    requires
        0 <= j < before.len(),
    ensures
        is_tip(displayed(hands, before)[j]) <==> j < bones_count(hands) && j % 4 == 3,
        is_tip(displayed(hands, before)[j]) ==> 0 <= j / 20 < hands.len() && 0 <= (j % 20) / 4 < 5,
        is_tip(displayed(hands, before)[j]) ==> displayed(hands, before)[j].transform.translation
            == hands[j / 20].digits[(j % 20) / 4].distal.next_joint,
        is_tip(displayed(hands, before)[j]) ==> displayed(hands, before)[j].bone.digit_type
            == LEAP_DIGITS_TYPES_ORDER[(j % 20) / 4],
{
    assert(BONES_PER_HAND == 20 && BONES_PER_DIGIT == 4);
    assert(bones_count(hands) == hands.len() * 20);
}

/// A tick on a tracking frame without hands leaves no target held: every
/// slot is hidden, so no finger tip is on the target, which starts no grab
/// and ends the one there is.
pub proof fn lemma_no_hands_hold_nothing(
    frame: Seq<Hand>,
    before: Seq<VisualSlot>,
    state: GrabState,
    entity: TargetId,
    target_position: Vec3,
)
    requires
        frame.len() == 0,
    ensures
        tips_near(displayed(pose_of(frame), before), target_position).len() == 0,
        grab_step(
            state,
            entity,
            target_position,
            tips_near(displayed(pose_of(frame), before), target_position),
        ).held_target is None,
{
    lemma_no_hands_hide_every_slot(frame, before);
    lemma_hidden_pool_has_no_tips(
        displayed(pose_of(frame), before),
        target_position,
        Set::empty(),
    );
}

} // verus!
