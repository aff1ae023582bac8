//! Lays the stored pose out over the pool of visual slots.

use vstd::prelude::*;

use crate::constant::{BONES_PER_DIGIT, BONES_PER_HAND};
use crate::geometry::quarter_turn_x;
use crate::hand_models::bone::MyBone;
use crate::hand_models::hand::MyHand;
use crate::pose_store::{pose_of, HandsData};
use crate::sensor::Hand;
use crate::slots::{tag_at, BoneComponent, Transform, VisualSlot};

verus! {

/// The bone that place `j` of the pool shows: places run through the hands
/// in turn, within a hand through its digits, within a digit through its
/// bones from the wrist outwards.
pub open spec fn bone_at(hands: Seq<MyHand>, j: int) -> MyBone {
    hands[j / (BONES_PER_HAND as int)].digits[(j % (BONES_PER_HAND as int)) / (BONES_PER_DIGIT
        as int)].bones()[j % (BONES_PER_DIGIT as int)]
}

/// How many places the pose fills.
pub open spec fn bones_count(hands: Seq<MyHand>) -> nat {
    hands.len() * BONES_PER_HAND as nat
}

/// The slot at place `j` after the pose was laid out: where the pose has a
/// bone for the place, the slot shows it, at the bone's far joint and with the
/// bone's rotation turned into the frame of the scene; where it has none, the
/// slot is hidden and otherwise as before.
pub open spec fn placed_slot(hands: Seq<MyHand>, before: VisualSlot, j: int) -> VisualSlot {
    if j < bones_count(hands) {
        VisualSlot {
            visible: true,
            transform: Transform {
                translation: bone_at(hands, j).next_joint,
                rotation: quarter_turn_x(bone_at(hands, j).rotation),
            },
            bone: tag_at(j),
        }
    } else {
        VisualSlot { visible: false, ..before }
    }
}

/// The pool after the pose was laid out over it.
pub open spec fn displayed(hands: Seq<MyHand>, before: Seq<VisualSlot>) -> Seq<VisualSlot> {
    Seq::new(before.len(), |j: int| placed_slot(hands, before[j], j))
}

/// How many of the slots are visible.
pub open spec fn visible_count(slots: Seq<VisualSlot>) -> nat
    decreases slots.len(),
{
    if slots.len() == 0 {
        0
    } else {
        visible_count(slots.drop_last()) + if slots.last().visible {
            1nat
        } else {
            0nat
        }
    }
}

/// Lays the stored pose out over the pool: walks the slots and the bones of
/// the pose together, and hides every slot that is left when the bones have
/// run out.  A pool with fewer slots than bones shows the first bones only.
pub fn display_hands(hands_res: &HandsData, slots: &mut Vec<VisualSlot>)
    ensures
        final(slots)@ == displayed(hands_res.hands@, old(slots)@),
{
    let n: usize = slots.len();
    let hands_len: usize = hands_res.hands.len();
    let mut j: usize = 0;
    while j < n
        invariant
            j <= n,
            n == slots@.len(),
            n == old(slots)@.len(),
            hands_len == hands_res.hands@.len(),
            j <= bones_count(hands_res.hands@),
            forall|k: int|
                0 <= k < j ==> slots@[k] == placed_slot(hands_res.hands@, old(slots)@[k], k),
            forall|k: int| j <= k < n ==> slots@[k] == old(slots)@[k],
        decreases n - j,
    {
        let hand_place: usize = j / BONES_PER_HAND;
        if hand_place >= hands_len {
            hide_rest_meshes(slots, j);
            return ;
        }
        let within_hand: usize = j % BONES_PER_HAND;
        let digit = hands_res.hands[hand_place].digits[within_hand / BONES_PER_DIGIT];
        let bone = digit.bones()[j % BONES_PER_DIGIT];
        slots.set(
            j,
            VisualSlot {
                visible: true,
                transform: Transform {
                    translation: bone.next_joint,
                    rotation: bone.rotation.rotated_quarter_turn_x(),
                },
                bone: BoneComponent::at(j),
            },
        );
        j = j + 1;
    }
}

/// Hides every slot from place `from` on and leaves the others as they are.
pub fn hide_rest_meshes(slots: &mut Vec<VisualSlot>, from: usize)
    ensures
        final(slots)@.len() == old(slots)@.len(),
        forall|k: int|
            0 <= k < from && k < old(slots)@.len() ==> final(slots)@[k] == old(slots)@[k],
        forall|k: int|
            from <= k < old(slots)@.len() ==> final(slots)@[k] == (VisualSlot {
                visible: false,
                ..old(slots)@[k]
            }),
{
    let n: usize = slots.len();
    let mut j: usize = from;
    while j < n
        invariant
            n == slots@.len(),
            n == old(slots)@.len(),
            from <= j,
            forall|k: int| 0 <= k < from && k < n ==> slots@[k] == old(slots)@[k],
            forall|k: int|
                from <= k < j && k < n ==> slots@[k] == (VisualSlot {
                    visible: false,
                    ..old(slots)@[k]
                }),
            forall|k: int| j <= k < n ==> slots@[k] == old(slots)@[k],
        decreases n - j,
    {
        let mut slot = slots[j];
        slot.visible = false;
        slots.set(j, slot);
        j = j + 1;
    }
}

/// How many slots of a pool of `capacity` slots a pose of `hands` hands fills:
/// twenty a hand, and no more than the pool has.
pub open spec fn filled_count(hands: nat, capacity: nat) -> nat {
    if hands * BONES_PER_HAND <= capacity {
        hands * BONES_PER_HAND as nat
    } else {
        capacity
    }
}

proof fn lemma_visible_count_of_prefix(slots: Seq<VisualSlot>, filled: nat)
    requires
        filled <= slots.len(),
        forall|j: int| 0 <= j < slots.len() ==> slots[j].visible == (j < filled),
    ensures
        visible_count(slots) == filled,
    decreases slots.len(),
{
    if slots.len() > 0 {
        let rest = slots.drop_last();
        if filled == slots.len() {
            lemma_visible_count_of_prefix(rest, (filled - 1) as nat);
        } else {
            lemma_visible_count_of_prefix(rest, filled);
        }
    }
}

/// After a tracking frame without hands every slot is hidden, whatever the
/// pool showed before.
pub proof fn lemma_no_hands_hide_every_slot(frame: Seq<Hand>, before: Seq<VisualSlot>)
    requires
        frame.len() == 0,
    ensures
        forall|j: int|
            0 <= j < before.len() ==> !(#[trigger] displayed(pose_of(frame), before)[j]).visible,
        visible_count(displayed(pose_of(frame), before)) == 0,
{
    lemma_visible_count_of_prefix(displayed(pose_of(frame), before), 0);
}

/// After a tracking frame with `N` hands, the first `20 N` slots are visible,
/// or all of them where the pool has fewer; each shows the bone of its place,
/// in the order of hands, digits and bones; every other slot is hidden and
/// otherwise as it was; and the pool has as many slots as before.
pub proof fn lemma_hands_fill_pool_in_order(frame: Seq<Hand>, before: Seq<VisualSlot>)
    ensures
        displayed(pose_of(frame), before).len() == before.len(),
        visible_count(displayed(pose_of(frame), before)) == filled_count(
            frame.len(),
            before.len(),
        ),
        forall|j: int|
            0 <= j < filled_count(frame.len(), before.len()) ==> #[trigger] displayed(
                pose_of(frame),
                before,
            )[j] == (VisualSlot {
                visible: true,
                transform: Transform {
                    translation: bone_at(pose_of(frame), j).next_joint,
                    rotation: quarter_turn_x(bone_at(pose_of(frame), j).rotation),
                },
                bone: tag_at(j),
            }),
        forall|j: int|
            filled_count(frame.len(), before.len()) <= j < before.len() ==> #[trigger] displayed(
                pose_of(frame),
                before,
            )[j] == (VisualSlot { visible: false, ..before[j] }),
{
    lemma_visible_count_of_prefix(
        displayed(pose_of(frame), before),
        filled_count(frame.len(), before.len()),
    );
}

/// Laying the same pose out once more changes nothing.
pub proof fn lemma_display_again_changes_nothing(hands: Seq<MyHand>, before: Seq<VisualSlot>)
    ensures
        displayed(hands, displayed(hands, before)) == displayed(hands, before),
{
    assert(displayed(hands, displayed(hands, before)) =~= displayed(hands, before));
}

/// The bone at a place of the pool is the bone of the place's type in the
/// digit of the place's type in the hand of the place.
pub proof fn lemma_bone_at_matches_tag(hands: Seq<MyHand>, j: int)
    requires
        0 <= j < bones_count(hands),
    ensures
        0 <= j / (BONES_PER_HAND as int) < hands.len(),
        hands[j / (BONES_PER_HAND as int)].digit_of(tag_at(j).digit_type) is Some,
        hands[j / (BONES_PER_HAND as int)].digit_of(tag_at(j).digit_type)->0.bone_of(
            tag_at(j).bone_type,
        ) == Some(bone_at(hands, j)),
{
    assert(BONES_PER_HAND == 20 && BONES_PER_DIGIT == 4);
    assert(bones_count(hands) == hands.len() * 20);
    let place = (j % 20) / 4;
    assert(0 <= place < 5);
    assert(0 <= j % 4 < 4);
}

} // verus!
