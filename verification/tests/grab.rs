use leap_grab::constant::{
    GRAB_THRESHOLD, HIGHLIGHTED_ALPHA_PERCENT, NORMAL_ALPHA_PERCENT,
};
use leap_grab::digit_set::DigitSet;
use leap_grab::geometry::{Quat, Vec3};
use leap_grab::grab_gesture::{
    detect_obj_grabbing, update_grab_resource, update_grabbed_obj_transform,
    update_grabbed_obj_transparency, GrabData, IndicatorUpdate, TargetId, TargetMove,
};
use leap_grab::slots::{BoneComponent, BoneType, DigitType, Transform, VisualSlot};

const TARGET: TargetId = TargetId(42);

fn v(x: i32, y: i32, z: i32) -> Vec3 {
    Vec3 { x, y, z }
}

fn at(translation: Vec3) -> Transform {
    Transform { translation, rotation: Quat::identity() }
}

fn slot(digit_type: DigitType, bone_type: BoneType, translation: Vec3) -> VisualSlot {
    VisualSlot {
        visible: true,
        transform: at(translation),
        bone: BoneComponent { digit_type, bone_type },
    }
}

fn tip(digit_type: DigitType, translation: Vec3) -> VisualSlot {
    slot(digit_type, BoneType::Distal, translation)
}

fn hidden(mut slot: VisualSlot) -> VisualSlot {
    slot.visible = false;
    slot
}

fn target_position() -> Vec3 {
    v(100_000, 250_000, 0)
}

/// Thumb, index and middle tips on the target, ring and pinky tips away from it.
fn closed_hand(delta: Vec3) -> Vec<VisualSlot> {
    let t = target_position();
    let p = |x: i32, y: i32, z: i32| v(t.x + x + delta.x, t.y + y + delta.y, t.z + z + delta.z);
    vec![
        slot(DigitType::Thumb, BoneType::Proximal, p(0, 0, 0)),
        tip(DigitType::Thumb, p(-20_000, 0, 1_000)),
        tip(DigitType::Index, p(20_000, 6_000, 1_000)),
        slot(DigitType::Index, BoneType::Intermediate, p(1_000, 0, 0)),
        tip(DigitType::Middle, p(3_000, -9_000, 10_000)),
        tip(DigitType::Ring, p(90_000, 0, 0)),
        tip(DigitType::Pinky, p(0, 120_000, 0)),
    ]
}

fn holding() -> GrabData {
    let mut grab = GrabData::default();
    detect_obj_grabbing(&mut grab, TARGET, &at(target_position()), &closed_hand(v(0, 0, 0)));
    assert_eq!(grab.held_target(), Some(TARGET));
    grab
}

fn members(set: &DigitSet) -> Vec<DigitType> {
    [
        DigitType::Unknown,
        DigitType::Thumb,
        DigitType::Index,
        DigitType::Middle,
        DigitType::Ring,
        DigitType::Pinky,
    ]
    .into_iter()
    .filter(|d| set.contains(*d))
    .collect()
}

#[test]
fn digit_set_starts_empty() {
    let set = DigitSet::new();
    assert!(set.is_empty());
    assert_eq!(set.len(), 0);
    assert!(members(&set).is_empty());
}

#[test]
fn digit_set_holds_each_type_once() {
    let mut set = DigitSet::new();
    set.insert(DigitType::Ring);
    set.insert(DigitType::Thumb);
    set.insert(DigitType::Ring);
    assert!(!set.is_empty());
    assert_eq!(set.len(), 2);
    assert_eq!(members(&set), vec![DigitType::Thumb, DigitType::Ring]);
    set.insert(DigitType::Unknown);
    set.insert(DigitType::Index);
    set.insert(DigitType::Middle);
    set.insert(DigitType::Pinky);
    assert_eq!(set.len(), 6);
}

#[test]
fn grab_starts_idle() {
    let grab = GrabData::default();
    assert_eq!(grab.held_target(), None);
    assert_eq!(grab.previous_target(), None);
    assert_eq!(grab.anchor_at_grab_start(), Vec3::zero());
    assert_eq!(grab.target_position_at_grab_start(), Vec3::zero());
    assert!(grab.participating_digits().is_empty());
}

#[test]
fn threshold_is_three() {
    assert_eq!(GRAB_THRESHOLD, 3);
}

#[test]
fn three_tips_start_a_grab() {
    let mut grab = GrabData::default();
    detect_obj_grabbing(&mut grab, TARGET, &at(target_position()), &closed_hand(v(0, 0, 0)));
    assert_eq!(grab.held_target(), Some(TARGET));
    assert_eq!(grab.previous_target(), None);
    assert_eq!(grab.participating_digits().len(), 3);
    assert_eq!(
        members(&grab.participating_digits()),
        vec![DigitType::Thumb, DigitType::Index, DigitType::Middle]
    );
    assert_eq!(grab.target_position_at_grab_start(), target_position());
    // mean of (-20000, 0, 1000), (20000, 6000, 1000), (3000, -9000, 10000) about the target
    assert_eq!(grab.anchor_at_grab_start(), v(101_000, 249_000, 4_000));
}

#[test]
fn two_tips_start_no_grab() {
    let mut slots = closed_hand(v(0, 0, 0));
    slots[4] = tip(DigitType::Middle, v(0, 0, 0));
    let mut grab = GrabData::default();
    detect_obj_grabbing(&mut grab, TARGET, &at(target_position()), &slots);
    assert_eq!(grab.held_target(), None);
    assert_eq!(grab.previous_target(), None);
    assert!(grab.participating_digits().is_empty());
}

#[test]
fn no_hand_starts_no_grab() {
    let mut grab = GrabData::default();
    detect_obj_grabbing(&mut grab, TARGET, &at(target_position()), &Vec::new());
    assert_eq!(grab.held_target(), None);
    assert!(grab.participating_digits().is_empty());
}

#[test]
fn hidden_slots_are_no_tips() {
    let slots: Vec<VisualSlot> = closed_hand(v(0, 0, 0)).into_iter().map(hidden).collect();
    let mut grab = GrabData::default();
    detect_obj_grabbing(&mut grab, TARGET, &at(target_position()), &slots);
    assert_eq!(grab.held_target(), None);
}

#[test]
fn only_distal_bones_are_tips() {
    let t = target_position();
    let slots = vec![
        slot(DigitType::Thumb, BoneType::Metacarpal, t),
        slot(DigitType::Index, BoneType::Proximal, t),
        slot(DigitType::Middle, BoneType::Intermediate, t),
        slot(DigitType::Ring, BoneType::Unknown, t),
        tip(DigitType::Pinky, t),
        tip(DigitType::Ring, t),
    ];
    let mut grab = GrabData::default();
    detect_obj_grabbing(&mut grab, TARGET, &at(t), &slots);
    assert_eq!(grab.held_target(), None);
}

#[test]
fn tip_at_the_radius_is_off_the_target() {
    let t = target_position();
    let mut slots = vec![
        tip(DigitType::Thumb, v(t.x + 35_000, t.y, t.z)),
        tip(DigitType::Index, v(t.x, t.y - 34_999, t.z)),
        tip(DigitType::Middle, v(t.x, t.y, t.z + 34_999)),
    ];
    let mut grab = GrabData::default();
    detect_obj_grabbing(&mut grab, TARGET, &at(t), &slots);
    assert_eq!(grab.held_target(), None);
    slots[0] = tip(DigitType::Thumb, v(t.x + 34_999, t.y, t.z));
    detect_obj_grabbing(&mut grab, TARGET, &at(t), &slots);
    assert_eq!(grab.held_target(), Some(TARGET));
}

#[test]
fn five_tips_all_take_part() {
    let t = target_position();
    let slots = vec![
        tip(DigitType::Thumb, v(t.x + 10, t.y, t.z)),
        tip(DigitType::Index, v(t.x + 20, t.y, t.z)),
        tip(DigitType::Middle, v(t.x + 30, t.y, t.z)),
        tip(DigitType::Ring, v(t.x + 40, t.y, t.z)),
        tip(DigitType::Pinky, v(t.x + 50, t.y, t.z)),
    ];
    let mut grab = GrabData::default();
    detect_obj_grabbing(&mut grab, TARGET, &at(t), &slots);
    assert_eq!(grab.held_target(), Some(TARGET));
    assert_eq!(grab.participating_digits().len(), 5);
    assert_eq!(grab.anchor_at_grab_start(), v(t.x + 30, t.y, t.z));
}

#[test]
fn tips_of_one_type_take_part_once() {
    let t = target_position();
    let slots = vec![
        tip(DigitType::Index, v(t.x + 10, t.y, t.z)),
        tip(DigitType::Index, v(t.x - 10, t.y, t.z)),
        tip(DigitType::Middle, v(t.x, t.y + 30, t.z)),
    ];
    let mut grab = GrabData::default();
    detect_obj_grabbing(&mut grab, TARGET, &at(t), &slots);
    assert_eq!(grab.held_target(), Some(TARGET));
    assert_eq!(
        members(&grab.participating_digits()),
        vec![DigitType::Index, DigitType::Middle]
    );
    assert_eq!(grab.anchor_at_grab_start(), v(t.x, t.y + 10, t.z));
}

#[test]
fn grab_goes_on_with_three_tips() {
    let mut grab = holding();
    let before = grab;
    let moved = closed_hand(v(2_000, 0, 0));
    detect_obj_grabbing(&mut grab, TargetId(7), &at(target_position()), &moved);
    assert_eq!(grab.held_target(), Some(TARGET));
    assert_eq!(grab.previous_target(), None);
    assert_eq!(grab.anchor_at_grab_start(), before.anchor_at_grab_start());
    assert_eq!(grab.target_position_at_grab_start(), before.target_position_at_grab_start());
    assert_eq!(grab.participating_digits().len(), 3);
}

#[test]
fn two_tips_end_the_grab() {
    let mut grab = holding();
    let mut slots = closed_hand(v(0, 0, 0));
    slots[1] = tip(DigitType::Thumb, v(0, 0, 0));
    detect_obj_grabbing(&mut grab, TARGET, &at(target_position()), &slots);
    assert_eq!(grab.held_target(), None);
    assert_eq!(grab.previous_target(), Some(TARGET));
    assert!(grab.participating_digits().is_empty());
    assert_eq!(grab.participating_digits().len(), 0);
}

#[test]
fn lost_hand_ends_the_grab() {
    let mut grab = holding();
    detect_obj_grabbing(&mut grab, TARGET, &at(target_position()), &Vec::new());
    assert_eq!(grab.held_target(), None);
    assert_eq!(grab.previous_target(), Some(TARGET));
}

#[test]
fn target_out_of_reach_ends_the_grab() {
    let mut grab = holding();
    let away = v(target_position().x + 500_000, target_position().y, 0);
    detect_obj_grabbing(&mut grab, TARGET, &at(away), &closed_hand(v(0, 0, 0)));
    assert_eq!(grab.held_target(), None);
    assert_eq!(grab.previous_target(), Some(TARGET));
}

#[test]
fn grab_after_a_release_forgets_the_previous_target() {
    let mut grab = holding();
    detect_obj_grabbing(&mut grab, TARGET, &at(target_position()), &Vec::new());
    assert_eq!(grab.previous_target(), Some(TARGET));
    detect_obj_grabbing(&mut grab, TargetId(8), &at(target_position()), &closed_hand(v(0, 0, 0)));
    assert_eq!(grab.held_target(), Some(TargetId(8)));
    assert_eq!(grab.previous_target(), None);
    assert_eq!(grab.participating_digits().len(), 3);
}

#[test]
fn update_takes_the_tips_as_given() {
    let t = target_position();
    let far = vec![
        tip(DigitType::Thumb, v(0, 0, 0)),
        tip(DigitType::Index, v(3, 0, 0)),
        tip(DigitType::Pinky, v(0, 9, -3)),
    ];
    let mut grab = GrabData::default();
    update_grab_resource(&mut grab, TARGET, &at(t), &far);
    assert_eq!(grab.held_target(), Some(TARGET));
    assert_eq!(grab.anchor_at_grab_start(), v(1, 3, -1));
    assert_eq!(grab.target_position_at_grab_start(), t);
    assert_eq!(
        members(&grab.participating_digits()),
        vec![DigitType::Thumb, DigitType::Index, DigitType::Pinky]
    );
    update_grab_resource(&mut grab, TARGET, &at(t), &far[..2].to_vec());
    assert_eq!(grab.held_target(), None);
    assert_eq!(grab.previous_target(), Some(TARGET));
}

#[test]
fn idle_grab_moves_nothing() {
    let grab = GrabData::default();
    assert_eq!(update_grabbed_obj_transform(&grab, &closed_hand(v(0, 0, 0))), None);
}

#[test]
fn held_target_stays_while_the_hand_rests() {
    let grab = holding();
    assert_eq!(
        update_grabbed_obj_transform(&grab, &closed_hand(v(0, 0, 0))),
        Some(TargetMove { entity: TARGET, translation: target_position() })
    );
}

#[test]
fn held_target_follows_the_hand() {
    let grab = holding();
    let t = target_position();
    for delta in [v(5_000, -3_000, 1_000), v(-1, -1, -1), v(400_000, 0, -250_000), v(0, 7, 0)] {
        assert_eq!(
            update_grabbed_obj_transform(&grab, &closed_hand(delta)),
            Some(TargetMove {
                entity: TARGET,
                translation: v(t.x + delta.x, t.y + delta.y, t.z + delta.z),
            })
        );
    }
}

#[test]
fn held_target_follows_the_participating_tips_only() {
    let grab = holding();
    let mut slots = closed_hand(v(0, 0, 0));
    // ring and pinky take no part, other bones and hidden slots neither
    slots[5] = tip(DigitType::Ring, target_position());
    slots[6] = tip(DigitType::Pinky, v(0, 0, 0));
    slots[0] = slot(DigitType::Thumb, BoneType::Proximal, v(9, 9, 9));
    slots.push(hidden(tip(DigitType::Index, v(1, 2, 3))));
    assert_eq!(
        update_grabbed_obj_transform(&grab, &slots),
        Some(TargetMove { entity: TARGET, translation: target_position() })
    );
}

#[test]
fn held_target_follows_tips_that_left_the_radius() {
    let grab = holding();
    let t = target_position();
    let delta = v(0, 80_000, 0);
    assert_eq!(
        update_grabbed_obj_transform(&grab, &closed_hand(delta)),
        Some(TargetMove { entity: TARGET, translation: v(t.x, t.y + 80_000, t.z) })
    );
}

#[test]
fn held_target_with_no_tip_tracked() {
    let grab = holding();
    let t = target_position();
    let anchor = grab.anchor_at_grab_start();
    assert_eq!(
        update_grabbed_obj_transform(&grab, &Vec::new()),
        Some(TargetMove {
            entity: TARGET,
            translation: v(t.x - anchor.x, t.y - anchor.y, t.z - anchor.z),
        })
    );
}

#[test]
fn steady_tick_leaves_the_indicator() {
    let idle = GrabData::default();
    assert_eq!(update_grabbed_obj_transparency(&idle, &idle), None);
    let held = holding();
    assert_eq!(update_grabbed_obj_transparency(&held, &held), None);
    let mut later = held;
    detect_obj_grabbing(&mut later, TARGET, &at(target_position()), &closed_hand(v(1, 2, 3)));
    assert_eq!(update_grabbed_obj_transparency(&held, &later), None);
}

#[test]
fn grab_start_highlights_the_indicator() {
    let idle = GrabData::default();
    let held = holding();
    assert_eq!(
        update_grabbed_obj_transparency(&idle, &held),
        Some(IndicatorUpdate { entity: TARGET, alpha_percent: 80 })
    );
    assert_eq!(HIGHLIGHTED_ALPHA_PERCENT, 80);
}

#[test]
fn grab_end_dims_the_indicator() {
    let held = holding();
    let mut released = held;
    detect_obj_grabbing(&mut released, TARGET, &at(target_position()), &Vec::new());
    assert_eq!(
        update_grabbed_obj_transparency(&held, &released),
        Some(IndicatorUpdate { entity: TARGET, alpha_percent: 40 })
    );
    assert_eq!(NORMAL_ALPHA_PERCENT, 40);
    assert_eq!(update_grabbed_obj_transparency(&released, &released), None);
}

#[test]
fn second_grab_highlights_again() {
    let held = holding();
    let mut released = held;
    detect_obj_grabbing(&mut released, TARGET, &at(target_position()), &Vec::new());
    let mut again = released;
    detect_obj_grabbing(&mut again, TARGET, &at(target_position()), &closed_hand(v(0, 0, 0)));
    assert_eq!(
        update_grabbed_obj_transparency(&released, &again),
        Some(IndicatorUpdate { entity: TARGET, alpha_percent: 80 })
    );
}

#[test]
fn digits_take_part_exactly_while_held() {
    let mut grab = GrabData::default();
    let frames = [
        closed_hand(v(0, 0, 0)),
        closed_hand(v(5, 5, 5)),
        Vec::new(),
        Vec::new(),
        closed_hand(v(0, 0, 0)),
        closed_hand(v(0, 300_000, 0)),
    ];
    for slots in frames.iter() {
        detect_obj_grabbing(&mut grab, TARGET, &at(target_position()), slots);
        assert_eq!(grab.held_target().is_some(), !grab.participating_digits().is_empty());
    }
}
