use leap_grab::geometry::{Quat, Vec3};
use leap_grab::grab_gesture::{IndicatorUpdate, TargetId, TargetMove};
use leap_grab::pipeline::{Pipeline, TickOutcome};
use leap_grab::sensor::{Bone, Digit, FrameEvent, Hand, HandType, Palm, PollError};
use leap_grab::slots::{BoneType, Transform};

const TARGET: TargetId = TargetId(1);

fn target() -> Transform {
    Transform { translation: Vec3 { x: 100_000, y: 250_000, z: 0 }, rotation: Quat::identity() }
}

fn bone_to(next_joint: Vec3) -> Bone {
    Bone {
        prev_joint: Vec3 { x: 0, y: 0, z: 0 },
        next_joint,
        width: 15_000,
        rotation: Quat::identity(),
    }
}

/// A digit whose tip is `reach` micrometres right of the point `(x, y, 0)`
/// and whose other bones end far from the target.
fn digit(x: i32, y: i32, reach: i32) -> Digit {
    let far = Vec3 { x: -900_000, y: -900_000, z: -900_000 };
    Digit {
        metacarpal: bone_to(far),
        proximal: bone_to(far),
        intermediate: bone_to(far),
        distal: bone_to(Vec3 { x: x + reach, y, z: 0 }),
        is_extended: true,
    }
}

/// A hand whose thumb, index and middle tips are close to `(x, y, 0)`.
fn hand_at(x: i32, y: i32) -> Hand {
    Hand {
        hand_type: HandType::Right,
        confidence: 1000,
        visible_time: 10,
        pinch_distance: 0,
        grab_angle: 0,
        pinch_strength: 0,
        grab_strength: 1000,
        palm: Palm {
            position: Vec3::zero(),
            stabilized_position: Vec3::zero(),
            velocity: Vec3::zero(),
            normal: Vec3::zero(),
            width: 0,
            orientation: Quat::identity(),
        },
        digits: [
            digit(x, y, -3_000),
            digit(x, y, 0),
            digit(x, y, 3_000),
            digit(x, y, 200_000),
            digit(x, y, 300_000),
        ],
        arm: bone_to(Vec3::zero()),
    }
}

fn tracking(hands: Vec<Hand>) -> Result<FrameEvent, PollError> {
    Ok(FrameEvent::Tracking(hands))
}

fn visible(pipeline: &Pipeline) -> usize {
    pipeline.slots.iter().filter(|slot| slot.visible).count()
}

#[test]
fn pipeline_starts_with_nothing_to_show() {
    let pipeline = Pipeline::new();
    assert!(pipeline.hands.hands.is_empty());
    assert_eq!(pipeline.slots.len(), 40);
    assert_eq!(visible(&pipeline), 0);
    assert_eq!(pipeline.grab.held_target(), None);
}

#[test]
fn tick_without_hands_hides_every_slot() {
    let mut pipeline = Pipeline::new();
    pipeline.tick(&tracking(vec![hand_at(0, 0), hand_at(5, 5)]), TARGET, &target());
    assert_eq!(visible(&pipeline), 40);
    let outcome = pipeline.tick(&tracking(Vec::new()), TARGET, &target());
    assert_eq!(visible(&pipeline), 0);
    assert_eq!(outcome, TickOutcome { target_move: None, indicator: None });
}

#[test]
fn tick_shows_twenty_slots_a_hand() {
    let mut pipeline = Pipeline::new();
    pipeline.tick(&tracking(vec![hand_at(0, 0)]), TARGET, &target());
    assert_eq!(visible(&pipeline), 20);
    assert!(pipeline.slots[..20].iter().all(|slot| slot.visible));
    assert!(pipeline.slots[20..].iter().all(|slot| !slot.visible));
    pipeline.tick(&tracking(vec![hand_at(0, 0), hand_at(1, 1)]), TARGET, &target());
    assert_eq!(visible(&pipeline), 40);
    pipeline.tick(&tracking(vec![hand_at(0, 0), hand_at(1, 1), hand_at(2, 2)]), TARGET, &target());
    assert_eq!(visible(&pipeline), 40);
}

#[test]
fn tick_through_a_whole_grab() {
    let mut pipeline = Pipeline::new();
    let t = target().translation;

    // the hand is away from the target
    let outcome = pipeline.tick(&tracking(vec![hand_at(0, 0)]), TARGET, &target());
    assert_eq!(outcome, TickOutcome { target_move: None, indicator: None });

    // three tips close around the target
    let outcome = pipeline.tick(&tracking(vec![hand_at(t.x, t.y)]), TARGET, &target());
    assert_eq!(pipeline.grab.held_target(), Some(TARGET));
    assert_eq!(pipeline.grab.participating_digits().len(), 3);
    assert_eq!(pipeline.grab.anchor_at_grab_start(), t);
    assert_eq!(
        outcome,
        TickOutcome {
            target_move: Some(TargetMove { entity: TARGET, translation: t }),
            indicator: Some(IndicatorUpdate { entity: TARGET, alpha_percent: 80 }),
        }
    );

    // the hand moves a little, the target follows
    let frame = tracking(vec![hand_at(t.x + 4_000, t.y - 2_000)]);
    let outcome = pipeline.tick(&frame, TARGET, &target());
    let moved = Vec3 { x: t.x + 4_000, y: t.y - 2_000, z: 0 };
    assert_eq!(
        outcome,
        TickOutcome {
            target_move: Some(TargetMove { entity: TARGET, translation: moved }),
            indicator: None,
        }
    );

    // no event within the timeout: the pose stays, and so does the grab
    let at_moved = Transform { translation: moved, rotation: Quat::identity() };
    let outcome = pipeline.tick(&Err(PollError::Timeout), TARGET, &at_moved);
    assert_eq!(visible(&pipeline), 20);
    assert_eq!(
        outcome,
        TickOutcome {
            target_move: Some(TargetMove { entity: TARGET, translation: moved }),
            indicator: None,
        }
    );

    // other events change nothing either
    let outcome = pipeline.tick(&Ok(FrameEvent::Device), TARGET, &at_moved);
    assert_eq!(outcome.indicator, None);
    let outcome = pipeline.tick(&Ok(FrameEvent::Connection), TARGET, &at_moved);
    assert_eq!(outcome.indicator, None);
    assert_eq!(pipeline.grab.held_target(), Some(TARGET));

    // the hand is gone
    let outcome = pipeline.tick(&tracking(Vec::new()), TARGET, &at_moved);
    assert_eq!(pipeline.grab.held_target(), None);
    assert_eq!(pipeline.grab.previous_target(), Some(TARGET));
    assert_eq!(
        outcome,
        TickOutcome {
            target_move: None,
            indicator: Some(IndicatorUpdate { entity: TARGET, alpha_percent: 40 }),
        }
    );

    // and stays gone
    let outcome = pipeline.tick(&tracking(Vec::new()), TARGET, &at_moved);
    assert_eq!(outcome, TickOutcome { target_move: None, indicator: None });
}

#[test]
fn tick_finds_the_tips_among_the_slots() {
    let mut pipeline = Pipeline::new();
    let t = target().translation;
    pipeline.tick(&tracking(vec![hand_at(t.x, t.y)]), TARGET, &target());
    let tips: Vec<usize> = (0..40)
        .filter(|j| {
            pipeline.slots[*j].visible && pipeline.slots[*j].bone.bone_type == BoneType::Distal
        })
        .collect();
    assert_eq!(tips, vec![3, 7, 11, 15, 19]);
    assert_eq!(pipeline.slots[7].transform.translation, t);
}

#[test]
fn failed_poll_keeps_the_pose() {
    let mut pipeline = Pipeline::new();
    pipeline.tick(&tracking(vec![hand_at(0, 0)]), TARGET, &target());
    let shown = pipeline.slots.clone();
    pipeline.tick(&Err(PollError::Failed), TARGET, &target());
    assert_eq!(pipeline.hands.hands.len(), 1);
    assert_eq!(pipeline.slots, shown);
}
