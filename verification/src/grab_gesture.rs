//! Recognises a grab of the target from the finger tips around it, moves the
//! held target with the hand, and tells when its indicator changes.

use vstd::prelude::*;
use vstd::seq_lib::seq_to_set_is_finite;

use crate::constant::{
    CAPTURE_RADIUS, GRAB_THRESHOLD, HIGHLIGHTED_ALPHA_PERCENT, NORMAL_ALPHA_PERCENT,
};
use crate::digit_set::DigitSet;
use crate::geometry::{
    centroid, centroid_of, coord_mean, coord_sum, displaced, lemma_coord_mean_fits, within_radius,
    Axis, Vec3,
};
use crate::slots::{BoneType, DigitType, Transform, VisualSlot};

verus! {

/// The identity of a target in the scene.
#[derive(Clone, Copy, Debug, PartialEq, Eq, Structural)]
pub struct TargetId(pub u64);

/// The state of the grab, kept from tick to tick.
#[derive(Clone, Copy, Debug)]
pub struct GrabData {
    held_target: Option<TargetId>,
    previous_target: Option<TargetId>,
    anchor_at_grab_start: Vec3,
    target_position_at_grab_start: Vec3,
    participating_digits: DigitSet,
}

/// What a `GrabData` stands for.
pub struct GrabState {
    /// The target that is held, if one is.
    pub held_target: Option<TargetId>,
    /// The target that was held before the last change, if one was.
    pub previous_target: Option<TargetId>,
    /// The centroid of the finger tips that started the grab.
    pub anchor_at_grab_start: Vec3,
    /// Where the target stood when the grab started.
    pub target_position_at_grab_start: Vec3,
    /// The digit types of the finger tips that started the grab.
    pub participating_digits: Set<DigitType>,
}

/// Where a held target goes.
#[derive(Clone, Copy, Debug, PartialEq, Eq, Structural)]
pub struct TargetMove {
    pub entity: TargetId,
    pub translation: Vec3,
}

/// The opacity that the indicator of a target gets.
#[derive(Clone, Copy, Debug, PartialEq, Eq, Structural)]
pub struct IndicatorUpdate {
    pub entity: TargetId,
    pub alpha_percent: u8,
}

impl GrabState {
    /// Digits take part exactly while a target is held.
    pub open spec fn wf(self) -> bool {
        (self.held_target is None) <==> self.participating_digits.is_empty()
    }

    /// The state before any grab.
    pub open spec fn idle() -> GrabState {
        GrabState {
            held_target: None,
            previous_target: None,
            anchor_at_grab_start: Vec3 { x: 0, y: 0, z: 0 },
            target_position_at_grab_start: Vec3 { x: 0, y: 0, z: 0 },
            participating_digits: Set::empty(),
        }
    }
}

/// Whether the slot shows a finger tip: a visible distal bone.
pub open spec fn is_tip(slot: VisualSlot) -> bool {
    slot.visible && slot.bone.bone_type == BoneType::Distal
}

/// Whether the slot shows a finger tip on the target at `target_position`.
pub open spec fn is_tip_near(slot: VisualSlot, target_position: Vec3) -> bool {
    is_tip(slot) && within_radius(
        slot.transform.translation,
        target_position,
        CAPTURE_RADIUS as int,
    )
}

/// Whether the slot shows a finger tip of one of `digits`.
pub open spec fn is_tip_of(slot: VisualSlot, digits: Set<DigitType>) -> bool {
    is_tip(slot) && digits.contains(slot.bone.digit_type)
}

/// The finger tips on the target at `target_position`, in the order of the pool.
pub open spec fn tips_near(slots: Seq<VisualSlot>, target_position: Vec3) -> Seq<VisualSlot> {
    slots.filter(|slot: VisualSlot| is_tip_near(slot, target_position))
}

/// The finger tips of `digits`, in the order of the pool.
pub open spec fn tips_of(slots: Seq<VisualSlot>, digits: Set<DigitType>) -> Seq<VisualSlot> {
    slots.filter(|slot: VisualSlot| is_tip_of(slot, digits))
}

/// Where the slots stand.
pub open spec fn positions(tips: Seq<VisualSlot>) -> Seq<Vec3> {
    Seq::new(tips.len(), |j: int| tips[j].transform.translation)
}

/// The digit type of each slot.
pub open spec fn digit_types(tips: Seq<VisualSlot>) -> Seq<DigitType> {
    Seq::new(tips.len(), |j: int| tips[j].bone.digit_type)
}

/// The grab after a tick on which `tips` are the finger tips on the target
/// `entity`, which stands at `target_position`.
///
/// With no target held, three tips or more start a grab: their centroid is
/// the anchor, their digit types take part, and the target's position is
/// kept.  With a target held, fewer than three tips end the grab: the target
/// becomes the previous one and no digit takes part.  Any other tick leaves
/// the state as it is.
pub open spec fn grab_step(
    state: GrabState,
    entity: TargetId,
    target_position: Vec3,
    tips: Seq<VisualSlot>,
) -> GrabState {
    if state.held_target is None {
        if tips.len() < GRAB_THRESHOLD {
            state
        } else {
            GrabState {
                held_target: Some(entity),
                previous_target: None,
                anchor_at_grab_start: centroid(positions(tips)),
                target_position_at_grab_start: target_position,
                participating_digits: digit_types(tips).to_set(),
            }
        }
    } else {
        if tips.len() >= GRAB_THRESHOLD {
            state
        } else {
            GrabState {
                held_target: None,
                previous_target: state.held_target,
                participating_digits: Set::empty(),
                ..state
            }
        }
    }
}

/// Where the held target goes on a tick with the pool `slots`: from where it
/// stood at the start of the grab, by as much as the centroid of the
/// participating finger tips is away from the anchor.  Nothing where no target
/// is held.
pub open spec fn grabbed_obj_move(state: GrabState, slots: Seq<VisualSlot>) -> Option<
    TargetMove,
> {
    match state.held_target {
        None => None,
        Some(entity) => Some(
            TargetMove {
                entity,
                translation: displaced(
                    state.target_position_at_grab_start,
                    state.anchor_at_grab_start,
                    centroid(positions(tips_of(slots, state.participating_digits))),
                ),
            },
        ),
    }
}

/// The change of an indicator that a tick asks for, from the grab before the
/// tick and after it: none where neither the held nor the previous target
/// differs; the held target's indicator highlighted where one is held; else
/// the previous target's indicator back to normal, where there is one.
pub open spec fn indicator_update(before: GrabState, after: GrabState) -> Option<
    IndicatorUpdate,
> {
    if before.held_target == after.held_target && before.previous_target
        == after.previous_target {
        None
    } else {
        match after.held_target {
            Some(entity) => Some(
                IndicatorUpdate { entity, alpha_percent: HIGHLIGHTED_ALPHA_PERCENT },
            ),
            None => match after.previous_target {
                Some(entity) => Some(
                    IndicatorUpdate { entity, alpha_percent: NORMAL_ALPHA_PERCENT },
                ),
                None => None,
            },
        }
    }
}

impl View for GrabData {
    type V = GrabState;

    closed spec fn view(&self) -> GrabState {
        GrabState {
            held_target: self.held_target,
            previous_target: self.previous_target,
            anchor_at_grab_start: self.anchor_at_grab_start,
            target_position_at_grab_start: self.target_position_at_grab_start,
            participating_digits: self.participating_digits@,
        }
    }
}

impl Default for GrabData {
    fn default() -> (r: GrabData)
        ensures
            r@ == GrabState::idle(),
            r@.wf(),
    {
        GrabData {
            held_target: None,
            previous_target: None,
            anchor_at_grab_start: Vec3::zero(),
            target_position_at_grab_start: Vec3::zero(),
            participating_digits: DigitSet::new(),
        }
    }
}

impl GrabData {
    /// The target that is held, if one is.
    pub fn held_target(&self) -> (r: Option<TargetId>)
        ensures
            r == self@.held_target,
    {
        self.held_target
    }

    /// The target that was held before the last change, if one was.
    pub fn previous_target(&self) -> (r: Option<TargetId>)
        ensures
            r == self@.previous_target,
    {
        self.previous_target
    }

    /// The centroid of the finger tips that started the grab.
    pub fn anchor_at_grab_start(&self) -> (r: Vec3)
        ensures
            r == self@.anchor_at_grab_start,
    {
        self.anchor_at_grab_start
    }

    /// Where the target stood when the grab started.
    pub fn target_position_at_grab_start(&self) -> (r: Vec3)
        ensures
            r == self@.target_position_at_grab_start,
    {
        self.target_position_at_grab_start
    }

    /// The digit types of the finger tips that started the grab.
    pub fn participating_digits(&self) -> (r: DigitSet)
        ensures
            r@ == self@.participating_digits,
    {
        self.participating_digits
    }

    fn clear(&mut self)
        ensures
            final(self)@ == (GrabState {
                held_target: None,
                previous_target: old(self)@.held_target,
                participating_digits: Set::empty(),
                ..old(self)@
            }),
    {
        self.previous_target = self.held_target;
        self.held_target = None;
        self.participating_digits = DigitSet::new();
    }

    fn update(&mut self, entity: TargetId, anchor: Vec3, target_position: Vec3)
        ensures
            final(self)@ == (GrabState {
                held_target: Some(entity),
                previous_target: old(self)@.held_target,
                anchor_at_grab_start: anchor,
                target_position_at_grab_start: target_position,
                ..old(self)@
            }),
    {
        self.previous_target = self.held_target;
        self.held_target = Some(entity);
        self.anchor_at_grab_start = anchor;
        self.target_position_at_grab_start = target_position;
    }
}

fn collect_tips_near(slots: &Vec<VisualSlot>, target_position: &Vec3) -> (tips: Vec<VisualSlot>)
    ensures
        tips@ == tips_near(slots@, *target_position),
{
    let ghost chosen = |slot: VisualSlot| is_tip_near(slot, *target_position);
    let mut tips: Vec<VisualSlot> = Vec::new();
    let mut i: usize = 0;
    proof {
        reveal(Seq::filter);
        assert(slots@.take(0) =~= Seq::<VisualSlot>::empty());
    }
    while i < slots.len()
        invariant
            i <= slots.len(),
            chosen == (|slot: VisualSlot| is_tip_near(slot, *target_position)),
            tips@ == slots@.take(i as int).filter(chosen),
        decreases slots.len() - i,
    {
        let slot = slots[i];
        proof {
            assert(slots@.take(i + 1) =~= slots@.take(i as int).push(slot));
            slots@.take(i as int).lemma_filter_push(slot, chosen);
        }
        if slot.visible && slot.bone.bone_type == BoneType::Distal
            && slot.transform.translation.is_within(target_position, CAPTURE_RADIUS) {
            tips.push(slot);
        }
        i = i + 1;
    }
    proof {
        assert(slots@.take(slots.len() as int) =~= slots@);
    }
    tips
}

fn collect_tips_of(slots: &Vec<VisualSlot>, digits: &DigitSet) -> (tips: Vec<VisualSlot>)
    ensures
        tips@ == tips_of(slots@, digits@),
{
    let ghost chosen = |slot: VisualSlot| is_tip_of(slot, digits@);
    let mut tips: Vec<VisualSlot> = Vec::new();
    let mut i: usize = 0;
    proof {
        reveal(Seq::filter);
        assert(slots@.take(0) =~= Seq::<VisualSlot>::empty());
    }
    while i < slots.len()
        invariant
            i <= slots.len(),
            chosen == (|slot: VisualSlot| is_tip_of(slot, digits@)),
            tips@ == slots@.take(i as int).filter(chosen),
        decreases slots.len() - i,
    {
        let slot = slots[i];
        proof {
            assert(slots@.take(i + 1) =~= slots@.take(i as int).push(slot));
            slots@.take(i as int).lemma_filter_push(slot, chosen);
        }
        if slot.visible && slot.bone.bone_type == BoneType::Distal && digits.contains(
            slot.bone.digit_type,
        ) {
            tips.push(slot);
        }
        i = i + 1;
    }
    proof {
        assert(slots@.take(slots.len() as int) =~= slots@);
    }
    tips
}

fn positions_of(tips: &Vec<VisualSlot>) -> (points: Vec<Vec3>)
    ensures
        points@ == positions(tips@),
{
    let mut points: Vec<Vec3> = Vec::new();
    let mut i: usize = 0;
    while i < tips.len()
        invariant
            i <= tips.len(),
            points@.len() == i,
            forall|j: int| 0 <= j < i ==> points@[j] == tips@[j].transform.translation,
        decreases tips.len() - i,
    {
        points.push(tips[i].transform.translation);
        i = i + 1;
    }
    points
}

fn digits_among(tips: &Vec<VisualSlot>) -> (digits: DigitSet)
    ensures
        digits@ == digit_types(tips@).to_set(),
{
    let mut digits = DigitSet::new();
    let mut i: usize = 0;
    proof {
        assert(digit_types(tips@.take(0)).to_set() =~= Set::<DigitType>::empty());
    }
    while i < tips.len()
        invariant
            i <= tips.len(),
            digits@ == digit_types(tips@.take(i as int)).to_set(),
        decreases tips.len() - i,
    {
        proof {
            let before = digit_types(tips@.take(i as int));
            assert(digit_types(tips@.take(i + 1)) =~= before.push(tips@[i as int].bone.digit_type));
            before.lemma_push_to_set_commute(tips@[i as int].bone.digit_type);
        }
        digits.insert(tips[i].bone.digit_type);
        i = i + 1;
    }
    proof {
        assert(tips@.take(tips.len() as int) =~= tips@);
    }
    digits
}

/// One tick of the detector: finds the finger tips of the pool that are on
/// the target `entity`, which stands at `main_gizmo_transform`, and starts or
/// ends the grab by their number.
pub fn detect_obj_grabbing(
    grab_res: &mut GrabData,
    entity: TargetId,
    main_gizmo_transform: &Transform,
    slots: &Vec<VisualSlot>,
)
    ensures
        final(grab_res)@ == grab_step(
            old(grab_res)@,
            entity,
            main_gizmo_transform.translation,
            tips_near(slots@, main_gizmo_transform.translation),
        ),
        old(grab_res)@.wf() ==> final(grab_res)@.wf(),
{
    let digits_inside_bounds = collect_tips_near(slots, &main_gizmo_transform.translation);
    update_grab_resource(grab_res, entity, main_gizmo_transform, &digits_inside_bounds)
}

/// Starts or ends the grab by the number of finger tips that are on the
/// target.
pub fn update_grab_resource(
    grab_res: &mut GrabData,
    entity: TargetId,
    main_gizmo_transform: &Transform,
    digits_inside_bounds: &Vec<VisualSlot>,
)
    ensures
        final(grab_res)@ == grab_step(
            old(grab_res)@,
            entity,
            main_gizmo_transform.translation,
            digits_inside_bounds@,
        ),
        old(grab_res)@.wf() ==> final(grab_res)@.wf(),
{
    proof {
        if grab_res@.wf() {
            lemma_grab_step_keeps_wf(
                grab_res@,
                entity,
                main_gizmo_transform.translation,
                digits_inside_bounds@,
            );
        }
    }
    match grab_res.held_target {
        None => {
            if digits_inside_bounds.len() < GRAB_THRESHOLD {
                return ;
            }
            let points = positions_of(digits_inside_bounds);
            let fingers_center = centroid_of(&points);
            grab_res.participating_digits = digits_among(digits_inside_bounds);
            grab_res.update(entity, fingers_center, main_gizmo_transform.translation)
        },
        Some(_) => {
            if digits_inside_bounds.len() >= GRAB_THRESHOLD {
                return ;
            }
            grab_res.clear();
        },
    }
}

/// Where the held target goes on this tick.
pub fn update_grabbed_obj_transform(grab_res: &GrabData, slots: &Vec<VisualSlot>) -> (r: Option<
    TargetMove,
>)
    ensures
        r == grabbed_obj_move(grab_res@, slots@),
{
    match grab_res.held_target {
        None => None,
        Some(grabbed_entity) => {
            let tips = collect_tips_of(slots, &grab_res.participating_digits);
            let points = positions_of(&tips);
            let involved_digits_center = centroid_of(&points);
            Some(
                TargetMove {
                    entity: grabbed_entity,
                    translation: grab_res.target_position_at_grab_start.displaced_by(
                        &grab_res.anchor_at_grab_start,
                        &involved_digits_center,
                    ),
                },
            )
        },
    }
}

/// The change of an indicator that this tick asks for, from the grab as it
/// was before the tick and as it is now.
pub fn update_grabbed_obj_transparency(before: &GrabData, grab_res: &GrabData) -> (r: Option<
    IndicatorUpdate,
>)
    ensures
        r == indicator_update(before@, grab_res@),
{
    if before.held_target == grab_res.held_target && before.previous_target
        == grab_res.previous_target {
        return None;
    }
    match grab_res.held_target {
        Some(grab_entity) => Some(
            IndicatorUpdate { entity: grab_entity, alpha_percent: HIGHLIGHTED_ALPHA_PERCENT },
        ),
        None => match grab_res.previous_target {
            None => None,
            Some(previous_entity) => Some(
                IndicatorUpdate { entity: previous_entity, alpha_percent: NORMAL_ALPHA_PERCENT },
            ),
        },
    }
}

/// The coordinate along `axis` of where the held target goes, before it is
/// held within the range of `i32`.
pub open spec fn exact_move(state: GrabState, slots: Seq<VisualSlot>, axis: Axis) -> int {
    state.target_position_at_grab_start.coord(axis) + (coord_mean(
        positions(tips_of(slots, state.participating_digits)),
        axis,
    ) - state.anchor_at_grab_start.coord(axis))
}

/// Digits take part exactly while a target is held: a tick keeps that so.
pub proof fn lemma_grab_step_keeps_wf(
    state: GrabState,
    entity: TargetId,
    target_position: Vec3,
    tips: Seq<VisualSlot>,
)
    requires
        state.wf(),
    ensures
        grab_step(state, entity, target_position, tips).wf(),
{
    let after = grab_step(state, entity, target_position, tips);
    if state.held_target is None {
        if tips.len() >= GRAB_THRESHOLD {
            assert(digit_types(tips).contains(digit_types(tips)[0]));
            assert(after.participating_digits.contains(digit_types(tips)[0]));
            assert(!after.participating_digits.is_empty());
        } else {
            assert(after == state);
        }
    } else {
        if tips.len() >= GRAB_THRESHOLD {
            assert(after == state);
        } else {
            assert(after.participating_digits.is_empty());
        }
    }
}

/// A pool without a visible slot has no finger tip: with no hand tracked, no
/// tip is on any target and none is of any digit.
pub proof fn lemma_hidden_pool_has_no_tips(
    slots: Seq<VisualSlot>,
    target_position: Vec3,
    digits: Set<DigitType>,
)
    requires
        forall|j: int| 0 <= j < slots.len() ==> !(#[trigger] slots[j]).visible,
    ensures
        tips_near(slots, target_position).len() == 0,
        tips_of(slots, digits).len() == 0,
{
    slots.lemma_all_neg_filter_empty(|slot: VisualSlot| is_tip_near(slot, target_position));
    slots.lemma_all_neg_filter_empty(|slot: VisualSlot| is_tip_of(slot, digits));
}

/// With no target held, a tick with three finger tips or more on the target
/// starts a grab of it.  As many digits take part as there are tips, where
/// no two tips are of the same digit type.
pub proof fn lemma_grab_starts(
    state: GrabState,
    entity: TargetId,
    target_position: Vec3,
    tips: Seq<VisualSlot>,
)
    requires
        state.held_target is None,
        tips.len() >= GRAB_THRESHOLD,
    ensures
        grab_step(state, entity, target_position, tips).held_target == Some(entity),
        grab_step(state, entity, target_position, tips).anchor_at_grab_start == centroid(
            positions(tips),
        ),
        grab_step(state, entity, target_position, tips).target_position_at_grab_start
            == target_position,
        grab_step(state, entity, target_position, tips).participating_digits.finite(),
        forall|j: int|
            0 <= j < tips.len() ==> grab_step(
                state,
                entity,
                target_position,
                tips,
            ).participating_digits.contains(#[trigger] tips[j].bone.digit_type),
        digit_types(tips).no_duplicates() ==> grab_step(
            state,
            entity,
            target_position,
            tips,
        ).participating_digits.len() == tips.len(),
{
    let types = digit_types(tips);
    seq_to_set_is_finite(types);
    assert forall|j: int| 0 <= j < tips.len() implies types.to_set().contains(
        #[trigger] tips[j].bone.digit_type,
    ) by {
        assert(types[j] == tips[j].bone.digit_type);
        assert(types.contains(types[j]));
    }
    if types.no_duplicates() {
        types.unique_seq_to_set();
    }
}

/// With a target held, a tick with fewer than three finger tips on the target
/// ends the grab: no target is held, the one that was held is the previous
/// one, and no digit takes part.
pub proof fn lemma_grab_ends(
    state: GrabState,
    entity: TargetId,
    target_position: Vec3,
    tips: Seq<VisualSlot>,
)
    requires
        state.held_target is Some,
        tips.len() < GRAB_THRESHOLD,
    ensures
        grab_step(state, entity, target_position, tips).held_target is None,
        grab_step(state, entity, target_position, tips).previous_target == state.held_target,
        grab_step(state, entity, target_position, tips).participating_digits.is_empty(),
{
}

/// The number of tips alone decides: a tick keeps a grab with three tips or
/// more on the target, and starts none with fewer.
pub proof fn lemma_grab_persists(
    state: GrabState,
    entity: TargetId,
    target_position: Vec3,
    tips: Seq<VisualSlot>,
)
    requires
        (state.held_target is Some) == (tips.len() >= GRAB_THRESHOLD),
    ensures
        grab_step(state, entity, target_position, tips) == state,
{
}

proof fn lemma_tips_shift(
    a: Seq<VisualSlot>,
    b: Seq<VisualSlot>,
    digits: Set<DigitType>,
    delta: Vec3,
)
    requires
        a.len() == b.len(),
        forall|j: int| 0 <= j < a.len() ==> is_tip_of(a[j], digits) == is_tip_of(b[j], digits),
        forall|j: int, axis: Axis|
            0 <= j < a.len() && is_tip_of(a[j], digits) ==> #[trigger] b[j].transform.translation
                .coord(axis) == a[j].transform.translation.coord(axis) + delta.coord(axis),
    ensures
        tips_of(a, digits).len() == tips_of(b, digits).len(),
        forall|axis: Axis|
            #[trigger] coord_sum(positions(tips_of(b, digits)), axis) == coord_sum(
                positions(tips_of(a, digits)),
                axis,
            ) + tips_of(a, digits).len() * delta.coord(axis),
    decreases a.len(),
{
    reveal(Seq::filter);
    if a.len() == 0 {
        assert(tips_of(a, digits).len() == 0);
        assert(tips_of(b, digits).len() == 0);
    } else {
        let a0 = a.drop_last();
        let b0 = b.drop_last();
        lemma_tips_shift(a0, b0, digits, delta);
        let ta0 = tips_of(a0, digits);
        let tb0 = tips_of(b0, digits);
        let ta = tips_of(a, digits);
        let tb = tips_of(b, digits);
        let n = ta0.len() as int;
        assert(is_tip_of(a.last(), digits) == is_tip_of(b.last(), digits));
        if is_tip_of(a.last(), digits) {
            assert(ta == ta0.push(a.last()));
            assert(tb == tb0.push(b.last()));
            assert(positions(ta).drop_last() =~= positions(ta0));
            assert(positions(tb).drop_last() =~= positions(tb0));
            assert(positions(ta).last() == a.last().transform.translation);
            assert(positions(tb).last() == b.last().transform.translation);
            assert forall|axis: Axis|
                #[trigger] coord_sum(positions(tb), axis) == coord_sum(positions(ta), axis)
                    + ta.len() * delta.coord(axis) by {
                let d = delta.coord(axis) as int;
                assert(coord_sum(positions(tb0), axis) == coord_sum(positions(ta0), axis) + n * d);
                assert(b[a.len() - 1].transform.translation.coord(axis)
                    == a[a.len() - 1].transform.translation.coord(axis) + d);
                assert((n + 1) * d == n * d + d) by (nonlinear_arith);
            }
        } else {
            assert(ta == ta0);
            assert(tb == tb0);
        }
    }
}

proof fn lemma_mean_shift(sum: int, n: int, d: int)
    by (nonlinear_arith)
    requires
        n > 0,
    ensures
        (sum + n * d) / n == sum / n + d,
{
}

/// While a target is held, moving every participating finger tip by the same
/// displacement moves the target by that displacement, as long as at least
/// one such tip is tracked: exactly so before the position is held within
/// the range of `i32`, and so for the position itself where that changes
/// nothing.
pub proof fn lemma_hold_follows_hand(
    state: GrabState,
    a: Seq<VisualSlot>,
    b: Seq<VisualSlot>,
    delta: Vec3,
)
    requires
        state.held_target is Some,
        a.len() == b.len(),
        tips_of(a, state.participating_digits).len() > 0,
        forall|j: int|
            0 <= j < a.len() ==> #[trigger] is_tip_of(a[j], state.participating_digits)
                == is_tip_of(b[j], state.participating_digits),
        forall|j: int|
            0 <= j < a.len() && #[trigger] is_tip_of(a[j], state.participating_digits) ==> (
            b[j].transform.translation.x == a[j].transform.translation.x + delta.x
                && b[j].transform.translation.y == a[j].transform.translation.y + delta.y
                && b[j].transform.translation.z == a[j].transform.translation.z + delta.z),
    ensures
        forall|axis: Axis|
            #[trigger] exact_move(state, b, axis) == exact_move(state, a, axis) + delta.coord(
                axis,
            ),
        grabbed_obj_move(state, a) is Some,
        grabbed_obj_move(state, b) is Some,
        grabbed_obj_move(state, b)->0.entity == grabbed_obj_move(state, a)->0.entity,
        forall|axis: Axis|
            (i32::MIN <= #[trigger] exact_move(state, a, axis) <= i32::MAX && i32::MIN
                <= exact_move(state, b, axis) <= i32::MAX) ==> grabbed_obj_move(
                state,
                b,
            )->0.translation.coord(axis) == grabbed_obj_move(state, a)->0.translation.coord(axis)
                + delta.coord(axis),
{
    let digits = state.participating_digits;
    assert forall|j: int, axis: Axis|
        0 <= j < a.len() && is_tip_of(a[j], digits) implies #[trigger] b[j].transform.translation
            .coord(axis) == a[j].transform.translation.coord(axis) + delta.coord(axis) by {}
    lemma_tips_shift(a, b, digits, delta);
    let pa = positions(tips_of(a, digits));
    let pb = positions(tips_of(b, digits));
    assert forall|axis: Axis| #[trigger]
        exact_move(state, b, axis) == exact_move(state, a, axis) + delta.coord(axis) by {
        assert(coord_sum(pb, axis) == coord_sum(pa, axis) + pa.len() * delta.coord(axis));
        lemma_mean_shift(coord_sum(pa, axis), pa.len() as int, delta.coord(axis) as int);
    }
    lemma_coord_mean_fits(pa, Axis::X);
    lemma_coord_mean_fits(pa, Axis::Y);
    lemma_coord_mean_fits(pa, Axis::Z);
    lemma_coord_mean_fits(pb, Axis::X);
    lemma_coord_mean_fits(pb, Axis::Y);
    lemma_coord_mean_fits(pb, Axis::Z);
}

/// The indicator changes only on a tick that changed the held or the previous
/// target; a tick that left the grab as it was asks for no change.
pub proof fn lemma_indicator_changes_on_transition_only(before: GrabState, after: GrabState)
    ensures
        indicator_update(before, after) is Some ==> before.held_target != after.held_target
            || before.previous_target != after.previous_target,
        before == after ==> indicator_update(before, after) is None,
{
}

/// What the indicator shows after a tick of the detector: the target is
/// highlighted on the tick that starts its grab, back to normal on the tick
/// that ends it, and untouched on every other tick.
pub proof fn lemma_indicator_follows_grab(
    state: GrabState,
    entity: TargetId,
    target_position: Vec3,
    tips: Seq<VisualSlot>,
)
    ensures
        indicator_update(state, grab_step(state, entity, target_position, tips)) == (
        if state.held_target is None && tips.len() >= GRAB_THRESHOLD {
            Some(IndicatorUpdate { entity, alpha_percent: HIGHLIGHTED_ALPHA_PERCENT })
        } else if state.held_target is Some && tips.len() < GRAB_THRESHOLD {
            Some(
                IndicatorUpdate {
                    entity: state.held_target->0,
                    alpha_percent: NORMAL_ALPHA_PERCENT,
                },
            )
        } else {
            None
        }),
{
}

} // verus!
