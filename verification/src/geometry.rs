//! Points and rotations on integer coordinates.

use vstd::prelude::*;

verus! {

/// How many coordinate units make one millimetre.
pub const UNITS_PER_MILLIMETRE: i32 = 1000;

/// The quaternion component that stands for 1.
pub const QUAT_ONE: i32 = 1_000_000_000;

/// The sine and cosine of an eighth of a turn, in the unit of `QUAT_ONE`.
pub const QUAT_ROOT_HALF: i32 = 707_106_781;

/// One of the three coordinate axes.
#[derive(Clone, Copy, Debug, PartialEq, Eq, Structural)]
pub enum Axis {
    X,
    Y,
    Z,
}

/// A position or displacement; each coordinate counts micrometres.
#[derive(Clone, Copy, Debug, PartialEq, Eq, Structural)]
pub struct Vec3 {
    pub x: i32,
    pub y: i32,
    pub z: i32,
}

/// A rotation quaternion; each component counts billionths.
#[derive(Clone, Copy, Debug, PartialEq, Eq, Structural)]
pub struct Quat {
    pub x: i32,
    pub y: i32,
    pub z: i32,
    pub w: i32,
}

/// The nearest `i32` to `v`.
pub open spec fn clamp_i32(v: int) -> i32 {
    if v < i32::MIN {
        i32::MIN
    } else if v > i32::MAX {
        i32::MAX
    } else {
        v as i32
    }
}

/// The square of the distance between `a` and `b`.
pub open spec fn distance_squared(a: Vec3, b: Vec3) -> int {
    (a.x - b.x) * (a.x - b.x) + (a.y - b.y) * (a.y - b.y) + (a.z - b.z) * (a.z - b.z)
}

/// Whether `a` lies less than `radius` away from `b`.
pub open spec fn within_radius(a: Vec3, b: Vec3, radius: int) -> bool {
    distance_squared(a, b) < radius * radius
}

/// The sum of the points' coordinates along `axis`.
pub open spec fn coord_sum(points: Seq<Vec3>, axis: Axis) -> int
    decreases points.len(),
{
    if points.len() == 0 {
        0
    } else {
        coord_sum(points.drop_last(), axis) + points.last().coord(axis)
    }
}

/// The mean of the points along `axis`, rounded down; 0 where there is no point.
pub open spec fn coord_mean(points: Seq<Vec3>, axis: Axis) -> int {
    if points.len() == 0 {
        0
    } else {
        coord_sum(points, axis) / (points.len() as int)
    }
}

/// The centroid of the points, each coordinate rounded down; the origin
/// where there is no point.
pub open spec fn centroid(points: Seq<Vec3>) -> Vec3 {
    Vec3 {
        x: coord_mean(points, Axis::X) as i32,
        y: coord_mean(points, Axis::Y) as i32,
        z: coord_mean(points, Axis::Z) as i32,
    }
}

/// `start` moved by the displacement from `from` to `to`, each coordinate
/// held within the range of `i32`.
pub open spec fn displaced(start: Vec3, from: Vec3, to: Vec3) -> Vec3 {
    Vec3 {
        x: clamp_i32(start.x + (to.x - from.x)),
        y: clamp_i32(start.y + (to.y - from.y)),
        z: clamp_i32(start.z + (to.z - from.z)),
    }
}

/// `v` times the square root of one half, rounded down.
pub open spec fn scale_root_half(v: int) -> int {
    (v * QUAT_ROOT_HALF) / (QUAT_ONE as int)
}

/// `q` followed by a quarter turn about the X axis: the quaternion product
/// of `q` with `(sin 45°, 0, 0, cos 45°)`.
pub open spec fn quarter_turn_x(q: Quat) -> Quat {
    Quat {
        x: clamp_i32(scale_root_half(q.w + q.x)),
        y: clamp_i32(scale_root_half(q.y + q.z)),
        z: clamp_i32(scale_root_half(q.z - q.y)),
        w: clamp_i32(scale_root_half(q.w - q.x)),
    }
}

/// The mean of integers that all lie in one range lies in that range.
pub proof fn lemma_mean_in_range(sum: int, n: int, lo: int, hi: int)
    by (nonlinear_arith)
    requires
        n > 0,
        n * lo <= sum <= n * hi,
    ensures
        lo <= sum / n <= hi,
{
}

/// The sum of `i32` coordinates is bounded by their number.
pub proof fn lemma_coord_sum_bounds(points: Seq<Vec3>, axis: Axis)
    ensures
        points.len() * i32::MIN <= coord_sum(points, axis) <= points.len() * i32::MAX,
    decreases points.len(),
{
    if points.len() > 0 {
        lemma_coord_sum_bounds(points.drop_last(), axis);
    }
}

/// The rounded-down mean of `i32` coordinates is an `i32`.
pub proof fn lemma_coord_mean_fits(points: Seq<Vec3>, axis: Axis)
    ensures
        i32::MIN <= coord_mean(points, axis) <= i32::MAX,
{
    if points.len() > 0 {
        lemma_coord_sum_bounds(points, axis);
        lemma_mean_in_range(
            coord_sum(points, axis),
            points.len() as int,
            i32::MIN as int,
            i32::MAX as int,
        );
    }
}

/// `a / n` rounded towards minus infinity.
fn floor_div(a: i128, n: i128) -> (q: i128)
    requires
        n > 0,
        i128::MIN < a,
        n - a <= i128::MAX,
    ensures
        q == a / n,
{
    if a >= 0 {
        a / n
    } else {
        let up: i128 = (-a + (n - 1)) / n;
        proof {
            lemma_floor_of_negative(a as int, n as int);
        }
        -up
    }
}

proof fn lemma_floor_of_negative(a: int, n: int)
    by (nonlinear_arith)
    requires
        n > 0,
        a < 0,
    ensures
        a / n == -((-a + (n - 1)) / n),
{
}

fn clamp_to_i32(v: i128) -> (r: i32)
    ensures
        r == clamp_i32(v as int),
{
    if v < -2147483648 {
        i32::MIN
    } else if v > 2147483647 {
        i32::MAX
    } else {
        v as i32
    }
}

impl Default for Vec3 {
    fn default() -> (r: Vec3)
        ensures
            r == (Vec3 { x: 0, y: 0, z: 0 }),
    {
        Vec3 { x: 0, y: 0, z: 0 }
    }
}

impl Default for Quat {
    fn default() -> (r: Quat)
        ensures
            r == (Quat { x: 0, y: 0, z: 0, w: QUAT_ONE }),
    {
        Quat { x: 0, y: 0, z: 0, w: QUAT_ONE }
    }
}

impl Vec3 {
    /// The coordinate along `axis`.
    pub open spec fn coord(self, axis: Axis) -> i32 {
        match axis {
            Axis::X => self.x,
            Axis::Y => self.y,
            Axis::Z => self.z,
        }
    }

    /// The origin.
    pub fn zero() -> (r: Vec3)
        ensures
            r == (Vec3 { x: 0, y: 0, z: 0 }),
    {
        Vec3 { x: 0, y: 0, z: 0 }
    }

    /// Whether this point lies less than `radius` away from `other`.
    pub fn is_within(&self, other: &Vec3, radius: u32) -> (r: bool)
        ensures
            r == within_radius(*self, *other, radius as int),
    {
        let dx: i128 = self.x as i128 - other.x as i128;
        let dy: i128 = self.y as i128 - other.y as i128;
        let dz: i128 = self.z as i128 - other.z as i128;
        let rr: i128 = radius as i128;
        proof {
            lemma_square_bound(dx as int);
            lemma_square_bound(dy as int);
            lemma_square_bound(dz as int);
            lemma_square_bound(rr as int);
        }
        dx * dx + dy * dy + dz * dz < rr * rr
    }

    /// This point moved by the displacement from `from` to `to`.
    pub fn displaced_by(&self, from: &Vec3, to: &Vec3) -> (r: Vec3)
        ensures
            r == displaced(*self, *from, *to),
    {
        Vec3 {
            x: clamp_to_i32(self.x as i128 + (to.x as i128 - from.x as i128)),
            y: clamp_to_i32(self.y as i128 + (to.y as i128 - from.y as i128)),
            z: clamp_to_i32(self.z as i128 + (to.z as i128 - from.z as i128)),
        }
    }
}

proof fn lemma_square_bound(d: int)
    by (nonlinear_arith)
    requires
        -0x1_0000_0000 <= d <= 0x1_0000_0000,
    ensures
        0 <= d * d <= 0x1_0000_0000_0000_0000,
{
}

impl Quat {
    /// The rotation that turns nothing.
    pub fn identity() -> (r: Quat)
        ensures
            r == (Quat { x: 0, y: 0, z: 0, w: QUAT_ONE }),
    {
        Quat { x: 0, y: 0, z: 0, w: QUAT_ONE }
    }

    /// This rotation followed by a quarter turn about the X axis.
    pub fn rotated_quarter_turn_x(&self) -> (r: Quat)
        ensures
            r == quarter_turn_x(*self),
    {
        Quat {
            x: scaled_root_half(self.w as i128 + self.x as i128),
            y: scaled_root_half(self.y as i128 + self.z as i128),
            z: scaled_root_half(self.z as i128 - self.y as i128),
            w: scaled_root_half(self.w as i128 - self.x as i128),
        }
    }
}

fn scaled_root_half(v: i128) -> (r: i32)
    requires
        -0x1_0000_0000 <= v <= 0x1_0000_0000,
    ensures
        r == clamp_i32(scale_root_half(v as int)),
{
    proof {
        lemma_scaled_bound(v as int);
    }
    let product: i128 = v * (QUAT_ROOT_HALF as i128);
    clamp_to_i32(floor_div(product, QUAT_ONE as i128))
}

proof fn lemma_scaled_bound(v: int)
    by (nonlinear_arith)
    requires
        -0x1_0000_0000 <= v <= 0x1_0000_0000,
    ensures
        -0x1_0000_0000 * 707_106_781 <= v * 707_106_781 <= 0x1_0000_0000 * 707_106_781,
{
}

/// The centroid of `points`.
pub fn centroid_of(points: &Vec<Vec3>) -> (c: Vec3)
    ensures
        c == centroid(points@),
{
    let n: usize = points.len();
    if n == 0 {
        return Vec3::zero();
    }
    let mut sx: i128 = 0;
    let mut sy: i128 = 0;
    let mut sz: i128 = 0;
    let mut i: usize = 0;
    while i < n
        invariant
            i <= n,
            n == points.len(),
            sx == coord_sum(points@.take(i as int), Axis::X),
            sy == coord_sum(points@.take(i as int), Axis::Y),
            sz == coord_sum(points@.take(i as int), Axis::Z),
        decreases n - i,
    {
        proof {
            let prefix = points@.take(i as int);
            let next = points@.take(i + 1);
            assert(next.drop_last() == prefix);
            lemma_coord_sum_bounds(prefix, Axis::X);
            lemma_coord_sum_bounds(prefix, Axis::Y);
            lemma_coord_sum_bounds(prefix, Axis::Z);
        }
        let p = points[i];
        sx = sx + p.x as i128;
        sy = sy + p.y as i128;
        sz = sz + p.z as i128;
        i = i + 1;
    }
    proof {
        assert(points@.take(n as int) == points@);
        lemma_coord_sum_bounds(points@, Axis::X);
        lemma_coord_sum_bounds(points@, Axis::Y);
        lemma_coord_sum_bounds(points@, Axis::Z);
        lemma_coord_mean_fits(points@, Axis::X);
        lemma_coord_mean_fits(points@, Axis::Y);
        lemma_coord_mean_fits(points@, Axis::Z);
    }
    let count: i128 = n as i128;
    Vec3 {
        x: floor_div(sx, count) as i32,
        y: floor_div(sy, count) as i32,
        z: floor_div(sz, count) as i32,
    }
}

} // verus!
