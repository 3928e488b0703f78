use vstd::prelude::*;

verus! {

/// Bound on a direction component: the difference of two `i32` coordinates.
pub const AXIS_BOUND: i64 = 0x1_0000_0000;

/// A point in fixed-point world coordinates.
#[derive(Clone, Copy, Debug, PartialEq, Eq, Structural)]
pub struct Point3 {
    pub x: i32,
    pub y: i32,
    pub z: i32,
}

/// An unnormalised direction, such as a tangent or a side axis.
#[derive(Clone, Copy, Debug, PartialEq, Eq, Structural)]
pub struct Axis3 {
    pub x: i64,
    pub y: i64,
    pub z: i64,
}

impl Point3 {
    /// The up normal given to every ribbon vertex.
    pub open spec fn spec_up() -> Point3 {
        Point3 { x: 0, y: 1, z: 0 }
    }

    pub fn up() -> (r: Point3)
        ensures
            r == Point3::spec_up(),
    {
        Point3 { x: 0, y: 1, z: 0 }
    }
}

impl Axis3 {
    pub open spec fn is_zero(self) -> bool {
        self.x == 0 && self.y == 0 && self.z == 0
    }

    /// Every component lies within the span of two `i32` coordinates.
    pub open spec fn bounded(self) -> bool {
        -AXIS_BOUND <= self.x <= AXIS_BOUND && -AXIS_BOUND <= self.y <= AXIS_BOUND && -AXIS_BOUND
            <= self.z <= AXIS_BOUND
    }

    pub open spec fn dot(self, o: Axis3) -> int {
        self.x * o.x + self.y * o.y + self.z * o.z
    }

    pub open spec fn norm2(self) -> int {
        self.dot(self)
    }
}

/// The direction from `from` to `to`.
pub open spec fn spec_direction(from: Point3, to: Point3) -> Axis3 {
    Axis3 {
        x: (to.x - from.x) as i64,
        y: (to.y - from.y) as i64,
        z: (to.z - from.z) as i64,
    }
}

/// The direction from `from` to `to`, exact in every component.
pub fn tangent_between(from: Point3, to: Point3) -> (r: Axis3)
    ensures
        r == spec_direction(from, to),
        r.x == to.x - from.x,
        r.y == to.y - from.y,
        r.z == to.z - from.z,
        r.bounded(),
{
    Axis3 {
        x: to.x as i64 - from.x as i64,
        y: to.y as i64 - from.y as i64,
        z: to.z as i64 - from.z as i64,
    }
}

/// Whether the world up axis is crossed with tangent `d`: the unit tangent's
/// vertical component has magnitude below 0.9, that is `100 y² < 81 |d|²`.
/// A zero tangent normalises to zero, whose vertical component is zero too.
pub open spec fn crosses_up(d: Axis3) -> bool {
    d.norm2() == 0 || 100 * (d.y * d.y) < 81 * d.norm2()
}

/// The side axis of tangent `d`: `d × (0,1,0)` when `crosses_up(d)`, else
/// `d × (1,0,0)`. It has the direction of the normalised cross product.
pub open spec fn spec_side_axis(d: Axis3) -> Axis3 {
    if crosses_up(d) {
        Axis3 { x: (-d.z) as i64, y: 0, z: d.x }
    } else {
        Axis3 { x: 0, y: d.z, z: (-d.y) as i64 }
    }
}

proof fn lemma_square_bound(a: int)
    requires
        -AXIS_BOUND <= a <= AXIS_BOUND,
    ensures
        0 <= a * a <= 0x1_0000_0000_0000_0000,
{
    assert(0 <= a * a <= 0x1_0000_0000_0000_0000) by (nonlinear_arith)
        requires
            -0x1_0000_0000 <= a <= 0x1_0000_0000,
    ;
}

/// The axis along which the ribbon spreads at a sample whose tangent is `d`.
pub fn side_axis(d: Axis3) -> (r: Axis3)
    requires
        d.bounded(),
    ensures
        r == spec_side_axis(d),
        r.bounded(),
{
    proof {
        lemma_square_bound(d.x as int);
        lemma_square_bound(d.y as int);
        lemma_square_bound(d.z as int);
    }
    let x = d.x as i128;
    let y = d.y as i128;
    let z = d.z as i128;
    let yy = y * y;
    let norm2 = x * x + yy + z * z;
    if norm2 == 0 || 100 * yy < 81 * norm2 {
        Axis3 { x: -d.z, y: 0, z: d.x }
    } else {
        Axis3 { x: 0, y: d.z, z: -d.y }
    }
}

/// A non-zero tangent always gets a non-zero side axis, and the side axis is
/// perpendicular to the tangent: the fallback axis takes over exactly where
/// crossing with up would degenerate.
pub proof fn lemma_side_axis_nonzero(d: Axis3)
    requires
        d.bounded(),
        !d.is_zero(),
    ensures
        !spec_side_axis(d).is_zero(),
        spec_side_axis(d).dot(d) == 0,
{
    let s = spec_side_axis(d);
    lemma_square_bound(d.x as int);
    lemma_square_bound(d.y as int);
    lemma_square_bound(d.z as int);
    if crosses_up(d) {
        if s.is_zero() {
            assert(d.x == 0 && d.z == 0);
            assert(d.norm2() == d.y * d.y);
            assert(d.y * d.y > 0) by (nonlinear_arith)
                requires
                    d.y != 0,
            ;
        }
        assert(s.x == -d.z && s.y == 0 && s.z == d.x);
        assert(s.dot(d) == 0) by (nonlinear_arith)
            requires
                s.x == -d.z && s.y == 0 && s.z == d.x,
        ;
    } else {
        if s.is_zero() {
            assert(d.y == 0 && d.z == 0);
            assert(d.x * d.x > 0) by (nonlinear_arith)
                requires
                    d.x != 0,
            ;
        }
        assert(s.x == 0 && s.y == d.z && s.z == -d.y);
        assert(s.dot(d) == 0 * d.x + d.z * d.y + (-d.y) * d.z);
        assert(s.dot(d) == d.z * d.y - d.y * d.z) by (nonlinear_arith)
            requires
                s.dot(d) == 0 * d.x + d.z * d.y + (-d.y) * d.z,
        ;
        assert(s.dot(d) == 0) by (nonlinear_arith)
            requires
                s.dot(d) == d.z * d.y - d.y * d.z,
        ;
    }
}

} // verus!
