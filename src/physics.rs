use vstd::prelude::*;

verus! {

/// `v` clamped into the range of `i64`: positions saturate at the edges of
/// the coordinate space instead of wrapping.
pub open spec fn clamp_i64(v: int) -> int {
    if v < i64::MIN {
        i64::MIN as int
    } else if v > i64::MAX {
        i64::MAX as int
    } else {
        v
    }
}

/// `a + b`, saturating at the bounds of `i64`.
pub fn add_clamped(a: i64, b: i64) -> (r: i64)
    ensures
        r == clamp_i64(a + b),
{
    if b >= 0 {
        if a > i64::MAX - b {
            i64::MAX
        } else {
            a + b
        }
    } else {
        if a < i64::MIN - b {
            i64::MIN
        } else {
            a + b
        }
    }
}

/// A point, or a displacement, on the play field, in whole units.
#[derive(Clone, Copy, Debug, PartialEq, Eq, Structural)]
pub struct Point {
    pub x: i64,
    pub y: i64,
}

/// The square of the Euclidean distance between two points.
pub open spec fn dist_sq(a: Point, b: Point) -> int {
    (a.x - b.x) * (a.x - b.x) + (a.y - b.y) * (a.y - b.y)
}

/// `|v|`.
pub open spec fn abs(v: int) -> int {
    if v < 0 {
        -v
    } else {
        v
    }
}

impl Point {
    /// `self` moved by `v`, each coordinate saturating.
    pub open spec fn translated(self, v: Point) -> Point {
        Point { x: clamp_i64(self.x + v.x) as i64, y: clamp_i64(self.y + v.y) as i64 }
    }

    pub fn new(x: i64, y: i64) -> (r: Point)
        ensures
            r == (Point { x, y }),
    {
        Point { x, y }
    }

    /// `self` moved by `v`, each coordinate saturating.
    pub fn translate(self, v: Point) -> (r: Point)
        ensures
            r == self.translated(v),
    {
        Point { x: add_clamped(self.x, v.x), y: add_clamped(self.y, v.y) }
    }

    /// The displacement of `speed` units along `direction`.
    pub fn scaled(direction: [i32; 2], speed: i32) -> (r: Point)
        ensures
            r.x == direction@[0] * speed,
            r.y == direction@[1] * speed,
    {
        let dx = direction[0] as i64;
        let dy = direction[1] as i64;
        let s = speed as i64;
        assert(-0x4000_0000_0000_0000 <= dx * s <= 0x4000_0000_0000_0000) by (nonlinear_arith)
            requires
                -0x8000_0000 <= dx <= 0x7fff_ffff,
                -0x8000_0000 <= s <= 0x7fff_ffff,
        ;
        assert(-0x4000_0000_0000_0000 <= dy * s <= 0x4000_0000_0000_0000) by (nonlinear_arith)
            requires
                -0x8000_0000 <= dy <= 0x7fff_ffff,
                -0x8000_0000 <= s <= 0x7fff_ffff,
        ;
        Point { x: dx * s, y: dy * s }
    }

    /// Whether `other` lies strictly within `radius` of `self`. A point at
    /// exactly that distance is outside.
    pub fn within(&self, other: &Point, radius: u32) -> (r: bool)
        ensures
            r == (dist_sq(*self, *other) < radius * radius),
    {
        let dx: i128 = self.x as i128 - other.x as i128;
        let dy: i128 = self.y as i128 - other.y as i128;
        let ax: i128 = if dx < 0 { -dx } else { dx };
        let ay: i128 = if dy < 0 { -dy } else { dy };
        let r: i128 = radius as i128;
        proof {
            assert(ax * ax == dx * dx) by (nonlinear_arith)
                requires
                    ax == dx || ax == -dx,
            ;
            assert(ay * ay == dy * dy) by (nonlinear_arith)
                requires
                    ay == dy || ay == -dy,
            ;
        }
        if ax >= r || ay >= r {
            proof {
                assert(dist_sq(*self, *other) >= radius * radius) by (nonlinear_arith)
                    requires
                        ax >= r || ay >= r,
                        ax >= 0,
                        ay >= 0,
                        r >= 0,
                        ax * ax == dx * dx,
                        ay * ay == dy * dy,
                        dist_sq(*self, *other) == dx * dx + dy * dy,
                        r == radius,
                ;
            }
            false
        } else {
            assert(ax * ax < 0x1_0000_0000_0000_0000) by (nonlinear_arith)
                requires
                    0 <= ax < r,
                    r <= 0xffff_ffff,
            ;
            assert(ay * ay < 0x1_0000_0000_0000_0000) by (nonlinear_arith)
                requires
                    0 <= ay < r,
                    r <= 0xffff_ffff,
            ;
            assert(r * r < 0x1_0000_0000_0000_0000) by (nonlinear_arith)
                requires
                    0 <= r <= 0xffff_ffff,
            ;
            ax * ax + ay * ay < r * r
        }
    }
}

/// The speed of a velocity: its larger component in absolute value.
pub open spec fn speed_of(v: Point) -> int {
    if abs(v.x as int) >= abs(v.y as int) {
        abs(v.x as int)
    } else {
        abs(v.y as int)
    }
}

/// `|v|` as an unsigned integer; total over `i64`.
fn magnitude(v: i64) -> (r: u64)
    ensures
        r == abs(v as int),
{
    if v < 0 {
        ((-(v + 1)) as u64) + 1
    } else {
        v as u64
    }
}

/// A position and the velocity it moves by.
#[derive(Clone, Copy, Debug, PartialEq, Eq, Structural)]
pub struct Rigidbody {
    pub position: Point,
    pub velocity: Point,
}

/// Something that has a rigid body and can be moved.
pub trait Movable {
    /// The body of `self`.
    spec fn rigidbody(&self) -> Rigidbody;

    fn get_rigidbody(&self) -> (r: &Rigidbody)
        ensures
            *r == self.rigidbody(),
    ;

    /// Places the body at `(x, y)` and keeps its velocity.
    fn set_position(&mut self, x: i64, y: i64)
        ensures
            final(self).rigidbody() == (Rigidbody {
                position: Point { x, y },
                velocity: old(self).rigidbody().velocity,
            }),
    ;

    /// The larger velocity component in absolute value.
    fn speed(&self) -> (r: u64)
        ensures
            r == speed_of(self.rigidbody().velocity),
    {
        let v = self.get_rigidbody().velocity;
        let ax = magnitude(v.x);
        let ay = magnitude(v.y);
        if ax >= ay {
            ax
        } else {
            ay
        }
    }

    fn velocity(&self) -> (r: &Point)
        ensures
            *r == self.rigidbody().velocity,
    {
        &self.get_rigidbody().velocity
    }

    fn position(&self) -> (r: &Point)
        ensures
            *r == self.rigidbody().position,
    {
        &self.get_rigidbody().position
    }

    fn x(&self) -> (r: i64)
        ensures
            r == self.rigidbody().position.x,
    {
        self.position().x
    }

    fn y(&self) -> (r: i64)
        ensures
            r == self.rigidbody().position.y,
    {
        self.position().y
    }

    /// Moves the body by `v`, each coordinate saturating.
    fn move_by(&mut self, v: Point)
        ensures
            final(self).rigidbody() == (Rigidbody {
                position: old(self).rigidbody().position.translated(v),
                velocity: old(self).rigidbody().velocity,
            }),
    {
        let x = add_clamped(self.x(), v.x);
        let y = add_clamped(self.y(), v.y);
        self.set_position(x, y);
    }
}

impl Movable for Rigidbody {
    open spec fn rigidbody(&self) -> Rigidbody {
        *self
    }

    fn get_rigidbody(&self) -> (r: &Rigidbody) {
        self
    }

    fn set_position(&mut self, x: i64, y: i64) {
        self.position = Point { x, y };
    }
}

} // verus!
