//! Geometry primitives: a vector in the plane and a facing direction.

use crate::fixed::{added, advance, advanced, scale, scaled, sum, FACTOR_ONE};
use vstd::prelude::*;

verus! {

/// A direction a player faces, measured from the x axis. The library does no
/// trigonometry: whoever builds the value supplies the cosine and the sine of
/// the angle, as fixed-point factors, and they are taken as given.
#[derive(Debug, Clone, Copy, PartialEq, Eq, Structural)]
pub struct Angle {
    /// The angle, in thousandths of a degree.
    pub degrees: i64,
    /// The cosine of the angle, in units of `1 / FACTOR_ONE`.
    pub cosine: i64,
    /// The sine of the angle, in units of `1 / FACTOR_ONE`.
    pub sine: i64,
}

impl Angle {
    /// The angle of zero degrees, whose cosine is one and whose sine is zero.
    pub open spec fn origin() -> Angle {
        Angle { degrees: 0, cosine: FACTOR_ONE, sine: 0 }
    }

    /// The angle of zero degrees.
    pub fn zero() -> (r: Angle)
        ensures
            r == Angle::origin(),
    {
        Angle { degrees: 0, cosine: FACTOR_ONE, sine: 0 }
    }
}

/// A point or a displacement in the plane.
#[derive(Debug, Clone, Copy, PartialEq, Eq, Structural)]
pub struct Vec2 {
    pub x: i64,
    pub y: i64,
}

impl Vec2 {
    /// The component-wise saturating sum.
    pub open spec fn plus(self, other: Vec2) -> Vec2 {
        Vec2 { x: added(self.x, other.x), y: added(self.y, other.y) }
    }

    /// The vector made of `len` and `angle`: each component is `len` times
    /// the cosine of the angle, rounded toward zero. This is the one place
    /// that says how an angle becomes a vector. The sine is not used, so the
    /// vector always lies on the diagonal `x == y`; its length is `len` times
    /// the square root of two at cosine one and zero at cosine zero.
    pub open spec fn along(angle: Angle, len: i64) -> Vec2 {
        Vec2 { x: scaled(len, angle.cosine), y: scaled(len, angle.cosine) }
    }

    /// Where a body at `self` moving at `velocity` stands after `dt`
    /// milliseconds.
    pub open spec fn moved(self, velocity: Vec2, dt: i64) -> Vec2 {
        Vec2 { x: advanced(self.x, velocity.x, dt), y: advanced(self.y, velocity.y, dt) }
    }

    /// Whether `other` lies strictly closer to `self` than `radius`: the
    /// squared distance is less than the squared radius.
    pub open spec fn within(self, other: Vec2, radius: i64) -> bool {
        (other.x - self.x) * (other.x - self.x) + (other.y - self.y) * (other.y - self.y) < radius
            * radius
    }

    /// Adds two vectors.
    pub fn sum(&self, other: &Self) -> (r: Self)
        ensures
            r == self.plus(*other),
    {
        Vec2 { x: sum(self.x, other.x), y: sum(self.y, other.y) }
    }

    /// Builds the vector whose components are both `len` times the cosine of
    /// `angle`.
    pub fn with_angle(angle: Angle, len: i64) -> (r: Self)
        ensures
            r == Vec2::along(angle, len),
    {
        Vec2 { x: scale(len, angle.cosine), y: scale(len, angle.cosine) }
    }

    /// Moves a position by `velocity * dt`.
    pub fn step(&self, velocity: &Vec2, dt: i64) -> (r: Self)
        ensures
            r == self.moved(*velocity, dt),
    {
        Vec2 { x: advance(self.x, velocity.x, dt), y: advance(self.y, velocity.y, dt) }
    }

    /// Tests whether `other` lies strictly closer than `radius`, without
    /// taking a square root.
    pub fn is_within(&self, other: &Vec2, radius: i64) -> (r: bool)
        ensures
            r == self.within(*other, radius),
    {
        let reach: i128 = if radius < 0 {
            -(radius as i128)
        } else {
            radius as i128
        };
        let dx: i128 = other.x as i128 - self.x as i128;
        let dy: i128 = other.y as i128 - self.y as i128;
        assert(reach * reach == radius * radius) by (nonlinear_arith)
            requires
                reach == radius || reach == -radius,
        ;
        if dx >= reach || dx <= -reach {
            assert(dx * dx + dy * dy >= reach * reach) by (nonlinear_arith)
                requires
                    reach >= 0,
                    dx >= reach || dx <= -reach,
            ;
            false
        } else if dy >= reach || dy <= -reach {
            assert(dx * dx + dy * dy >= reach * reach) by (nonlinear_arith)
                requires
                    reach >= 0,
                    dy >= reach || dy <= -reach,
            ;
            false
        } else {
            assert(0 <= dx * dx < 0x4000_0000_0000_0000_0000_0000_0000_0000) by (nonlinear_arith)
                requires
                    -0x8000_0000_0000_0000 < dx < 0x8000_0000_0000_0000,
            ;
            assert(0 <= dy * dy < 0x4000_0000_0000_0000_0000_0000_0000_0000) by (nonlinear_arith)
                requires
                    -0x8000_0000_0000_0000 < dy < 0x8000_0000_0000_0000,
            ;
            assert(0 <= reach * reach <= 0x4000_0000_0000_0000_0000_0000_0000_0000)
                by (nonlinear_arith)
                requires
                    0 <= reach <= 0x8000_0000_0000_0000,
            ;
            dx * dx + dy * dy < reach * reach
        }
    }
}

} // verus!
