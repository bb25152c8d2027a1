//! Integer screen-space geometry.
//!
//! Pointer positions arrive as whole pixels.  Everything the steering logic
//! decides about a drag gesture is decided here on exact integers: the
//! displacement of the pointer from where the drag began, and how its length
//! compares with a radius.  Lengths are never computed, only their squares.

use vstd::prelude::*;

verus! {

/// A point or an extent on the screen, in whole pixels.
#[derive(Clone, Copy, Debug, PartialEq, Eq, Structural)]
pub struct Vec2i {
    pub x: i32,
    pub y: i32,
}

impl Vec2i {
    /// The point `(x, y)`.
    pub fn new(x: i32, y: i32) -> (v: Vec2i)
        ensures
            v == (Vec2i { x, y }),
    {
        Vec2i { x, y }
    }
}

/// The displacement of the pointer from the anchor of a drag.
///
/// The components are wide enough to hold the difference of any two screen
/// points, so forming a displacement never overflows.
#[derive(Clone, Copy, Debug, PartialEq, Eq, Structural)]
pub struct DragVector {
    pub dx: i64,
    pub dy: i64,
}

impl DragVector {
    /// The displacement that leads from `anchor` to `pos`.
    pub open spec fn spec_between(anchor: Vec2i, pos: Vec2i) -> DragVector {
        DragVector { dx: (pos.x - anchor.x) as i64, dy: (pos.y - anchor.y) as i64 }
    }

    /// The square of the displacement's Euclidean length.
    pub open spec fn dist_sq(self) -> int {
        self.dx * self.dx + self.dy * self.dy
    }

    /// The displacement that leads from `anchor` to `pos`.
    pub fn between(anchor: Vec2i, pos: Vec2i) -> (v: DragVector)
        ensures
            v == Self::spec_between(anchor, pos),
            v.dx == pos.x - anchor.x,
            v.dy == pos.y - anchor.y,
    {
        let dx: i64 = pos.x as i64 - anchor.x as i64;
        let dy: i64 = pos.y as i64 - anchor.y as i64;
        DragVector { dx, dy }
    }

    /// Whether the displacement is no longer than `radius` pixels.
    ///
    /// The comparison is made on squares, so it is exact: the result is the
    /// truth value of `sqrt(dx * dx + dy * dy) <= radius` over the reals.
    /// A displacement that short has no component beyond `radius`.
    pub fn within(&self, radius: u32) -> (inside: bool)
        ensures
            inside == (self.dist_sq() <= radius * radius),
            inside ==> -radius <= self.dx <= radius && -radius <= self.dy <= radius,
    {
        let r: i64 = radius as i64;
        if self.dx > r || self.dx < -r || self.dy > r || self.dy < -r {
            proof {
                lemma_long_component(self.dx as int, self.dy as int, r as int);
            }
            false
        } else {
            proof {
                lemma_short_component(self.dx as int, r as int);
                lemma_short_component(self.dy as int, r as int);
                lemma_short_component(r as int, u32::MAX as int);
            }
            let xx: i128 = (self.dx as i128) * (self.dx as i128);
            let yy: i128 = (self.dy as i128) * (self.dy as i128);
            xx + yy <= (r as i128) * (r as i128)
        }
    }
}

/// A vector with a component beyond `r` in magnitude is longer than `r`.
proof fn lemma_long_component(dx: int, dy: int, r: int)
    requires
        0 <= r,
        dx > r || dx < -r || dy > r || dy < -r,
    ensures
        dx * dx + dy * dy > r * r,
{
    assert(dx * dx >= 0 && dy * dy >= 0) by (nonlinear_arith);
    if dx > r || dx < -r {
        assert(dx * dx > r * r) by (nonlinear_arith)
            requires
                0 <= r,
                dx > r || dx < -r,
        ;
    } else {
        assert(dy * dy > r * r) by (nonlinear_arith)
            requires
                0 <= r,
                dy > r || dy < -r,
        ;
    }
}

/// The square of a component within `r` in magnitude is within `r * r`.
proof fn lemma_short_component(d: int, r: int)
    requires
        -r <= d <= r,
    ensures
        0 <= d * d <= r * r,
{
    assert(0 <= d * d <= r * r) by (nonlinear_arith)
        requires
            -r <= d <= r,
    ;
}

} // verus!
