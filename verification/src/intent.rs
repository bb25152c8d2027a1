//! What the player is asking of the boat.
//!
//! A drag gesture names a heading and a speed.  Both are kept as the exact
//! integers they are derived from, so that everything decided about them is
//! decided without rounding:
//!
//! * the heading asked for is the direction of a drag vector, turned by the
//!   camera's yaw;
//! * the speed asked for is `min(dist - DRAG_THRESHOLD, SPEED_RANGE) /
//!   SPEED_RANGE`, where `dist` is the vector's length, once the drag has left
//!   the dead zone of `DRAG_THRESHOLD` pixels round its anchor, and 0 inside
//!   it.

use vstd::prelude::*;
use crate::geometry::DragVector;

verus! {

/// Radius in pixels of the dead zone round the anchor of a drag.
pub const DRAG_THRESHOLD: u32 = 50;

/// Pixels of drag beyond the dead zone that ask for full speed.
pub const SPEED_RANGE: u32 = 100;

/// The speed asked for, as a point of the unit interval.
#[derive(Clone, Copy, Debug, PartialEq, Eq, Structural)]
pub enum Throttle {
    /// Speed 0.
    Idle,
    /// Speed `(sqrt(dist_sq) - DRAG_THRESHOLD) / SPEED_RANGE`, strictly
    /// between 0 and 1.
    Partial { dist_sq: u32 },
    /// Speed 1.
    Full,
}

/// Whether the square root of `n` is at least `num / den`, for `den > 0`.
pub open spec fn root_at_least(n: int, num: int, den: int) -> bool {
    num <= 0 || n * den * den >= num * num
}

/// Whether the speed that a drag along `v` asks for is at least `num / den`,
/// for `den > 0`: the speed is 0 while the drag is no longer than
/// `DRAG_THRESHOLD`, and `min(dist - DRAG_THRESHOLD, SPEED_RANGE) /
/// SPEED_RANGE` beyond, where `dist` is the drag's length.
pub open spec fn drag_speed_at_least(v: DragVector, num: int, den: int) -> bool {
    if v.dist_sq() <= DRAG_THRESHOLD * DRAG_THRESHOLD {
        num <= 0
    } else {
        // min(dist - T, R) / R >= num / den, multiplied out
        &&& SPEED_RANGE * den >= SPEED_RANGE * num
        &&& root_at_least(v.dist_sq(), DRAG_THRESHOLD * den + SPEED_RANGE * num, den)
    }
}

impl Throttle {
    /// Whether the speed this throttle stands for is at least `num / den`,
    /// for `den > 0`.  Together these comparisons say which real number the
    /// speed is.
    pub open spec fn at_least(self, num: int, den: int) -> bool {
        match self {
            Throttle::Idle => num <= 0,
            Throttle::Partial { dist_sq } => root_at_least(
                dist_sq as int,
                DRAG_THRESHOLD * den + SPEED_RANGE * num,
                den,
            ),
            Throttle::Full => num <= den,
        }
    }

    /// A throttle that a drag can produce: a partial one lies strictly
    /// between the dead zone and full speed.
    pub open spec fn wf(self) -> bool {
        self matches Throttle::Partial { dist_sq } ==> {
            &&& dist_sq > DRAG_THRESHOLD * DRAG_THRESHOLD
            &&& dist_sq < (DRAG_THRESHOLD + SPEED_RANGE) * (DRAG_THRESHOLD + SPEED_RANGE)
        }
    }

    /// The speed that a drag along `v` asks for.
    pub open spec fn spec_of_drag(v: DragVector) -> Throttle {
        if v.dist_sq() <= DRAG_THRESHOLD * DRAG_THRESHOLD {
            Throttle::Idle
        } else if v.dist_sq() >= (DRAG_THRESHOLD + SPEED_RANGE) * (DRAG_THRESHOLD + SPEED_RANGE) {
            Throttle::Full
        } else {
            Throttle::Partial { dist_sq: v.dist_sq() as u32 }
        }
    }

    /// Whether the speed this throttle stands for is at least `num / den`.
    /// The comparison is exact.
    pub fn is_at_least(&self, num: u32, den: u32) -> (reached: bool)
        ensures
            reached == self.at_least(num as int, den as int),
    {
        match *self {
            Throttle::Idle => num == 0,
            Throttle::Partial { dist_sq } => {
                let n: u128 = dist_sq as u128;
                let d: u128 = den as u128;
                let t: u128 = DRAG_THRESHOLD as u128;
                let r: u128 = SPEED_RANGE as u128;
                assert(t * d + r * num == 50 * d + 100 * num <= 150 * 0xffff_ffff)
                    by (nonlinear_arith)
                    requires
                        t == 50,
                        r == 100,
                        0 <= d <= 0xffff_ffff,
                        0 <= num <= 0xffff_ffff,
                ;
                let reach: u128 = t * d + r * (num as u128);
                assert(reach * reach <= (150 * 0xffff_ffff) * (150 * 0xffff_ffff))
                    by (nonlinear_arith)
                    requires
                        0 <= reach <= 150 * 0xffff_ffff,
                ;
                assert({
                    &&& d * d <= 0xffff_ffff * 0xffff_ffff
                    &&& n * (d * d) <= 0xffff_ffff * (0xffff_ffff * 0xffff_ffff)
                    &&& n * (d * d) == n * d * d
                }) by (nonlinear_arith)
                    requires
                        0 <= d <= 0xffff_ffff,
                        0 <= n <= 0xffff_ffff,
                ;
                reach == 0 || n * (d * d) >= reach * reach
            },
            Throttle::Full => num <= den,
        }
    }

    /// The speed that a drag along `v` asks for.
    pub fn of_drag(v: DragVector) -> (t: Throttle)
        ensures
            t == Self::spec_of_drag(v),
            t.wf(),
    {
        let reach: u32 = DRAG_THRESHOLD + SPEED_RANGE;
        if !v.within(reach) {
            return Throttle::Full;
        }
        assert(0 <= v.dx * v.dx <= 150 * 150 && 0 <= v.dy * v.dy <= 150 * 150) by (nonlinear_arith)
            requires
                -150 <= v.dx <= 150,
                -150 <= v.dy <= 150,
        ;
        let dist_sq: i64 = v.dx * v.dx + v.dy * v.dy;
        if dist_sq <= (DRAG_THRESHOLD as i64) * (DRAG_THRESHOLD as i64) {
            Throttle::Idle
        } else if dist_sq >= (reach as i64) * (reach as i64) {
            Throttle::Full
        } else {
            Throttle::Partial { dist_sq: dist_sq as u32 }
        }
    }
}

/// The heading and the speed asked for.
#[derive(Clone, Copy, Debug, PartialEq, Eq, Structural)]
pub struct Intent {
    /// The drag vector whose direction, less the camera's yaw, is the heading
    /// asked for.  `None` until a drag has left the dead zone: the boat then
    /// keeps the heading it started with.
    pub heading: Option<DragVector>,
    /// The speed asked for.
    pub speed: Throttle,
}

impl Intent {
    /// An intent that drags can lead to: a heading was only ever taken from a
    /// drag beyond the dead zone, and while a speed above 0 is asked for, it
    /// is the speed of the very drag that gave the heading.
    pub open spec fn wf(self) -> bool {
        &&& self.speed.wf()
        &&& self.heading matches Some(v) ==> !(Throttle::spec_of_drag(v) is Idle)
        &&& !(self.speed is Idle) ==> {
            &&& self.heading matches Some(v)
            &&& Throttle::spec_of_drag(v) == self.speed
        }
    }

    /// The intent before any input: at rest, on the heading the boat starts
    /// with.
    pub open spec fn spec_initial() -> Intent {
        Intent { heading: None, speed: Throttle::Idle }
    }

    /// The intent after the pointer has moved to where the drag vector is
    /// `v`.  Beyond the dead zone the drag sets both heading and speed;
    /// inside it the boat is asked to stop and to keep its heading.
    pub open spec fn spec_steer(self, v: DragVector) -> Intent {
        if Throttle::spec_of_drag(v) is Idle {
            Intent { heading: self.heading, speed: Throttle::Idle }
        } else {
            Intent { heading: Some(v), speed: Throttle::spec_of_drag(v) }
        }
    }

    /// The intent before any input.
    pub fn initial() -> (intent: Intent)
        ensures
            intent == Self::spec_initial(),
            intent.wf(),
    {
        Intent { heading: None, speed: Throttle::Idle }
    }

    /// The intent after the pointer has moved to where the drag vector is
    /// `v`.
    pub fn steer(self, v: DragVector) -> (next: Intent)
        ensures
            next == self.spec_steer(v),
            self.wf() ==> next.wf(),
    {
        match Throttle::of_drag(v) {
            Throttle::Idle => Intent { heading: self.heading, speed: Throttle::Idle },
            speed => Intent { heading: Some(v), speed },
        }
    }
}

/// The throttle of a drag stands for exactly the speed that the drag asks
/// for: compared with any fraction `num / den`, the two agree.
pub proof fn throttle_is_drag_speed(v: DragVector, num: int, den: int)
    requires
        den > 0,
    ensures
        Throttle::spec_of_drag(v).at_least(num, den) == drag_speed_at_least(v, num, den),
{
    let n = v.dist_sq();
    let reach = 50 * den + 100 * num;
    if n > 50 * 50 {
        if n >= 150 * 150 {
            if num <= den && reach > 0 {
                assert(n * den * den >= reach * reach) by (nonlinear_arith)
                    requires
                        n >= 150 * 150,
                        den > 0,
                        0 < reach <= 150 * den,
                ;
            }
        } else {
            if num > den {
                assert(n * den * den < reach * reach) by (nonlinear_arith)
                    requires
                        0 <= n < 150 * 150,
                        den > 0,
                        reach > 150 * den,
                ;
            }
        }
    }
}

/// The speed asked for lies in the unit interval: it is at least 0 and never
/// above 1.  A partial throttle lies strictly inside: below 1, and no less
/// than 1/10100, which the shortest drag beyond the dead zone still exceeds.
pub proof fn throttle_in_unit_interval(t: Throttle, num: int, den: int)
    requires
        t.wf(),
        den > 0,
    ensures
        num <= 0 ==> t.at_least(num, den),
        num > den ==> !t.at_least(num, den),
        t is Partial ==> !t.at_least(den, den) && t.at_least(1, 10100),
{
    if let Throttle::Partial { dist_sq } = t {
        let n = dist_sq as int;
        let reach = 50 * den + 100 * num;
        if num <= 0 && reach > 0 {
            assert(n * den * den >= reach * reach) by (nonlinear_arith)
                requires
                    n >= 50 * 50,
                    den > 0,
                    0 < reach <= 50 * den,
            ;
        }
        if num >= den {
            assert(n * den * den < reach * reach) by (nonlinear_arith)
                requires
                    0 <= n < 150 * 150,
                    den > 0,
                    reach >= 150 * den,
            ;
        }
        assert(!t.at_least(den, den)) by {
            assert(n * den * den < (150 * den) * (150 * den)) by (nonlinear_arith)
                requires
                    0 <= n < 150 * 150,
                    den > 0,
            ;
        }
        assert(t.at_least(1, 10100)) by {
            assert(n * 10100 * 10100 >= 505100 * 505100) by (nonlinear_arith)
                requires
                    n >= 2501,
            ;
        }
    }
}

} // verus!
