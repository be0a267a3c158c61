//! Points on the integer grid of the screen and the distance between them.

use vstd::prelude::*;
use vstd::math::abs;
use crate::sqrt::{
    lemma_nearest_root_bound, lemma_nearest_root_monotonic, lemma_nearest_root_of_square,
    nearest_root, round_sqrt,
};

verus! {

/// The square of the Euclidean distance between `a` and `b`.
pub open spec fn squared_distance(a: (int, int), b: (int, int)) -> int {
    (a.0 - b.0) * (a.0 - b.0) + (a.1 - b.1) * (a.1 - b.1)
}

/// The Euclidean distance between `a` and `b`, rounded to the nearest
/// integer.
pub open spec fn rounded_distance(a: (int, int), b: (int, int)) -> int {
    nearest_root(squared_distance(a, b))
}

/// The distance from `a` to `b` is the distance from `b` to `a`.
pub proof fn lemma_distance_symmetric(a: (int, int), b: (int, int))
    ensures
        rounded_distance(a, b) == rounded_distance(b, a),
{
    assert((a.0 - b.0) * (a.0 - b.0) == (b.0 - a.0) * (b.0 - a.0)) by (nonlinear_arith);
    assert((a.1 - b.1) * (a.1 - b.1) == (b.1 - a.1) * (b.1 - a.1)) by (nonlinear_arith);
}

/// Every point is at distance zero from itself.
pub proof fn lemma_distance_to_self(a: (int, int))
    ensures
        rounded_distance(a, a) == 0,
{
    lemma_nearest_root_of_square(0);
}

/// Between two points on one vertical line the rounded distance is the
/// exact distance: the difference of their `y` coordinates. The same holds
/// on a horizontal line, of their `x` coordinates.
pub proof fn lemma_distance_along_axis(a: (int, int), b: (int, int))
    ensures
        a.0 == b.0 ==> rounded_distance(a, b) == abs(a.1 - b.1),
        a.1 == b.1 ==> rounded_distance(a, b) == abs(a.0 - b.0),
{
    let dx = a.0 - b.0;
    let dy = a.1 - b.1;
    let ax = abs(dx) as int;
    let ay = abs(dy) as int;
    assert(dx * dx == ax * ax) by (nonlinear_arith)
        requires
            ax == dx || ax == -dx,
    ;
    assert(dy * dy == ay * ay) by (nonlinear_arith)
        requires
            ay == dy || ay == -dy,
    ;
    lemma_nearest_root_of_square(ax);
    lemma_nearest_root_of_square(ay);
    if dx == 0 {
        assert(dx * dx == 0) by (nonlinear_arith)
            requires
                dx == 0,
        ;
        assert(squared_distance(a, b) == ay * ay);
    }
    if dy == 0 {
        assert(dy * dy == 0) by (nonlinear_arith)
            requires
                dy == 0,
        ;
        assert(squared_distance(a, b) == ax * ax);
    }
}

/// The rounded distance lies between the larger of the two differences of
/// the coordinates and their sum.
pub proof fn lemma_distance_bounds(a: (int, int), b: (int, int))
    ensures
        abs(a.0 - b.0) <= rounded_distance(a, b),
        abs(a.1 - b.1) <= rounded_distance(a, b),
        rounded_distance(a, b) <= abs(a.0 - b.0) + abs(a.1 - b.1),
{
    let ax = abs(a.0 - b.0) as int;
    let ay = abs(a.1 - b.1) as int;
    let n = squared_distance(a, b);
    assert(n == ax * ax + ay * ay) by (nonlinear_arith)
        requires
            n == (a.0 - b.0) * (a.0 - b.0) + (a.1 - b.1) * (a.1 - b.1),
            ax == a.0 - b.0 || ax == -(a.0 - b.0),
            ay == a.1 - b.1 || ay == -(a.1 - b.1),
    ;
    assert(0 <= ax * ax <= n && 0 <= ay * ay <= n && n <= (ax + ay) * (ax + ay))
        by (nonlinear_arith)
        requires
            n == ax * ax + ay * ay,
            0 <= ax,
            0 <= ay,
    ;
    lemma_nearest_root_of_square(ax);
    lemma_nearest_root_of_square(ay);
    lemma_nearest_root_of_square(ax + ay);
    lemma_nearest_root_monotonic(ax * ax, n);
    lemma_nearest_root_monotonic(ay * ay, n);
    lemma_nearest_root_monotonic(n, (ax + ay) * (ax + ay));
}

/// A point on the integer grid of the screen.
#[derive(Debug, Clone, Copy)]
pub struct Position {
    x: i32,
    y: i32,
}

impl View for Position {
    type V = (int, int);

    closed spec fn view(&self) -> (int, int) {
        (self.x as int, self.y as int)
    }
}

impl Default for Position {
    /// The origin.
    fn default() -> (p: Position)
        ensures
            p@ == (0int, 0int),
    {
        Position { x: 0, y: 0 }
    }
}

/// The distance between two coordinates on one axis.
fn gap(a: i32, b: i32) -> (d: u64)
    ensures
        d == if a >= b { a - b } else { b - a },
{
    if a >= b {
        (a as i64 - b as i64) as u64
    } else {
        (b as i64 - a as i64) as u64
    }
}

impl Position {
    /// The point with the given coordinates.
    pub fn new(x: i32, y: i32) -> (p: Position)
        ensures
            p@ == (x as int, y as int),
    {
        Position { x, y }
    }

    /// The Euclidean distance to `other`, rounded to the nearest integer.
    ///
    /// Two points of the grid can be farther apart than an `i32` can say:
    /// the result is then `i32::MAX`.
    pub fn distance(&self, other: Position) -> (d: i32)
        ensures
            d == if rounded_distance(self@, other@) > i32::MAX {
                i32::MAX as int
            } else {
                rounded_distance(self@, other@)
            },
    {
        let exact = self.exact_distance(other);
        if exact > i32::MAX as u64 {
            i32::MAX
        } else {
            exact as i32
        }
    }

    /// The Euclidean distance to `other`, rounded to the nearest integer,
    /// in a type wide enough for any two points.
    pub fn exact_distance(&self, other: Position) -> (d: u64)
        ensures
            d == rounded_distance(self@, other@),
    {
        let dx = gap(self.x, other.x) as u128;
        let dy = gap(self.y, other.y) as u128;
        proof {
            let limit: int = 0xffff_ffff;
            assert(dx * dx <= limit * limit) by (nonlinear_arith)
                requires
                    0 <= dx <= limit,
            ;
            assert(dy * dy <= limit * limit) by (nonlinear_arith)
                requires
                    0 <= dy <= limit,
            ;
            assert(dx * dx == (self.x - other.x) * (self.x - other.x)) by (nonlinear_arith)
                requires
                    dx == self.x - other.x || dx == other.x - self.x,
            ;
            assert(dy * dy == (self.y - other.y) * (self.y - other.y)) by (nonlinear_arith)
                requires
                    dy == self.y - other.y || dy == other.y - self.y,
            ;
            assert(0 <= dx * dx) by (nonlinear_arith);
            assert(0 <= dy * dy) by (nonlinear_arith);
            assert(limit * limit + limit * limit <= 0x2_0000_0000 * 0x2_0000_0000);
            lemma_nearest_root_bound(squared_distance(self@, other@), 0x2_0000_0000);
        }
        let n: u128 = dx * dx + dy * dy;
        round_sqrt(n) as u64
    }

    /// The coordinates of the point, `x` first.
    pub fn aquire(&self) -> (at: (i32, i32))
        ensures
            (at.0 as int, at.1 as int) == self@,
    {
        (self.x, self.y)
    }

    /// Moves the point to the given coordinates.
    pub fn update(&mut self, x: i32, y: i32)
        ensures
            final(self)@ == (x as int, y as int),
    {
        self.x = x;
        self.y = y;
    }
}

} // verus!
