//! Fixed-point geometry.
//!
//! Lengths are whole nanometres. Distances are never taken as square roots:
//! a distance is compared with a reach by comparing the two squares, which is
//! exact.

use vstd::prelude::*;

verus! {

/// A point in the space of one surface, in nanometres.
#[derive(Clone, Copy, Debug, PartialEq, Eq, Structural)]
pub struct Point3 {
    pub x: i64,
    pub y: i64,
    pub z: i64,
}

/// How a distance stands to a reach.
#[derive(Clone, Copy, Debug, PartialEq, Eq, Structural)]
pub enum Span {
    /// The distance is less than the reach.
    Shorter,
    /// The distance is the reach exactly.
    Equal,
    /// The distance is more than the reach.
    Longer,
}

/// The largest reach that `measure` takes: squares of lengths up to it, three
/// of them added, still fit in 128 bits.
pub const MAX_REACH: u64 = 0x4000_0000_0000_0000;

/// The distance between two coordinates on one axis.
pub open spec fn axis_gap(a: int, b: int) -> int {
    if a >= b {
        a - b
    } else {
        b - a
    }
}

/// The square of the Euclidean distance between two points.
pub open spec fn distance_squared(a: Point3, b: Point3) -> int {
    let dx = axis_gap(a.x as int, b.x as int);
    let dy = axis_gap(a.y as int, b.y as int);
    let dz = axis_gap(a.z as int, b.z as int);
    dx * dx + dy * dy + dz * dz
}

/// How the distance between `a` and `b` stands to `reach`.
pub open spec fn span_of(a: Point3, b: Point3, reach: int) -> Span {
    if distance_squared(a, b) < reach * reach {
        Span::Shorter
    } else if distance_squared(a, b) == reach * reach {
        Span::Equal
    } else {
        Span::Longer
    }
}

/// A square is never negative.
proof fn lemma_square_nonnegative(v: int)
    ensures
        v * v >= 0,
{
    assert(v * v >= 0) by (nonlinear_arith);
}

/// Squaring keeps the order of lengths.
proof fn lemma_square_monotonic(small: int, large: int)
    requires
        0 <= small <= large,
    ensures
        small * small <= large * large,
        small < large ==> small * small < large * large,
{
    assert(small * small <= large * large) by (nonlinear_arith)
        requires
            0 <= small <= large,
    ;
    assert(small < large ==> small * small < large * large) by (nonlinear_arith)
        requires
            0 <= small <= large,
    ;
}

/// Computes the distance between two coordinates on one axis.
pub fn axis_distance(a: i64, b: i64) -> (gap: u64)
    ensures
        gap == axis_gap(a as int, b as int),
{
    let wide_a: i128 = a as i128;
    let wide_b: i128 = b as i128;
    if wide_a >= wide_b {
        (wide_a - wide_b) as u64
    } else {
        (wide_b - wide_a) as u64
    }
}

/// Compares the distance between two points with a reach.
pub fn measure(a: Point3, b: Point3, reach: u64) -> (span: Span)
    requires
        reach <= MAX_REACH,
    ensures
        span == span_of(a, b, reach as int),
{
    let dx: u64 = axis_distance(a.x, b.x);
    let dy: u64 = axis_distance(a.y, b.y);
    let dz: u64 = axis_distance(a.z, b.z);
    proof {
        lemma_square_nonnegative(dx as int);
        lemma_square_nonnegative(dy as int);
        lemma_square_nonnegative(dz as int);
    }
    if dx > reach {
        proof {
            lemma_square_monotonic(reach as int, dx as int);
        }
        return Span::Longer;
    }
    if dy > reach {
        proof {
            lemma_square_monotonic(reach as int, dy as int);
        }
        return Span::Longer;
    }
    if dz > reach {
        proof {
            lemma_square_monotonic(reach as int, dz as int);
        }
        return Span::Longer;
    }
    proof {
        lemma_square_monotonic(dx as int, reach as int);
        lemma_square_monotonic(dy as int, reach as int);
        lemma_square_monotonic(dz as int, reach as int);
        lemma_square_monotonic(reach as int, MAX_REACH as int);
        assert(MAX_REACH * MAX_REACH == 0x1000_0000_0000_0000_0000_0000_0000_0000)
            by (nonlinear_arith);
    }
    let wide_x: u128 = dx as u128;
    let wide_y: u128 = dy as u128;
    let wide_z: u128 = dz as u128;
    let wide_reach: u128 = reach as u128;
    let total: u128 = wide_x * wide_x + wide_y * wide_y + wide_z * wide_z;
    let bound: u128 = wide_reach * wide_reach;
    if total < bound {
        Span::Shorter
    } else if total == bound {
        Span::Equal
    } else {
        Span::Longer
    }
}

} // verus!
