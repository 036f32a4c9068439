//! Fixed-point 3D vectors and the integer distance between two points.
//!
//! Coordinates are milliunits: a scene coordinate of `1.0` is stored as
//! `1000`. Distances are computed as the floor of the Euclidean norm, which
//! keeps every quantity an integer while staying within one milliunit of the
//! real distance.

use vstd::prelude::*;

verus! {

/// Largest coordinate magnitude the library works with, in milliunits
/// (one million scene units). Keeps every squared distance within `u64`.
pub const COORD_LIMIT: i64 = 1_000_000_000;

/// Largest distance `distance_milli` can return: bounds follow from
/// `COORD_LIMIT` (the true supremum is `sqrt(12) * 10^9`).
pub const DIST_LIMIT: i64 = 4_000_000_000;

/// A point or vector in scene space, in milliunits per axis.
#[derive(Clone, Copy, PartialEq, Eq, Structural, Debug)]
pub struct Vec3Milli {
    pub x: i64,
    pub y: i64,
    pub z: i64,
}

impl Vec3Milli {
    /// All coordinates within the range the distance computation supports.
    pub open spec fn in_bounds(self) -> bool {
        &&& -COORD_LIMIT <= self.x <= COORD_LIMIT
        &&& -COORD_LIMIT <= self.y <= COORD_LIMIT
        &&& -COORD_LIMIT <= self.z <= COORD_LIMIT
    }
}

/// Squared Euclidean distance between two points, as a mathematical integer.
pub open spec fn dist_sq(a: Vec3Milli, b: Vec3Milli) -> int {
    (a.x - b.x) * (a.x - b.x) + (a.y - b.y) * (a.y - b.y) + (a.z - b.z) * (a.z - b.z)
}

/// `r` is the floor of the square root of `s`.
pub open spec fn is_sqrt_floor(s: int, r: int) -> bool {
    &&& 0 <= r
    &&& r * r <= s
    &&& s < (r + 1) * (r + 1)
}

/// The floor of the square root of `s` (meaningful for `s >= 0`).
pub closed spec fn sqrt_floor(s: int) -> int {
    choose|r: int| is_sqrt_floor(s, r)
}

/// The floor of the square root is unique, so any witness equals `sqrt_floor`.
pub proof fn lemma_sqrt_floor_unique(s: int, r: int)
    requires
        is_sqrt_floor(s, r),
    ensures
        sqrt_floor(s) == r,
{
    let q = sqrt_floor(s);
    assert(is_sqrt_floor(s, q));
    if q < r {
        assert((q + 1) * (q + 1) <= r * r) by (nonlinear_arith)
            requires
                0 <= q,
                q < r,
        ;
        assert(false);
    }
    if r < q {
        assert((r + 1) * (r + 1) <= q * q) by (nonlinear_arith)
            requires
                0 <= r,
                r < q,
        ;
        assert(false);
    }
}

/// Floor of the square root of `n`, by binary search.
pub fn isqrt(n: u64) -> (r: u64)
    ensures
        is_sqrt_floor(n as int, r as int),
{
    let mut lo: u64 = 0;
    let mut hi: u64 = 4_294_967_296;
    assert((4_294_967_296int) * (4_294_967_296int) > u64::MAX as int) by (nonlinear_arith);
    while lo + 1 < hi
        invariant
            lo < hi <= 4_294_967_296,
            (lo as int) * (lo as int) <= n as int,
            (n as int) < (hi as int) * (hi as int),
        decreases hi - lo,
    {
        let mid: u64 = lo + (hi - lo) / 2;
        assert((mid as int) * (mid as int) <= (4_294_967_296int) * (4_294_967_296int)) by (nonlinear_arith)
            requires
                0 <= mid <= 4_294_967_296int,
        ;
        let sq: u128 = (mid as u128) * (mid as u128);
        if sq <= n as u128 {
            lo = mid;
        } else {
            hi = mid;
        }
    }
    lo
}

/// Euclidean distance between `a` and `b`, rounded down to a whole milliunit.
pub fn distance_milli(a: &Vec3Milli, b: &Vec3Milli) -> (r: i64)
    requires
        a.in_bounds(),
        b.in_bounds(),
    ensures
        0 <= r <= DIST_LIMIT,
        is_sqrt_floor(dist_sq(*a, *b), r as int),
        r as int == sqrt_floor(dist_sq(*a, *b)),
{
    let dx: i64 = a.x - b.x;
    let dy: i64 = a.y - b.y;
    let dz: i64 = a.z - b.z;
    assert(dx * dx <= 4_000_000_000_000_000_000 && dx * dx >= 0) by (nonlinear_arith)
        requires
            -2_000_000_000 <= dx <= 2_000_000_000,
    ;
    assert(dy * dy <= 4_000_000_000_000_000_000 && dy * dy >= 0) by (nonlinear_arith)
        requires
            -2_000_000_000 <= dy <= 2_000_000_000,
    ;
    assert(dz * dz <= 4_000_000_000_000_000_000 && dz * dz >= 0) by (nonlinear_arith)
        requires
            -2_000_000_000 <= dz <= 2_000_000_000,
    ;
    let sx: u64 = (dx * dx) as u64;
    let sy: u64 = (dy * dy) as u64;
    let sz: u64 = (dz * dz) as u64;
    let s: u64 = sx + sy + sz;
    let root: u64 = isqrt(s);
    assert(root <= DIST_LIMIT) by (nonlinear_arith)
        requires
            0 <= root,
            (root as int) * (root as int) <= s as int,
            s <= 12_000_000_000_000_000_000u64,
    ;
    proof {
        lemma_sqrt_floor_unique(dist_sq(*a, *b), root as int);
    }
    root as i64
}

} // verus!
