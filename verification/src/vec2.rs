//! Integer 2D vectors in fixed-point arithmetic.
//!
//! A component of `SCALE` (1000) stands for a length of `1.0`; positions
//! and offsets use the same unit as distances. Vector length is the
//! integer square root of the squared norm, and normalisation scales a
//! vector to (at most) unit length, component-wise, rounding towards
//! zero.

use vstd::prelude::*;

verus! {

/// Fixed-point scale: a scalar of `SCALE` stands for `1.0`.
pub const SCALE: i64 = 1000;

/// Every coordinate handled by the library stays within this bound; it
/// keeps squared norms and dot products inside `i64`.
pub const COORD_LIMIT: i64 = 2_000_000;

/// The wider bound accepted by `length` and `normalize_or_zero`; large
/// enough for sums of weighted direction vectors, small enough that the
/// squared norm still fits in an `i64`.
pub const NORM_LIMIT: i64 = 2_000_000_000;

/// Bound on world positions, in plain units; differences of two
/// positions then stay within `COORD_LIMIT`.
pub const POS_LIMIT: i64 = 1_000_000;

/// `r` is the integer square root of `v`.
pub open spec fn is_sqrt(v: nat, r: nat) -> bool {
    r * r <= v && v < (r + 1) * (r + 1)
}

/// The integer square root, defined by counting up.
pub open spec fn sqrt_spec(v: nat) -> nat
    decreases v,
{
    if v == 0 {
        0
    } else {
        let p = sqrt_spec((v - 1) as nat);
        if (p + 1) * (p + 1) <= v {
            p + 1
        } else {
            p
        }
    }
}

pub proof fn lemma_sqrt_spec_is_sqrt(v: nat)
    ensures
        is_sqrt(v, sqrt_spec(v)),
    decreases v,
{
    if v == 0 {
        assert(sqrt_spec(0nat) == 0nat);
        assert(is_sqrt(0nat, 0nat)) by (nonlinear_arith);
    }
    if v > 0 {
        let p = sqrt_spec((v - 1) as nat);
        lemma_sqrt_spec_is_sqrt((v - 1) as nat);
        assert(p * p <= v - 1);
        assert(v - 1 < (p + 1) * (p + 1));
        if (p + 1) * (p + 1) <= v {
            assert(sqrt_spec(v) == p + 1);
            assert(v == (p + 1) * (p + 1));
            assert(v < (p + 1 + 1) * (p + 1 + 1)) by (nonlinear_arith)
                requires v == (p + 1) * (p + 1);
        } else {
            assert(sqrt_spec(v) == p);
        }
    }
}

/// An integer square root is unique.
pub proof fn lemma_sqrt_unique(v: nat, r1: nat, r2: nat)
    requires
        is_sqrt(v, r1),
        is_sqrt(v, r2),
    ensures
        r1 == r2,
{
    if r1 < r2 {
        assert((r1 + 1) * (r1 + 1) <= r2 * r2) by (nonlinear_arith)
            requires r1 + 1 <= r2;
    }
    if r2 < r1 {
        assert((r2 + 1) * (r2 + 1) <= r1 * r1) by (nonlinear_arith)
            requires r2 + 1 <= r1;
    }
}

/// Integer square root of a `u64`, by bisection.
pub fn isqrt(v: u64) -> (r: u64)
    ensures
        r as nat == sqrt_spec(v as nat),
        is_sqrt(v as nat, r as nat),
{
    let mut lo: u64 = 0;
    let mut hi: u64 = 4_294_967_296;
    assert((hi as nat) * (hi as nat) > v as nat) by (nonlinear_arith)
        requires hi == 4_294_967_296u64 && v <= u64::MAX;
    while hi - lo > 1
        invariant
            lo < hi,
            hi <= 4_294_967_296,
            (lo as nat) * (lo as nat) <= v as nat,
            (v as nat) < (hi as nat) * (hi as nat),
        decreases hi - lo,
    {
        let mid: u64 = lo + (hi - lo) / 2;
        proof {
            assert((mid as int) * (mid as int) <= 4_294_967_296 * 4_294_967_296) by (nonlinear_arith)
                requires 0 <= mid as int <= 4_294_967_296;
        }
        let sq: u128 = (mid as u128) * (mid as u128);
        if sq <= v as u128 {
            lo = mid;
        } else {
            hi = mid;
        }
    }
    proof {
        lemma_sqrt_spec_is_sqrt(v as nat);
        lemma_sqrt_unique(v as nat, lo as nat, sqrt_spec(v as nat));
    }
    lo
}

/// A 2D vector of fixed-point coordinates.
#[derive(Clone, Copy, Debug, PartialEq, Eq, Structural)]
pub struct Vec2i {
    pub x: i64,
    pub y: i64,
}

impl Vec2i {
    /// Coordinates are within the library-wide bound.
    pub open spec fn wf(self) -> bool {
        -COORD_LIMIT <= self.x <= COORD_LIMIT && -COORD_LIMIT <= self.y <= COORD_LIMIT
    }

    /// Coordinates are within the wider bound for vector sums.
    pub open spec fn wf_wide(self) -> bool {
        -NORM_LIMIT <= self.x <= NORM_LIMIT && -NORM_LIMIT <= self.y <= NORM_LIMIT
    }

    /// A world position within bounds.
    pub open spec fn pos_wf(self) -> bool {
        -POS_LIMIT <= self.x <= POS_LIMIT && -POS_LIMIT <= self.y <= POS_LIMIT
    }

    /// The vector from position `a` to position `b`.
    pub open spec fn diff_of(a: Vec2i, b: Vec2i) -> Vec2i {
        Vec2i { x: (b.x - a.x) as i64, y: (b.y - a.y) as i64 }
    }

    /// The unit direction of this vector, as a vector (zero stays
    /// zero).
    pub open spec fn unit_dir(self) -> Vec2i {
        let p = Self::normalize_spec(self.x as int, self.y as int);
        Vec2i { x: p.0 as i64, y: p.1 as i64 }
    }

    /// One component scaled by the fixed-point `factor` (rounding
    /// towards zero).
    pub open spec fn scale_component(c: int, factor: int) -> int {
        if c >= 0 {
            (c * factor) / (SCALE as int)
        } else {
            -(((-c) * factor) / (SCALE as int))
        }
    }

    /// Components no larger than one unit; what normalisation returns.
    pub open spec fn is_unit_box(self) -> bool {
        -SCALE <= self.x <= SCALE && -SCALE <= self.y <= SCALE
    }

    pub open spec fn is_zero(self) -> bool {
        self.x == 0 && self.y == 0
    }

    /// The squared euclidean norm.
    pub open spec fn norm2(self) -> int {
        self.x * self.x + self.y * self.y
    }

    /// The integer length (square root of the squared norm).
    pub open spec fn length_spec(self) -> int {
        sqrt_spec(self.norm2() as nat) as int
    }

    /// One normalised component: `c` scaled by `SCALE / len`, rounding
    /// towards zero.
    pub open spec fn norm_component(c: int, len: int) -> int {
        if c >= 0 {
            (c * SCALE) / len
        } else {
            -(((-c) * SCALE) / len)
        }
    }

    /// What normalisation returns for a vector `(x, y)`: the zero vector
    /// stays zero, anything else is scaled by `SCALE` over its length.
    pub open spec fn normalize_spec(x: int, y: int) -> (int, int) {
        if x == 0 && y == 0 {
            (0int, 0int)
        } else {
            let l = sqrt_spec((x * x + y * y) as nat) as int;
            (Self::norm_component(x, l), Self::norm_component(y, l))
        }
    }

    pub fn new(x: i64, y: i64) -> (r: Self)
        ensures
            r == (Vec2i { x, y }),
    {
        Vec2i { x, y }
    }

    pub fn zero() -> (r: Self)
        ensures
            r.is_zero(),
            r == (Vec2i { x: 0i64, y: 0i64 }),
    {
        Vec2i { x: 0, y: 0 }
    }

    pub fn eq_zero(&self) -> (r: bool)
        ensures
            r == self.is_zero(),
    {
        self.x == 0 && self.y == 0
    }

    /// Component-wise difference.
    pub fn sub(self, other: Self) -> (r: Self)
        requires
            self.wf(),
            other.wf(),
        ensures
            r.x == self.x - other.x,
            r.y == self.y - other.y,
    {
        Vec2i { x: self.x - other.x, y: self.y - other.y }
    }

    /// Component-wise sum.
    pub fn plus(self, other: Self) -> (r: Self)
        requires
            self.wf(),
            other.wf(),
        ensures
            r.x == self.x + other.x,
            r.y == self.y + other.y,
    {
        Vec2i { x: self.x + other.x, y: self.y + other.y }
    }

    /// The raw dot product, without rescaling.
    pub fn dot(self, other: Self) -> (r: i64)
        requires
            self.wf(),
            other.wf(),
        ensures
            r == self.x * other.x + self.y * other.y,
    {
        proof {
            assert(self.x * other.x <= COORD_LIMIT * COORD_LIMIT
                && self.x * other.x >= -(COORD_LIMIT * COORD_LIMIT)) by (nonlinear_arith)
                requires -COORD_LIMIT <= self.x <= COORD_LIMIT && -COORD_LIMIT <= other.x <= COORD_LIMIT;
            assert(self.y * other.y <= COORD_LIMIT * COORD_LIMIT
                && self.y * other.y >= -(COORD_LIMIT * COORD_LIMIT)) by (nonlinear_arith)
                requires -COORD_LIMIT <= self.y <= COORD_LIMIT && -COORD_LIMIT <= other.y <= COORD_LIMIT;
        }
        self.x * other.x + self.y * other.y
    }

    /// The integer length of the vector.
    pub fn length(self) -> (r: i64)
        requires
            self.wf_wide(),
        ensures
            r == self.length_spec(),
            is_sqrt(self.norm2() as nat, r as nat),
            0 <= r <= 3_000_000_000,
            r == 0 <==> self.is_zero(),
    {
        proof {
            assert(self.x * self.x <= NORM_LIMIT * NORM_LIMIT && self.x * self.x >= 0) by (nonlinear_arith)
                requires -NORM_LIMIT <= self.x <= NORM_LIMIT;
            assert(self.y * self.y <= NORM_LIMIT * NORM_LIMIT && self.y * self.y >= 0) by (nonlinear_arith)
                requires -NORM_LIMIT <= self.y <= NORM_LIMIT;
        }
        let sq: i64 = self.x * self.x + self.y * self.y;
        let r: u64 = isqrt(sq as u64);
        proof {
            assert(sq as int == self.norm2());
            assert(is_sqrt(sq as nat, r as nat));
            if r as int > 3_000_000_000 {
                assert((r as nat) * (r as nat) >= 3_000_000_001 * 3_000_000_001) by (nonlinear_arith)
                    requires r as int >= 3_000_000_001;
                assert(false);
            }
            if self.is_zero() {
                assert(self.x * self.x == 0) by (nonlinear_arith)
                    requires self.x == 0;
                assert(self.y * self.y == 0) by (nonlinear_arith)
                    requires self.y == 0;
                assert(sq == 0);
            }
            if sq > 0 && r == 0 {
                assert((r as nat + 1) * (r as nat + 1) == 1) by (nonlinear_arith)
                    requires r as nat == 0;
                assert(false);
            }
            if sq == 0 {
                assert(self.x == 0 && self.y == 0) by (nonlinear_arith)
                    requires self.x * self.x + self.y * self.y == 0;
            }
        }
        r as i64
    }

    /// Scale the vector to unit length (components of at most `SCALE`),
    /// rounding towards zero; the zero vector stays zero.
    pub fn normalize_or_zero(self) -> (r: Self)
        requires
            self.wf_wide(),
        ensures
            (r.x as int, r.y as int) == Self::normalize_spec(self.x as int, self.y as int),
            r == self.unit_dir(),
            self.is_zero() ==> r.is_zero(),
            !self.is_zero() ==> r.x == Self::norm_component(self.x as int, self.length_spec())
                && r.y == Self::norm_component(self.y as int, self.length_spec()),
            r.is_unit_box(),
    {
        let len = self.length();
        if len == 0 {
            return Vec2i { x: 0, y: 0 };
        }
        proof {
            lemma_abs_le_sqrt(self.x as int, self.y as int, len as int);
            assert(self.y * self.y + self.x * self.x == self.norm2());
            lemma_abs_le_sqrt(self.y as int, self.x as int, len as int);
        }
        let nx = div_scaled(self.x, len);
        let ny = div_scaled(self.y, len);
        Vec2i { x: nx, y: ny }
    }

    /// The squared distance between two positions.
    pub fn distance_squared(self, other: Self) -> (r: i64)
        requires
            self.pos_wf(),
            other.pos_wf(),
        ensures
            r == Self::diff_of(self, other).norm2(),
            0 <= r,
    {
        let dx: i64 = other.x - self.x;
        let dy: i64 = other.y - self.y;
        proof {
            assert(dx * dx <= COORD_LIMIT * COORD_LIMIT && dx * dx >= 0) by (nonlinear_arith)
                requires -COORD_LIMIT <= dx <= COORD_LIMIT;
            assert(dy * dy <= COORD_LIMIT * COORD_LIMIT && dy * dy >= 0) by (nonlinear_arith)
                requires -COORD_LIMIT <= dy <= COORD_LIMIT;
        }
        dx * dx + dy * dy
    }

    /// The integer distance between two positions.
    pub fn distance(self, other: Self) -> (r: i64)
        requires
            self.pos_wf(),
            other.pos_wf(),
        ensures
            r == Self::diff_of(self, other).length_spec(),
            0 <= r <= 3_000_000,
    {
        let diff = other.sub(self);
        let r = diff.length();
        proof {
            assert(diff == Self::diff_of(self, other));
            assert(0 <= diff.norm2() <= 2 * COORD_LIMIT * COORD_LIMIT) by (nonlinear_arith)
                requires -COORD_LIMIT <= diff.x <= COORD_LIMIT && -COORD_LIMIT <= diff.y <= COORD_LIMIT;
            if r > 3_000_000 {
                assert((r as nat) * (r as nat) >= 3_000_001 * 3_000_001) by (nonlinear_arith)
                    requires r as int >= 3_000_001;
                assert(false);
            }
        }
        r
    }

    /// The vector scaled by a fixed-point `factor` (so a factor of
    /// `SCALE` is the identity), rounding towards zero.
    pub fn scaled(self, factor: i64) -> (r: Self)
        requires
            self.is_unit_box(),
            0 <= factor <= 1_000_000,
        ensures
            r.x == Self::scale_component(self.x as int, factor as int),
            r.y == Self::scale_component(self.y as int, factor as int),
            -1_000_000 <= r.x <= 1_000_000,
            -1_000_000 <= r.y <= 1_000_000,
    {
        let rx = scale_one(self.x, factor);
        let ry = scale_one(self.y, factor);
        Vec2i { x: rx, y: ry }
    }
}

/// One component of `scaled`.
fn scale_one(c: i64, factor: i64) -> (r: i64)
    requires
        -SCALE <= c <= SCALE,
        0 <= factor <= 1_000_000,
    ensures
        r == Vec2i::scale_component(c as int, factor as int),
        -1_000_000 <= r <= 1_000_000,
{
    let a: i64 = if c >= 0 { c } else { -c };
    proof {
        assert(a * factor <= SCALE * 1_000_000 && a * factor >= 0) by (nonlinear_arith)
            requires 0 <= a <= SCALE && 0 <= factor <= 1_000_000;
        vstd::arithmetic::div_mod::lemma_div_is_ordered(a * factor, SCALE * 1_000_000, SCALE as int);
        vstd::arithmetic::div_mod::lemma_div_pos_is_pos(a * factor, SCALE as int);
    }
    let q: u64 = (a as u64 * factor as u64) / (SCALE as u64);
    if c >= 0 {
        q as i64
    } else {
        -(q as i64)
    }
}

/// `|a| <= sqrt(a*a + b*b)`.
proof fn lemma_abs_le_sqrt(a: int, b: int, len: int)
    requires
        is_sqrt((a * a + b * b) as nat, len as nat),
        len >= 0,
    ensures
        -len <= a <= len,
{
    assert(a * a >= 0 && b * b >= 0) by (nonlinear_arith);
    if a > len {
        assert(a * a >= (len + 1) * (len + 1)) by (nonlinear_arith)
            requires a >= len + 1 && len >= 0;
    }
    if a < -len {
        assert(a * a >= (len + 1) * (len + 1)) by (nonlinear_arith)
            requires a <= -(len + 1) && len >= 0;
    }
}

/// `c * SCALE / len` rounded towards zero, for `|c| <= len`.
fn div_scaled(c: i64, len: i64) -> (r: i64)
    requires
        0 < len <= 3_000_000_000,
        -len <= c <= len,
    ensures
        r == Vec2i::norm_component(c as int, len as int),
        -SCALE <= r <= SCALE,
{
    proof {
        assert(len * SCALE <= 3_000_000_000 * SCALE) by (nonlinear_arith)
            requires 0 < len <= 3_000_000_000;
    }
    if c >= 0 {
        proof {
            assert((c as int) * SCALE <= (len as int) * SCALE) by (nonlinear_arith)
                requires 0 <= c as int <= len as int;
        }
        let q: u64 = (c as u64 * SCALE as u64) / (len as u64);
        proof {
            lemma_div_le_scale(c as int, len as int);
        }
        q as i64
    } else {
        let a: i64 = -c;
        proof {
            assert((a as int) * SCALE <= (len as int) * SCALE) by (nonlinear_arith)
                requires 0 <= a as int <= len as int;
        }
        let q: u64 = (a as u64 * SCALE as u64) / (len as u64);
        proof {
            lemma_div_le_scale(a as int, len as int);
        }
        -(q as i64)
    }
}

/// `a * SCALE / len <= SCALE` when `a <= len`.
proof fn lemma_div_le_scale(a: int, len: int)
    requires
        0 <= a <= len,
        len > 0,
    ensures
        0 <= (a * SCALE) / len <= SCALE,
{
    assert(a * SCALE <= len * SCALE) by (nonlinear_arith)
        requires 0 <= a <= len;
    assert(a * SCALE >= 0) by (nonlinear_arith)
        requires a >= 0;
    assert((len * SCALE) / len == SCALE) by (nonlinear_arith)
        requires len > 0;
    assert((a * SCALE) / len <= (len * SCALE) / len) by (nonlinear_arith)
        requires 0 <= a * SCALE <= len * SCALE && len > 0;
    assert((a * SCALE) / len >= 0) by (nonlinear_arith)
        requires a * SCALE >= 0 && len > 0;
}

} // verus!
