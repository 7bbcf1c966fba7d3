//! A fixed-resolution circular histogram of directional interest.
//!
//! The circle is split into `SEGMENT_COUNT` segments; segment `i` points
//! along the angle `i * 360 / SEGMENT_COUNT` degrees and carries a
//! non-negative fixed-point interest value. Behaviours write into the map
//! with [`ContextMap::add`], which keeps the strongest interest per
//! segment rather than summing; an avoid map is subtracted from a chase
//! map with [`ContextMap::mask`], clamped at zero; and
//! [`ContextMap::get_vector`] turns the strongest window of segments into
//! a single normalised direction.

use vstd::prelude::*;
use vstd::arithmetic::div_mod::lemma_div_is_ordered;
use vstd::arithmetic::div_mod::lemma_mod_add_multiples_vanish;
use crate::vec2::{Vec2i, SCALE};

verus! {

/// Number of directional segments around the circle.
pub const SEGMENT_COUNT: usize = 12;

/// How many neighbouring segments on each side join the chosen segment
/// when a chase map is turned into a direction.
pub const SEGMENT_OFFSETS_CHASE: usize = 2;

/// The narrower aggregation radius used for avoid-style maps.
pub const SEGMENT_OFFSETS_AVOID: usize = 1;

/// Upper bound on a segment's interest value; every combination method
/// stays below it for weights within `WEIGHT_LIMIT`.
pub const VALUE_LIMIT: i64 = 50_000;

/// Upper bound on a weight passed to `add` (fixed-point, so ten times
/// full strength).
pub const WEIGHT_LIMIT: i64 = 10_000;

/// The unit direction of segment `i`, in fixed-point coordinates:
/// cosine and sine of `i * 30` degrees.
pub open spec fn segment_dir_spec(i: int) -> Vec2i {
    if i == 0 { Vec2i { x: 1000, y: 0 } }
    else if i == 1 { Vec2i { x: 866, y: 500 } }
    else if i == 2 { Vec2i { x: 500, y: 866 } }
    else if i == 3 { Vec2i { x: 0, y: 1000 } }
    else if i == 4 { Vec2i { x: -500i64, y: 866 } }
    else if i == 5 { Vec2i { x: -866i64, y: 500 } }
    else if i == 6 { Vec2i { x: -1000i64, y: 0 } }
    else if i == 7 { Vec2i { x: -866i64, y: -500i64 } }
    else if i == 8 { Vec2i { x: -500i64, y: -866i64 } }
    else if i == 9 { Vec2i { x: 0, y: -1000i64 } }
    else if i == 10 { Vec2i { x: 500, y: -866i64 } }
    else { Vec2i { x: 866, y: -500i64 } }
}

/// The unit direction vector of segment `i`.
pub fn segment_dir(i: usize) -> (r: Vec2i)
    requires
        i < SEGMENT_COUNT,
    ensures
        r == segment_dir_spec(i as int),
        r.is_unit_box(),
        r.wf(),
{
    match i {
        0 => Vec2i::new(1000, 0),
        1 => Vec2i::new(866, 500),
        2 => Vec2i::new(500, 866),
        3 => Vec2i::new(0, 1000),
        4 => Vec2i::new(-500, 866),
        5 => Vec2i::new(-866, 500),
        6 => Vec2i::new(-1000, 0),
        7 => Vec2i::new(-866, -500),
        8 => Vec2i::new(-500, -866),
        9 => Vec2i::new(0, -1000),
        10 => Vec2i::new(500, -866),
        _ => Vec2i::new(866, -500),
    }
}

/// The raw dot product of two vectors (fixed-point squared scale).
pub open spec fn dot_spec(a: Vec2i, b: Vec2i) -> int {
    a.x * b.x + a.y * b.y
}

/// How one `add` call combines a weight with the dot product between the
/// added direction and a segment's direction.
pub enum AddMethod {
    /// `max(dot * weight, 0)`.
    Dot(i64),
    /// `max(weight * (minimum + dot * minimum), 0)`: keeps a floor
    /// contribution scaled by `minimum` even for opposed directions.
    DotWithMinimum(i64, i64),
    /// `|1 - dot * weight|`: favours directions opposed to the added
    /// one, used for strafing around a target.
    DotInverted(i64),
}

impl Clone for AddMethod {
    fn clone(&self) -> (r: Self)
        ensures
            r == *self,
    {
        match self {
            AddMethod::Dot(w) => AddMethod::Dot(*w),
            AddMethod::DotWithMinimum(w, m) => AddMethod::DotWithMinimum(*w, *m),
            AddMethod::DotInverted(w) => AddMethod::DotInverted(*w),
        }
    }
}

impl Copy for AddMethod {}

impl AddMethod {
    /// The weight is non-negative and bounded; a minimum is at most one
    /// unit.
    pub open spec fn wf(self) -> bool {
        match self {
            AddMethod::Dot(w) => 0 <= w <= WEIGHT_LIMIT,
            AddMethod::DotWithMinimum(w, m) => 0 <= w <= WEIGHT_LIMIT && 0 <= m <= SCALE,
            AddMethod::DotInverted(w) => 0 <= w <= WEIGHT_LIMIT,
        }
    }
}

/// The interest value a method computes from a raw dot product `dot`
/// (scale `SCALE * SCALE`); the result is fixed-point (scale `SCALE`)
/// and never negative.
pub open spec fn add_value(method: AddMethod, dot: int) -> int {
    match method {
        AddMethod::Dot(w) => {
            let num = dot * w;
            if num <= 0 { 0int } else { num / 1_000_000 }
        },
        AddMethod::DotWithMinimum(w, m) => {
            let num = w * m * (1_000_000 + dot);
            if num <= 0 { 0int } else { num / 1_000_000_000 }
        },
        AddMethod::DotInverted(w) => {
            let num = 1_000_000_000 - dot * w;
            (if num < 0 { -num } else { num }) / 1_000_000
        },
    }
}

/// The larger of two values.
pub open spec fn max_val(a: int, b: int) -> int {
    if a >= b { a } else { b }
}

/// `post` is `pre` after one `add` of `v` with `method`: each segment
/// keeps the larger of its old value and the method's value for that
/// segment.
pub open spec fn add_relates(pre: ContextMap, post: ContextMap, v: Vec2i, method: AddMethod) -> bool {
    forall|i: int| 0 <= i < SEGMENT_COUNT ==>
        post.values@[i] == max_val(pre.values@[i] as int, add_value(method, dot_spec(v, segment_dir_spec(i))))
}

/// The larger of a stored segment value and a freshly computed one.
pub open spec fn max_seg(a: i64, b: int) -> i64 {
    if a as int >= b { a } else { b as i64 }
}

/// The segment values after one `add` of `v` with `method`.
pub open spec fn added_values(pre: Seq<i64>, v: Vec2i, method: AddMethod) -> Seq<i64> {
    Seq::new(pre.len(), |i: int| max_seg(pre[i], add_value(method, dot_spec(v, segment_dir_spec(i)))))
}

/// `r` is `a` masked by `b`: each segment is `a`'s value minus `b`'s,
/// clamped at zero.
pub open spec fn mask_relates(a: ContextMap, b: ContextMap, r: ContextMap) -> bool {
    forall|i: int| 0 <= i < SEGMENT_COUNT ==>
        r.values@[i] == max_val(a.values@[i] - b.values@[i], 0)
}

/// A circular histogram of directional interest values.
#[derive(Clone, Debug)]
pub struct ContextMap {
    pub values: [i64; 12],
}

impl ContextMap {
    /// All values are non-negative and bounded.
    pub open spec fn wf(self) -> bool {
        forall|i: int| 0 <= i < SEGMENT_COUNT ==> 0 <= #[trigger] self.values@[i] <= VALUE_LIMIT
    }

    /// Every segment holds exactly zero.
    pub open spec fn is_empty_spec(self) -> bool {
        forall|i: int| 0 <= i < SEGMENT_COUNT ==> #[trigger] self.values@[i] == 0
    }

    /// A zero-filled map.
    pub fn new() -> (r: Self)
        ensures
            r.wf(),
            r.is_empty_spec(),
    {
        let r = ContextMap { values: [0; 12] };
        proof {
            assert(forall|i: int| 0 <= i < SEGMENT_COUNT ==> #[trigger] r.values@[i] == 0);
        }
        r
    }

    /// True iff every segment is exactly zero.
    pub fn is_empty(&self) -> (r: bool)
        ensures
            r == self.is_empty_spec(),
    {
        let mut i: usize = 0;
        while i < 12
            invariant
                i <= 12,
                forall|j: int| 0 <= j < i ==> #[trigger] self.values@[j] == 0,
            decreases 12 - i,
        {
            if self.values[i] != 0 {
                return false;
            }
            i += 1;
        }
        true
    }

    /// Subtract `context_map` from this map, clamping each segment at
    /// zero. Suppresses chase directions that coincide with strong avoid
    /// directions; no segment ever goes negative.
    pub fn mask(&self, context_map: &ContextMap) -> (r: ContextMap)
        requires
            self.wf(),
            context_map.wf(),
        ensures
            mask_relates(*self, *context_map, r),
            r.wf(),
    {
        let mut masked = ContextMap { values: [0; 12] };
        proof {
            assert(forall|j: int| 0 <= j < SEGMENT_COUNT ==> #[trigger] masked.values@[j] == 0);
        }
        let mut i: usize = 0;
        while i < 12
            invariant
                i <= 12,
                self.wf(),
                context_map.wf(),
                forall|j: int| 0 <= j < i ==>
                    #[trigger] masked.values@[j] == max_val(self.values@[j] - context_map.values@[j], 0),
                forall|j: int| 0 <= j < 12 ==> 0 <= #[trigger] masked.values@[j] <= VALUE_LIMIT,
            decreases 12 - i,
        {
            let a = self.values[i];
            let b = context_map.values[i];
            if a > b {
                masked.values[i] = a - b;
            } else {
                masked.values[i] = 0;
            }
            i += 1;
        }
        masked
    }

    /// Write a direction of interest into the map: for every segment,
    /// combine the dot product between `vector` and the segment's
    /// direction with the method's weight, and keep the larger of the
    /// segment's current value and the result. Repeating a call never
    /// accumulates: the strongest interest per segment wins.
    pub fn add(&mut self, vector: Vec2i, add_method: AddMethod)
        requires
            old(self).wf(),
            vector.is_unit_box(),
            add_method.wf(),
        ensures
            final(self).wf(),
            add_relates(*old(self), *final(self), vector, add_method),
            final(self).values@ == added_values(old(self).values@, vector, add_method),
    {
        let mut i: usize = 0;
        while i < 12
            invariant
                i <= 12,
                vector.is_unit_box(),
                add_method.wf(),
                forall|j: int| 0 <= j < i ==>
                    #[trigger] self.values@[j]
                        == max_val(old(self).values@[j] as int, add_value(add_method, dot_spec(vector, segment_dir_spec(j)))),
                forall|j: int| i <= j < 12 ==> #[trigger] self.values@[j] == old(self).values@[j],
                forall|j: int| 0 <= j < 12 ==> 0 <= #[trigger] self.values@[j] <= VALUE_LIMIT,
            decreases 12 - i,
        {
            let dir = segment_dir(i);
            proof {
                assert(vector.x * dir.x <= 1_000_000 && vector.x * dir.x >= -1_000_000) by (nonlinear_arith)
                    requires -1000 <= vector.x <= 1000 && -1000 <= dir.x <= 1000;
                assert(vector.y * dir.y <= 1_000_000 && vector.y * dir.y >= -1_000_000) by (nonlinear_arith)
                    requires -1000 <= vector.y <= 1000 && -1000 <= dir.y <= 1000;
            }
            let dot_product = vector.dot(dir);
            let value = add_value_exec(add_method, dot_product);
            if value > self.values[i] {
                self.values[i] = value;
            }
            i += 1;
        }
        proof {
            assert forall|j: int| 0 <= j < SEGMENT_COUNT implies
                self.values@[j] == added_values(old(self).values@, vector, add_method)[j] by {
                let val = add_value(add_method, dot_spec(vector, segment_dir_spec(j)));
                assert(self.values@[j] == max_val(old(self).values@[j] as int, val));
                if old(self).values@[j] as int >= val {
                    assert(max_seg(old(self).values@[j], val) == old(self).values@[j]);
                } else {
                    assert(self.values@[j] as int == val);
                    assert((val as i64) as int == val);
                }
            }
            assert(self.values@ =~= added_values(old(self).values@, vector, add_method));
        }
    }

    /// Wrap `index + offset` around the circle of segments.
    pub fn get_index_offset(&self, index: isize, offset: isize) -> (r: usize)
        requires
            0 <= index < SEGMENT_COUNT,
            -(SEGMENT_COUNT as int) <= offset <= SEGMENT_COUNT,
        ensures
            r as int == wrap_spec(index + offset),
    {
        let shifted: isize = index + offset + 12;
        let r: usize = (shifted as usize) % 12;
        proof {
            lemma_mod_add_multiples_vanish(index + offset, 12);
        }
        r
    }

    /// Turn the map into a single direction: pick a dominant segment,
    /// sum that segment and `segment_offset` neighbours on each side
    /// (directions scaled by their interest values), and normalise the
    /// resultant. An all-zero map yields the zero vector.
    ///
    /// When `current_vector` is zero the dominant segment is the first
    /// non-zero segment closest in direction to `current_vector` (all
    /// dot products tie at zero, so the first non-zero segment wins);
    /// otherwise it is the globally strongest segment, ties broken by
    /// the lowest index.
    pub fn get_vector(&self, current_vector: &Vec2i, segment_offset: isize) -> (r: Vec2i)
        requires
            self.wf(),
            current_vector.is_unit_box(),
            0 <= segment_offset <= 5,
        ensures
            r.is_unit_box(),
            self.is_empty_spec() ==> r.is_zero(),
            exists|i: int|
                #[trigger] chosen_index(*self, *current_vector, i)
                && ({
                    let s = window_sum(*self, i, segment_offset as int, (2 * segment_offset + 1) as nat);
                    (r.x as int, r.y as int) == Vec2i::normalize_spec(s.0, s.1)
                }),
    {
        let index: usize = if current_vector.eq_zero() {
            match get_closest(*current_vector, self) {
                Some(i) => i,
                None => get_max(self),
            }
        } else {
            get_max(self)
        };
        let ghost chosen: int = index as int;
        proof {
            assert(chosen_index(*self, *current_vector, chosen));
        }

        let spread: usize = segment_offset as usize;
        let count: usize = 2 * spread + 1;
        let mut sx: i64 = 0;
        let mut sy: i64 = 0;
        let mut t: usize = 0;
        while t < count
            invariant
                t <= count,
                count == 2 * spread + 1,
                spread <= 5,
                index < SEGMENT_COUNT,
                self.wf(),
                (sx as int, sy as int) == window_sum(*self, index as int, spread as int, t as nat),
                -50_000_000 * t <= sx as int <= 50_000_000 * t,
                -50_000_000 * t <= sy as int <= 50_000_000 * t,
            decreases count - t,
        {
            let offseted_index = self.get_index_offset(index as isize, t as isize - spread as isize);
            let d = segment_dir(offseted_index);
            let v = self.values[offseted_index];
            proof {
                assert(d.x * v <= 50_000_000 && d.x * v >= -50_000_000) by (nonlinear_arith)
                    requires -1000 <= d.x <= 1000 && 0 <= v <= VALUE_LIMIT;
                assert(d.y * v <= 50_000_000 && d.y * v >= -50_000_000) by (nonlinear_arith)
                    requires -1000 <= d.y <= 1000 && 0 <= v <= VALUE_LIMIT;
            }
            sx = sx + d.x * v;
            sy = sy + d.y * v;
            t += 1;
        }
        let total = Vec2i::new(sx, sy);
        proof {
            if self.is_empty_spec() {
                lemma_window_sum_empty(*self, index as int, spread as int, t as nat);
            }
        }
        total.normalize_or_zero()
    }
}

/// An index wrapped onto the circle of segments.
pub open spec fn wrap_spec(i: int) -> int {
    i % (SEGMENT_COUNT as int)
}

/// `i` is the strongest segment of `cm`, ties broken by the lowest
/// index.
pub open spec fn is_peak_index(cm: ContextMap, i: int) -> bool {
    &&& 0 <= i < SEGMENT_COUNT
    &&& forall|j: int| 0 <= j < SEGMENT_COUNT ==> #[trigger] cm.values@[j] <= cm.values@[i]
    &&& forall|j: int| 0 <= j < i ==> #[trigger] cm.values@[j] < cm.values@[i]
}

/// `i` is the first non-zero segment of `cm` whose direction is closest
/// to `v` (by dot product).
pub open spec fn is_closest_index(cm: ContextMap, v: Vec2i, i: int) -> bool {
    &&& 0 <= i < SEGMENT_COUNT
    &&& cm.values@[i] > 0
    &&& forall|j: int| 0 <= j < SEGMENT_COUNT && #[trigger] cm.values@[j] > 0
        ==> dot_spec(segment_dir_spec(j), v) <= dot_spec(segment_dir_spec(i), v)
    &&& forall|j: int| 0 <= j < i && #[trigger] cm.values@[j] > 0
        ==> dot_spec(segment_dir_spec(j), v) < dot_spec(segment_dir_spec(i), v)
}

/// The segment `get_vector` aggregates around: for a zero previous
/// direction, the first non-zero segment closest to it (falling back to
/// the peak when the map is empty); otherwise the peak segment.
pub open spec fn chosen_index(cm: ContextMap, prev: Vec2i, i: int) -> bool {
    if prev.is_zero() {
        if cm.is_empty_spec() {
            is_peak_index(cm, i)
        } else {
            is_closest_index(cm, prev, i)
        }
    } else {
        is_peak_index(cm, i)
    }
}

/// The component-wise sum of the first `count` segments of the window
/// centred on `center` with radius `spread`, each direction scaled by
/// its interest value.
pub open spec fn window_sum(cm: ContextMap, center: int, spread: int, count: nat) -> (int, int)
    decreases count,
{
    if count == 0 {
        (0int, 0int)
    } else {
        let prev = window_sum(cm, center, spread, (count - 1) as nat);
        let idx = wrap_spec(center - spread + count - 1);
        let d = segment_dir_spec(idx);
        (prev.0 + d.x * cm.values@[idx], prev.1 + d.y * cm.values@[idx])
    }
}

/// The window sum over an all-zero map is the zero vector.
pub proof fn lemma_window_sum_empty(cm: ContextMap, center: int, spread: int, count: nat)
    requires
        cm.is_empty_spec(),
    ensures
        window_sum(cm, center, spread, count) == (0int, 0int),
    decreases count,
{
    if count > 0 {
        lemma_window_sum_empty(cm, center, spread, (count - 1) as nat);
        let idx = wrap_spec(center - spread + count - 1);
        assert(0 <= idx < SEGMENT_COUNT);
        assert(cm.values@[idx] == 0);
    }
}

/// The strongest segment, ties broken by the lowest index.
pub fn get_max(cm: &ContextMap) -> (r: usize)
    ensures
        is_peak_index(*cm, r as int),
{
    let mut best: usize = 0;
    let mut i: usize = 1;
    while i < 12
        invariant
            1 <= i <= 12,
            best < i,
            forall|j: int| 0 <= j < i ==> #[trigger] cm.values@[j] <= cm.values@[best as int],
            forall|j: int| 0 <= j < best ==> #[trigger] cm.values@[j] < cm.values@[best as int],
        decreases 12 - i,
    {
        if cm.values[i] > cm.values[best] {
            best = i;
        }
        i += 1;
    }
    best
}

/// The first non-zero segment whose direction is closest to `v`, or
/// `None` when every segment is zero.
pub fn get_closest(v: Vec2i, cm: &ContextMap) -> (r: Option<usize>)
    requires
        v.wf(),
        cm.wf(),
    ensures
        match r {
            Some(i) => is_closest_index(*cm, v, i as int),
            None => cm.is_empty_spec(),
        },
{
    let mut current_data: Option<(usize, i64)> = None;
    let mut i: usize = 0;
    while i < 12
        invariant
            i <= 12,
            v.wf(),
            cm.wf(),
            match current_data {
                Some((b, d)) => {
                    &&& (b as int) < i
                    &&& cm.values@[b as int] > 0
                    &&& d == dot_spec(segment_dir_spec(b as int), v)
                    &&& forall|j: int| 0 <= j < i && #[trigger] cm.values@[j] > 0
                        ==> dot_spec(segment_dir_spec(j), v) <= d
                    &&& forall|j: int| 0 <= j < b && #[trigger] cm.values@[j] > 0
                        ==> dot_spec(segment_dir_spec(j), v) < d
                },
                None => forall|j: int| 0 <= j < i ==> #[trigger] cm.values@[j] == 0,
            },
        decreases 12 - i,
    {
        if cm.values[i] > 0 {
            let dir = segment_dir(i);
            let difference = dir.dot(v);
            match current_data {
                Some((_, current_difference)) => {
                    if difference > current_difference {
                        current_data = Some((i, difference));
                    }
                },
                None => {
                    current_data = Some((i, difference));
                },
            }
        }
        i += 1;
    }
    match current_data {
        Some((index, _)) => Some(index),
        None => None,
    }
}

/// Adding the same direction with the same method twice leaves the map
/// as it was after the first call: segments keep the maximum, they
/// never accumulate.
pub proof fn lemma_add_idempotent(pre: ContextMap, once: ContextMap, twice: ContextMap, v: Vec2i, method: AddMethod)
    requires
        add_relates(pre, once, v, method),
        add_relates(once, twice, v, method),
    ensures
        twice.values@ == once.values@,
{
    assert forall|i: int| 0 <= i < SEGMENT_COUNT implies twice.values@[i] == once.values@[i] by {
        let val = add_value(method, dot_spec(v, segment_dir_spec(i)));
        assert(once.values@[i] == max_val(pre.values@[i] as int, val));
        assert(twice.values@[i] == max_val(once.values@[i] as int, val));
    }
    assert(twice.values@ =~= once.values@);
}

/// A second `Dot` call with a larger weight raises each segment to the
/// new value exactly as a single call with that weight would; values
/// are never summed.
pub proof fn lemma_add_weight_monotonic(pre: ContextMap, a1: ContextMap, a2: ContextMap, v: Vec2i, w1: i64, w2: i64)
    requires
        0 <= w1 <= w2 <= WEIGHT_LIMIT,
        add_relates(pre, a1, v, AddMethod::Dot(w1)),
        add_relates(a1, a2, v, AddMethod::Dot(w2)),
    ensures
        add_relates(pre, a2, v, AddMethod::Dot(w2)),
{
    assert forall|i: int| 0 <= i < SEGMENT_COUNT implies
        a2.values@[i] == max_val(pre.values@[i] as int, add_value(AddMethod::Dot(w2), dot_spec(v, segment_dir_spec(i)))) by {
        let d = dot_spec(v, segment_dir_spec(i));
        let v1 = add_value(AddMethod::Dot(w1), d);
        let v2 = add_value(AddMethod::Dot(w2), d);
        if d <= 0 {
            assert(d * w1 <= 0 && d * w2 <= 0) by (nonlinear_arith)
                requires d <= 0 && w1 >= 0 && w2 >= 0;
            assert(v1 == 0 && v2 == 0);
        } else {
            assert(0 <= d * w1 <= d * w2) by (nonlinear_arith)
                requires d > 0 && 0 <= w1 <= w2;
            if d * w1 > 0 {
                lemma_div_is_ordered(d * w1, d * w2, 1_000_000);
                vstd::arithmetic::div_mod::lemma_div_pos_is_pos(d * w1, 1_000_000);
            }
            assert(v1 <= v2);
        }
        assert(a1.values@[i] == max_val(pre.values@[i] as int, v1));
        assert(a2.values@[i] == max_val(a1.values@[i] as int, v2));
    }
}

/// Masking never produces a negative segment.
pub proof fn lemma_mask_nonneg(a: ContextMap, b: ContextMap, r: ContextMap)
    requires
        mask_relates(a, b, r),
    ensures
        forall|i: int| 0 <= i < SEGMENT_COUNT ==> #[trigger] r.values@[i] >= 0,
{
}

/// Masking by an all-zero map leaves every segment value unchanged.
pub proof fn lemma_mask_by_empty(a: ContextMap, b: ContextMap, r: ContextMap)
    requires
        mask_relates(a, b, r),
        b.is_empty_spec(),
        a.wf(),
    ensures
        r.values@ == a.values@,
{
    assert forall|i: int| 0 <= i < SEGMENT_COUNT implies r.values@[i] == a.values@[i] by {
        assert(b.values@[i] == 0);
        assert(a.values@[i] >= 0);
    }
    assert(r.values@ =~= a.values@);
}

/// Compute `add_value` executably, with all divisions on non-negative
/// numerators so that truncating and euclidean division agree.
fn add_value_exec(method: AddMethod, dot: i64) -> (r: i64)
    requires
        method.wf(),
        -2_000_000 <= dot <= 2_000_000,
    ensures
        r == add_value(method, dot as int),
        0 <= r <= VALUE_LIMIT,
{
    match method {
        AddMethod::Dot(w) => {
            proof {
                assert(dot * w <= 2_000_000 * WEIGHT_LIMIT && dot * w >= -2_000_000 * WEIGHT_LIMIT) by (nonlinear_arith)
                    requires -2_000_000 <= dot <= 2_000_000 && 0 <= w <= WEIGHT_LIMIT;
            }
            let num: i64 = dot * w;
            if num <= 0 {
                0
            } else {
                let q: u64 = (num as u64) / 1_000_000;
                proof {
                    lemma_div_is_ordered(num as int, 2_000_000 * WEIGHT_LIMIT, 1_000_000);
                }
                q as i64
            }
        },
        AddMethod::DotWithMinimum(w, m) => {
            proof {
                assert(w * m <= WEIGHT_LIMIT * SCALE && w * m >= 0) by (nonlinear_arith)
                    requires 0 <= w <= WEIGHT_LIMIT && 0 <= m <= SCALE;
            }
            let p: i64 = w * m;
            let t: i64 = 1_000_000 + dot;
            proof {
                assert(p * t <= WEIGHT_LIMIT * SCALE * 3_000_000 && p * t >= -(WEIGHT_LIMIT * SCALE * 3_000_000)) by (nonlinear_arith)
                    requires 0 <= p <= WEIGHT_LIMIT * SCALE && -1_000_000 <= t <= 3_000_000;
            }
            let num: i64 = p * t;
            if num <= 0 {
                0
            } else {
                let q: u64 = (num as u64) / 1_000_000_000;
                proof {
                    lemma_div_is_ordered(num as int, WEIGHT_LIMIT * SCALE * 3_000_000, 1_000_000_000);
                }
                q as i64
            }
        },
        AddMethod::DotInverted(w) => {
            proof {
                assert(dot * w <= 2_000_000 * WEIGHT_LIMIT && dot * w >= -2_000_000 * WEIGHT_LIMIT) by (nonlinear_arith)
                    requires -2_000_000 <= dot <= 2_000_000 && 0 <= w <= WEIGHT_LIMIT;
            }
            let num: i64 = 1_000_000_000 - dot * w;
            let a: i64 = if num < 0 { -num } else { num };
            let q: u64 = (a as u64) / 1_000_000;
            proof {
                lemma_div_is_ordered(a as int, 21_000_000_000, 1_000_000);
            }
            q as i64
        },
    }
}

} // verus!
