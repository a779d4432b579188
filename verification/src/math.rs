use vstd::prelude::*;

verus! {

/// A point or an extent in the plane, in whole layout units. The host picks
/// the unit (a point, or a fixed fraction of one) and keeps to it.
#[derive(Clone, Copy, PartialEq, Eq, Structural, Debug)]
pub struct Vec2 {
    pub x: i32,
    pub y: i32,
}

/// The vector with the given components.
pub fn vec2(x: i32, y: i32) -> (v: Vec2)
    ensures
        v == (Vec2 { x, y }),
{
    Vec2 { x, y }
}

impl Vec2 {
    /// The componentwise sum, each component held to the range of `i32`.
    pub open spec fn spec_plus(self, other: Vec2) -> Vec2 {
        Vec2 { x: saturate(self.x + other.x), y: saturate(self.y + other.y) }
    }

    /// The componentwise sum, each component held to the range of `i32`.
    #[verifier::when_used_as_spec(spec_plus)]
    pub fn plus(self, other: Vec2) -> (v: Vec2)
        ensures
            v == self.spec_plus(other),
    {
        Vec2 { x: add_saturating(self.x, other.x), y: add_saturating(self.y, other.y) }
    }
}

/// An axis-aligned rectangle, given by its least and its greatest corner.
/// Both edges belong to it.
#[derive(Clone, Copy, PartialEq, Eq, Structural, Debug)]
pub struct Rect {
    pub min: Vec2,
    pub max: Vec2,
}

impl Rect {
    /// The least corner is not beyond the greatest one on either axis.
    pub open spec fn well_formed(self) -> bool {
        self.min.x <= self.max.x && self.min.y <= self.max.y
    }

    /// The rectangle between the two corners.
    pub fn from_min_max(min: Vec2, max: Vec2) -> (r: Rect)
        ensures
            r == (Rect { min, max }),
    {
        Rect { min, max }
    }

    /// The rectangle that starts at `min` and spans `size`.
    pub fn from_min_size(min: Vec2, size: Vec2) -> (r: Rect)
        ensures
            r == (Rect { min, max: min.spec_plus(size) }),
    {
        Rect { min, max: min.plus(size) }
    }

    /// The point halfway between the corners, each coordinate rounded down.
    pub open spec fn spec_center(self) -> Vec2 {
        Vec2 {
            x: ((self.min.x + self.max.x) / 2) as i32,
            y: ((self.min.y + self.max.y) / 2) as i32,
        }
    }

    /// The point halfway between the corners, each coordinate rounded down.
    #[verifier::when_used_as_spec(spec_center)]
    pub fn center(self) -> (c: Vec2)
        ensures
            c == self.spec_center(),
    {
        Vec2 { x: midpoint(self.min.x, self.max.x), y: midpoint(self.min.y, self.max.y) }
    }

    /// Whether `p` lies in the rectangle, edges included.
    pub open spec fn spec_contains(self, p: Vec2) -> bool {
        self.min.x <= p.x <= self.max.x && self.min.y <= p.y <= self.max.y
    }

    /// Whether `p` lies in the rectangle, edges included.
    #[verifier::when_used_as_spec(spec_contains)]
    pub fn contains(self, p: Vec2) -> (inside: bool)
        ensures
            inside == self.spec_contains(p),
    {
        self.min.x <= p.x && p.x <= self.max.x && self.min.y <= p.y && p.y <= self.max.y
    }

    /// Whether all of `inner` lies in the rectangle.
    pub open spec fn encloses(self, inner: Rect) -> bool {
        self.spec_contains(inner.min) && self.spec_contains(inner.max)
    }
}

/// `v` held to the closed interval from `lo` to `hi`.
pub open spec fn clamp_int(v: int, lo: int, hi: int) -> int {
    if v < lo {
        lo
    } else if v > hi {
        hi
    } else {
        v
    }
}

/// `v` held to the range of `i32`.
pub open spec fn saturate(v: int) -> i32 {
    clamp_int(v, i32::MIN as int, i32::MAX as int) as i32
}

/// The sum of two coordinates, held to the range of `i32`.
pub fn add_saturating(a: i32, b: i32) -> (r: i32)
    ensures
        r == saturate(a + b),
{
    let sum: i64 = a as i64 + b as i64;
    if sum < i32::MIN as i64 {
        i32::MIN
    } else if sum > i32::MAX as i64 {
        i32::MAX
    } else {
        sum as i32
    }
}

/// The point halfway between two coordinates, rounded down.
pub fn midpoint(a: i32, b: i32) -> (m: i32)
    ensures
        m == (a + b) / 2,
{
    let sum: i64 = a as i64 + b as i64;
    if sum >= 0 {
        (sum / 2) as i32
    } else {
        let up: i64 = (1 - sum) / 2;
        (-up) as i32
    }
}

/// Where `from` falls between `to_min` and `to_max` when it is first held to
/// the interval from `from_min` to `from_max` and that interval is then
/// stretched linearly onto the target one. The exact quotient is rounded down.
pub open spec fn spec_remap_clamp(
    from: int,
    from_min: int,
    from_max: int,
    to_min: int,
    to_max: int,
) -> int {
    to_min + ((clamp_int(from, from_min, from_max) - from_min) * (to_max - to_min)) / (from_max
        - from_min)
}

/// The quotient of a scaled part by the whole never leaves the scale.
pub proof fn lemma_scaled_quotient_bounds(part: int, whole: int, scale: int)
    by (nonlinear_arith)
    requires
        0 <= part <= whole,
        0 < whole,
        0 <= scale,
    ensures
        0 <= (part * scale) / whole <= scale,
        part == 0 ==> (part * scale) / whole == 0,
        part == whole ==> (part * scale) / whole == scale,
        part * scale <= whole * scale,
{
}

/// The mapping keeps to the target interval, sends everything at or before
/// the start of the source interval to the start of the target, everything
/// at or after its end to the end, and never lets a greater input fall
/// before a smaller one.
pub proof fn lemma_remap_clamp(
    from: int,
    other: int,
    from_min: int,
    from_max: int,
    to_min: int,
    to_max: int,
)
    requires
        from_min < from_max,
        to_min <= to_max,
    ensures
        to_min <= spec_remap_clamp(from, from_min, from_max, to_min, to_max) <= to_max,
        from <= from_min ==> spec_remap_clamp(from, from_min, from_max, to_min, to_max) == to_min,
        from >= from_max ==> spec_remap_clamp(from, from_min, from_max, to_min, to_max) == to_max,
        from <= other ==> spec_remap_clamp(from, from_min, from_max, to_min, to_max)
            <= spec_remap_clamp(other, from_min, from_max, to_min, to_max),
{
    let whole = from_max - from_min;
    let scale = to_max - to_min;
    let part = clamp_int(from, from_min, from_max) - from_min;
    let other_part = clamp_int(other, from_min, from_max) - from_min;
    lemma_scaled_quotient_bounds(part, whole, scale);
    lemma_scaled_quotient_bounds(other_part, whole, scale);
    if from <= other {
        assert(part * scale <= other_part * scale) by (nonlinear_arith)
            requires
                part <= other_part,
                0 <= scale,
        ;
        assert((part * scale) / whole <= (other_part * scale) / whole) by (nonlinear_arith)
            requires
                part * scale <= other_part * scale,
                0 < whole,
        ;
    }
}

/// Maps `from` linearly from the interval between `from_min` and `from_max`
/// onto the one between `to_min` and `to_max`, holding it to the interval
/// first. The source interval must not be empty, since there is no mapping
/// from a single point onto an interval.
pub fn remap_clamp(from: i32, from_min: i32, from_max: i32, to_min: i32, to_max: i32) -> (r: i32)
    requires
        from_min < from_max,
        to_min <= to_max,
    ensures
        r == spec_remap_clamp(
            from as int,
            from_min as int,
            from_max as int,
            to_min as int,
            to_max as int,
        ),
        to_min <= r <= to_max,
        from <= from_min ==> r == to_min,
        from >= from_max ==> r == to_max,
{
    let held: i32 = if from < from_min {
        from_min
    } else if from > from_max {
        from_max
    } else {
        from
    };
    let part: u64 = (held as i64 - from_min as i64) as u64;
    let whole: u64 = (from_max as i64 - from_min as i64) as u64;
    let scale: u64 = (to_max as i64 - to_min as i64) as u64;
    proof {
        lemma_scaled_quotient_bounds(part as int, whole as int, scale as int);
        assert(whole * scale <= 0xffff_ffff * 0xffff_ffff) by (nonlinear_arith)
            requires
                0 <= whole <= 0xffff_ffff,
                0 <= scale <= 0xffff_ffff,
        ;
    }
    let quotient: u64 = (part * scale) / whole;
    (to_min as i64 + quotient as i64) as i32
}

} // verus!
