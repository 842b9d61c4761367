//! Fixed-point plane geometry: points, clamping, rectangle overlap and the
//! direction-times-speed vector used for aiming and knockback.
use vstd::prelude::*;

verus! {

/// Fixed-point units per screen pixel.
pub const SUBPIXELS: i64 = 100;

/// Every coordinate and velocity component that the systems write is clamped
/// to `[-COORD_LIMIT, COORD_LIMIT]`.
pub const COORD_LIMIT: i64 = 2_000_000_000;

/// A coordinate within the range that the world holds.
pub open spec fn coord_ok(v: int) -> bool {
    -COORD_LIMIT <= v <= COORD_LIMIT
}

/// Both coordinates within the range that the world holds.
pub open spec fn point_ok(p: Point) -> bool {
    coord_ok(p.x as int) && coord_ok(p.y as int)
}

/// A point or a displacement in fixed-point units.
#[derive(Clone, Copy, Debug, PartialEq, Eq, Structural)]
pub struct Point {
    pub x: i64,
    pub y: i64,
}

/// Displacements share the representation of points.
pub type Vector = Point;

impl Point {
    pub fn new(x: i64, y: i64) -> (r: Point)
        ensures
            r.x == x,
            r.y == y,
    {
        Point { x, y }
    }
}

pub open spec fn clamp_coord(v: int) -> int {
    if v > COORD_LIMIT {
        COORD_LIMIT as int
    } else if v < -COORD_LIMIT {
        -COORD_LIMIT
    } else {
        v
    }
}

/// Clamps a wide intermediate value into the coordinate range.
pub fn clamp_wide(v: i128) -> (r: i64)
    ensures
        r == clamp_coord(v as int),
{
    if v > COORD_LIMIT as i128 {
        COORD_LIMIT
    } else if v < -(COORD_LIMIT as i128) {
        -COORD_LIMIT
    } else {
        v as i64
    }
}

/// `a + b`, clamped into the coordinate range.
pub fn add_clamped(a: i64, b: i64) -> (r: i64)
    ensures
        r == clamp_coord(a + b),
{
    clamp_wide(a as i128 + b as i128)
}

/// Componentwise sum, clamped.
pub open spec fn add_point_spec(p: Point, v: Vector) -> Point {
    Point { x: clamp_coord(p.x + v.x) as i64, y: clamp_coord(p.y + v.y) as i64 }
}

pub fn add_point(p: Point, v: Vector) -> (r: Point)
    ensures
        r == add_point_spec(p, v),
{
    Point { x: add_clamped(p.x, v.x), y: add_clamped(p.y, v.y) }
}

/// Axis-aligned rectangles with the top-left corner at `(x, y)`. Two rectangles
/// overlap when they share a point, edges included.
pub open spec fn rects_overlap(
    ax: int,
    ay: int,
    aw: int,
    ah: int,
    bx: int,
    by: int,
    bw: int,
    bh: int,
) -> bool {
    &&& ax <= bx + bw
    &&& ax + aw >= bx
    &&& ay <= by + bh
    &&& ay + ah >= by
}

pub fn overlaps(ax: i64, ay: i64, aw: i64, ah: i64, bx: i64, by: i64, bw: i64, bh: i64) -> (r:
    bool)
    ensures
        r == rects_overlap(ax as int, ay as int, aw as int, ah as int, bx as int, by as int, bw as int, bh as int),
{
    let ax = ax as i128;
    let ay = ay as i128;
    let bx = bx as i128;
    let by = by as i128;
    ax <= bx + bw as i128 && ax + aw as i128 >= bx && ay <= by + bh as i128 && ay + ah as i128
        >= by
}

pub open spec fn is_floor_sqrt(n: int, r: int) -> bool {
    r >= 0 && r * r <= n && n < (r + 1) * (r + 1)
}

/// The integer square root, rounded down.
pub open spec fn floor_sqrt(n: int) -> int {
    choose|r: int| is_floor_sqrt(n, r)
}

proof fn lemma_square_monotone(a: int, b: int)
    requires
        0 <= a <= b,
    ensures
        a * a <= b * b,
{
    assert(a * a <= a * b) by (nonlinear_arith)
        requires
            0 <= a <= b,
    ;
    assert(a * b <= b * b) by (nonlinear_arith)
        requires
            0 <= a <= b,
    ;
}

proof fn lemma_floor_sqrt_unique(n: int, r: int)
    requires
        is_floor_sqrt(n, r),
    ensures
        floor_sqrt(n) == r,
{
    let c = floor_sqrt(n);
    assert(is_floor_sqrt(n, c));
    if c < r {
        lemma_square_monotone(c + 1, r);
    } else if r < c {
        lemma_square_monotone(r + 1, c);
    }
}

/// Integer square root by bisection.
pub fn isqrt(n: u128) -> (r: u128)
    requires
        n < 0x1_0000_0000_0000_0000_0,
    ensures
        r == floor_sqrt(n as int),
        is_floor_sqrt(n as int, r as int),
        r <= 0x4_0000_0000,
{
    let mut lo: u128 = 0;
    let mut hi: u128 = 0x4_0000_0000;
    while lo + 1 < hi
        invariant
            lo < hi <= 0x4_0000_0000,
            lo * lo <= n,
            n < hi * hi,
        decreases hi - lo,
    {
        let mid = lo + (hi - lo) / 2;
        assert(mid * mid <= 0x10_0000_0000_0000_0000) by {
            lemma_square_monotone(mid as int, 0x4_0000_0000);
        }
        if mid * mid <= n {
            lo = mid;
        } else {
            hi = mid;
        }
    }
    proof {
        lemma_floor_sqrt_unique(n as int, lo as int);
    }
    lo
}

/// A value whose square is below `(b + 1)^2` has a square of at most `b^2`.
proof fn lemma_square_below(d: int, b: int)
    requires
        b >= 0,
        d * d < (b + 1) * (b + 1),
    ensures
        d * d <= b * b,
{
    let a = if d >= 0 { d } else { -d };
    assert(a * a == d * d) by (nonlinear_arith)
        requires
            a == if d >= 0 { d } else { -d },
    ;
    if a > b {
        lemma_square_monotone(b + 1, a);
    } else {
        lemma_square_monotone(a, b);
    }
}

/// Division rounding toward zero, as integer division does in Rust.
pub open spec fn div_toward_zero(a: int, b: int) -> int {
    if a >= 0 {
        a / b
    } else {
        -((-a) / b)
    }
}

/// `d * speed / len`, rounded toward zero; zero when `len` is zero.
pub open spec fn scale_component(d: int, speed: int, len: int) -> int {
    if len == 0 {
        0
    } else {
        div_toward_zero(d * speed, len)
    }
}

/// The vector of length `speed` (rounded toward zero per component) that points
/// from `from` to `to`; the zero vector when the two points coincide.
/// Speeds are clamped into `[0, COORD_LIMIT]` and points into the coordinate range.
pub open spec fn toward_spec(from: Point, to: Point, speed: int) -> Vector {
    let dx = clamp_coord(to.x as int) - clamp_coord(from.x as int);
    let dy = clamp_coord(to.y as int) - clamp_coord(from.y as int);
    let s = if speed < 0 { 0 } else { clamp_coord(speed) };
    let len = floor_sqrt(dx * dx + dy * dy);
    Point { x: scale_component(dx, s, len) as i64, y: scale_component(dy, s, len) as i64 }
}

proof fn lemma_scaled_bound(d: int, s: int, len: int)
    requires
        len > 0,
        d * d <= len * len,
        0 <= s <= COORD_LIMIT,
    ensures
        -s <= div_toward_zero(d * s, len) <= s,
{
    let a = if d >= 0 { d } else { -d };
    assert(a * a == d * d) by (nonlinear_arith)
        requires
            a == if d >= 0 { d } else { -d },
    ;
    if a > len {
        lemma_square_monotone(len + 1, a);
        assert(false) by (nonlinear_arith)
            requires
                (len + 1) * (len + 1) <= a * a,
                a * a <= len * len,
                len > 0,
        ;
    }
    assert(a * s <= len * s) by (nonlinear_arith)
        requires
            0 <= a <= len,
            0 <= s,
    ;
    assert((a * s) / len <= s) by (nonlinear_arith)
        requires
            a * s <= len * s,
            len > 0,
            0 <= a * s,
    ;
    assert(0 <= a * s) by (nonlinear_arith)
        requires
            0 <= a,
            0 <= s,
    ;
    assert(d * s == if d >= 0 { a * s } else { -(a * s) }) by (nonlinear_arith)
        requires
            a == if d >= 0 { d } else { -d },
    ;
}

fn scale(d: i64, s: i64, len: u128) -> (r: i64)
    requires
        -2 * COORD_LIMIT <= d <= 2 * COORD_LIMIT,
        0 <= s <= COORD_LIMIT,
        (d as int) * (d as int) <= (len as int) * (len as int),
        len <= 0x4_0000_0000,
    ensures
        r == scale_component(d as int, s as int, len as int),
        -s <= r <= s,
{
    if len == 0 {
        return 0;
    }
    proof {
        lemma_scaled_bound(d as int, s as int, len as int);
    }
    let mag: u128 = if d >= 0 { d as u128 } else { (-(d as i128)) as u128 };
    assert(mag * (s as u128) <= 0x1_0000_0000_0000_0000) by (nonlinear_arith)
        requires
            0 <= mag <= 4_000_000_000,
            0 <= s <= 2_000_000_000,
    ;
    let q = mag * (s as u128) / len;
    proof {
        assert(d as int * s as int == if d >= 0 { mag * s } else { -(mag * s) }) by (
        nonlinear_arith)
            requires
                mag == if d >= 0 { d as int } else { -d },
        ;
    }
    if d >= 0 {
        q as i64
    } else {
        -(q as i64)
    }
}

/// Direction from `from` to `to`, scaled to `speed`.
pub fn toward(from: Point, to: Point, speed: i64) -> (r: Vector)
    ensures
        r == toward_spec(from, to, speed as int),
        point_ok(r),
{
    let dx: i128 = clamp_wide(to.x as i128) as i128 - clamp_wide(from.x as i128) as i128;
    let dy: i128 = clamp_wide(to.y as i128) as i128 - clamp_wide(from.y as i128) as i128;
    let s = if speed < 0 {
        0
    } else {
        clamp_wide(speed as i128)
    };
    assert(0 <= dx * dx <= 16_000_000_000_000_000_000 && 0 <= dy * dy
        <= 16_000_000_000_000_000_000) by (nonlinear_arith)
        requires
            -4_000_000_000 <= dx <= 4_000_000_000,
            -4_000_000_000 <= dy <= 4_000_000_000,
    ;
    let sq = (dx * dx + dy * dy) as u128;
    let len = isqrt(sq);
    proof {
        lemma_square_below(dx as int, len as int);
        lemma_square_below(dy as int, len as int);
    }
    Point { x: scale(dx as i64, s, len), y: scale(dy as i64, s, len) }
}

} // verus!

verus! {

/// Half of `v`, rounded toward zero.
pub fn half(v: i64) -> (r: i64)
    ensures
        r == div_toward_zero(v as int, 2),
{
    if v >= 0 {
        v / 2
    } else {
        let m: i128 = -(v as i128);
        -((m / 2) as i64)
    }
}

/// A half-open interval `[start, end)` of coordinates.
#[derive(Clone, Copy, Debug, PartialEq, Eq, Structural)]
pub struct Span {
    pub start: i64,
    pub end: i64,
}

impl Span {
    pub open spec fn contains_spec(self, v: int) -> bool {
        self.start <= v < self.end
    }

    pub fn contains(&self, v: i64) -> (r: bool)
        ensures
            r == self.contains_spec(v as int),
    {
        self.start <= v && v < self.end
    }
}

} // verus!

verus! {

/// `v` moved `num / den` of the way toward `t`, rounded toward zero and clamped;
/// unchanged when `den` is not positive.
pub open spec fn blend_spec(v: int, t: int, num: int, den: int) -> int {
    if den <= 0 {
        v
    } else {
        clamp_coord(clamp_coord(v) + div_toward_zero((clamp_coord(t) - clamp_coord(v)) * clamp_coord(num), den))
    }
}

pub fn blend(v: i64, t: i64, num: i64, den: i64) -> (r: i64)
    ensures
        r == blend_spec(v as int, t as int, num as int, den as int),
{
    if den <= 0 {
        return v;
    }
    let vc = clamp_wide(v as i128);
    let tc = clamp_wide(t as i128);
    let nc = clamp_wide(num as i128);
    let gap: i128 = tc as i128 - vc as i128;
    let mag: i128 = if gap >= 0 { gap } else { -gap };
    let nm: i128 = if nc >= 0 { nc as i128 } else { -(nc as i128) };
    assert(0 <= mag * nm <= 8_000_000_000_000_000_000) by (nonlinear_arith)
        requires
            0 <= mag <= 4_000_000_000,
            0 <= nm <= 2_000_000_000,
    ;
    let q: i128 = (mag * nm) / (den as i128);
    assert(q <= mag * nm) by (nonlinear_arith)
        requires
            q == (mag * nm) / (den as int),
            den >= 1,
            mag * nm >= 0,
    ;
    let neg = (gap >= 0) != (nc >= 0);
    proof {
        let p = gap * nc;
        let m = mag * nm;
        if gap >= 0 && nc >= 0 {
            assert(p == m);
        } else if gap < 0 && nc < 0 {
            assert(p == m) by (nonlinear_arith)
                requires
                    mag == -gap,
                    nm == -nc,
                    p == gap * nc,
                    m == mag * nm,
            ;
        } else if gap >= 0 {
            assert(p == -m) by (nonlinear_arith)
                requires
                    mag == gap,
                    nm == -nc,
                    p == gap * nc,
                    m == mag * nm,
            ;
        } else {
            assert(p == -m) by (nonlinear_arith)
                requires
                    mag == -gap,
                    nm == nc,
                    p == gap * nc,
                    m == mag * nm,
            ;
        }
    }
    let step: i128 = if neg {
        -q
    } else {
        q
    };
    clamp_wide(vc as i128 + step)
}

/// `-v`, clamped.
pub fn negate(v: i64) -> (r: i64)
    ensures
        r == clamp_coord(-v),
{
    clamp_wide(-(v as i128))
}

} // verus!

verus! {

/// `v * num / den`, rounded toward zero and clamped, with `v` and `num` clamped
/// first; `v` itself when `den` is not positive.
pub open spec fn ratio_spec(v: int, num: int, den: int) -> int {
    if den <= 0 {
        v
    } else {
        clamp_coord(div_toward_zero(clamp_coord(v) * clamp_coord(num), den))
    }
}

pub fn ratio(v: i64, num: i64, den: i64) -> (r: i64)
    ensures
        r == ratio_spec(v as int, num as int, den as int),
{
    if den <= 0 {
        return v;
    }
    let vc = clamp_wide(v as i128);
    let nc = clamp_wide(num as i128);
    let mag: i128 = if vc >= 0 { vc as i128 } else { -(vc as i128) };
    let nm: i128 = if nc >= 0 { nc as i128 } else { -(nc as i128) };
    assert(0 <= mag * nm <= 4_000_000_000_000_000_000) by (nonlinear_arith)
        requires
            0 <= mag <= 2_000_000_000,
            0 <= nm <= 2_000_000_000,
    ;
    let q: i128 = (mag * nm) / (den as i128);
    assert(q <= mag * nm) by (nonlinear_arith)
        requires
            q == (mag * nm) / (den as int),
            den >= 1,
            mag * nm >= 0,
    ;
    let neg = (vc >= 0) != (nc >= 0);
    proof {
        let p = vc * nc;
        let m = mag * nm;
        if vc >= 0 && nc >= 0 {
            assert(p == m);
        } else if vc < 0 && nc < 0 {
            assert(p == m) by (nonlinear_arith)
                requires
                    mag == -vc,
                    nm == -nc,
                    p == vc * nc,
                    m == mag * nm,
            ;
        } else if vc >= 0 {
            assert(p == -m) by (nonlinear_arith)
                requires
                    mag == vc,
                    nm == -nc,
                    p == vc * nc,
                    m == mag * nm,
            ;
        } else {
            assert(p == -m) by (nonlinear_arith)
                requires
                    mag == -vc,
                    nm == nc,
                    p == vc * nc,
                    m == mag * nm,
            ;
        }
    }
    let step: i128 = if neg {
        -q
    } else {
        q
    };
    clamp_wide(step)
}

/// `v` limited to `[lo, hi]`: first from above, then from below.
pub open spec fn limit_spec(v: int, lo: int, hi: int) -> int {
    let a = if v < hi { v } else { hi };
    if a > lo { a } else { lo }
}

pub fn limit(v: i64, lo: i64, hi: i64) -> (r: i64)
    ensures
        r == limit_spec(v as int, lo as int, hi as int),
{
    let a = if v < hi { v } else { hi };
    if a > lo { a } else { lo }
}

} // verus!
