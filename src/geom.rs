//! Fixed-point scalars and 2D vectors shared by the games.

use vstd::prelude::*;

verus! {

/// One playfield half-width, in distance units.
pub const UNIT: i64 = 10_000;

/// Ticks in one second of simulated time.
pub const TICKS_PER_SEC: i64 = 60_000;

/// The longest time step one update accepts: one second. Explicit Euler
/// steps are only meaningful for short steps, so hosts cap `dt` below this.
pub const MAX_DT: i64 = 60_000;

/// Half a turn, in angle units of 1/10000 radian.
pub const PI_U: i64 = 31_416;

/// Accumulated angles stop at this magnitude, near the end of `i64`.
pub const ANGLE_LIMIT: i64 = 9_000_000_000_000_000_000;

/// The largest magnitude of a coordinate or a velocity component that the
/// arithmetic of one update step is proved for.
pub const LIMIT: i64 = 1_000_000_000;

/// A 2D vector of fixed-point components.
#[derive(Clone, Copy, Debug, PartialEq, Eq, Structural)]
pub struct V2 {
    pub x: i64,
    pub y: i64,
}

/// Rust's truncating quotient, stated over mathematical integers.
pub open spec fn trunc_div(a: int, d: int) -> int
    recommends
        d > 0,
{
    if a >= 0 {
        a / d
    } else {
        -((-a) / d)
    }
}

/// `v * dt` seconds' worth of motion at rate `v` (per second), truncated.
pub open spec fn over_dt(v: int, dt: int) -> int {
    trunc_div(v * dt, TICKS_PER_SEC as int)
}

pub open spec fn abs_int(a: int) -> int {
    if a < 0 { -a } else { a }
}

pub open spec fn in_limit(a: int) -> bool {
    -LIMIT <= a <= LIMIT
}

pub open spec fn dt_ok(dt: int) -> bool {
    0 <= dt <= MAX_DT
}

impl V2 {
    pub open spec fn in_limit(self) -> bool {
        in_limit(self.x as int) && in_limit(self.y as int)
    }

    pub fn new(x: i64, y: i64) -> (r: V2)
        ensures
            r.x == x && r.y == y,
    {
        V2 { x, y }
    }

    pub fn zero() -> (r: V2)
        ensures
            r.x == 0 && r.y == 0,
    {
        V2 { x: 0, y: 0 }
    }
}

/// Truncating quotient `a * b / d` for `d > 0`.
pub fn mul_div(a: i64, b: i64, d: i64) -> (r: i64)
    requires
        d > 0,
        -LIMIT <= a <= LIMIT,
        -LIMIT <= b <= LIMIT,
    ensures
        r == trunc_div(a * b, d as int),
        -(LIMIT as int) * LIMIT <= r <= (LIMIT as int) * LIMIT,
{
    assert(-(LIMIT as int) * LIMIT <= a * b <= (LIMIT as int) * LIMIT) by (nonlinear_arith)
        requires
            -LIMIT <= a <= LIMIT,
            -LIMIT <= b <= LIMIT,
    ;
    let p: i128 = (a as i128) * (b as i128);
    let q: i128 = if p >= 0 {
        p / (d as i128)
    } else {
        -((-p) / (d as i128))
    };
    assert(-(LIMIT as int) * LIMIT <= q <= (LIMIT as int) * LIMIT) by (nonlinear_arith)
        requires
            q == trunc_div(p as int, d as int),
            -(LIMIT as int) * LIMIT <= p <= (LIMIT as int) * LIMIT,
            d > 0,
    ;
    q as i64
}

/// The toroidal field: a coordinate outside `-UNIT ..= UNIT` re-enters from
/// the opposite side, keeping its offset modulo the field width.
pub open spec fn wrap_spec(a: int) -> int {
    if -UNIT <= a <= UNIT {
        a
    } else {
        (a + UNIT) % (2 * UNIT) - UNIT
    }
}

pub open spec fn in_field(a: int) -> bool {
    -UNIT <= a <= UNIT
}

/// Wraps one coordinate into the field.
pub fn wrap_coord(a: i64) -> (r: i64)
    requires
        in_limit(a as int),
    ensures
        r == wrap_spec(a as int),
        in_field(r as int),
{
    if -UNIT <= a && a <= UNIT {
        a
    } else {
        let w: i64 = 2 * UNIT;
        let s: i64 = a + UNIT;
        if s >= 0 {
            s % w - UNIT
        } else {
            let k: i64 = (-s) % w;
            proof {
                let si = s as int;
                let wi = w as int;
                let q = (-si) / wi;
                vstd::arithmetic::div_mod::lemma_fundamental_div_mod(-si, wi);
                assert(si == wi * (-q - 1) + (wi - k)) by (nonlinear_arith)
                    requires -si == wi * q + (-si) % wi, k == (-si) % wi;
                vstd::arithmetic::div_mod::lemma_mod_multiples_vanish(-q - 1, wi - k, wi);
                assert((wi - k) % wi == si % wi) by (nonlinear_arith)
                    requires si == wi * (-q - 1) + (wi - k), (wi * (-q - 1) + (wi - k)) % wi == (wi - k) % wi;
            }
            (w - k) % w - UNIT
        }
    }
}

/// An angle brought into `-PI_U ..= PI_U` by whole turns.
pub open spec fn wrap_angle_spec(a: int) -> int {
    if -PI_U <= a <= PI_U {
        a
    } else {
        (a + PI_U) % (2 * PI_U) - PI_U
    }
}

/// Brings an angle into `-PI_U ..= PI_U` by whole turns.
pub fn wrap_angle(a: i64) -> (r: i64)
    requires
        -20 * LIMIT <= a <= 20 * LIMIT,
    ensures
        r == wrap_angle_spec(a as int),
        -PI_U <= r <= PI_U,
{
    if -PI_U <= a && a <= PI_U {
        a
    } else {
        let w: i64 = 2 * PI_U;
        let s: i64 = a + PI_U;
        if s >= 0 {
            s % w - PI_U
        } else {
            let k: i64 = (-s) % w;
            proof {
                let si = s as int;
                let wi = w as int;
                let q = (-si) / wi;
                vstd::arithmetic::div_mod::lemma_fundamental_div_mod(-si, wi);
                assert(si == wi * (-q - 1) + (wi - k)) by (nonlinear_arith)
                    requires -si == wi * q + (-si) % wi, k == (-si) % wi;
                vstd::arithmetic::div_mod::lemma_mod_multiples_vanish(-q - 1, wi - k, wi);
            }
            (w - k) % w - PI_U
        }
    }
}

/// The largest `r >= 0` with `r * r <= n`.
pub open spec fn floor_sqrt(n: int) -> int {
    choose|r: int| #[trigger] sqrt_bracket(n, r)
}

pub open spec fn sqrt_bracket(n: int, r: int) -> bool {
    0 <= r && r * r <= n < (r + 1) * (r + 1)
}

/// Only one `r` brackets `n` between consecutive squares.
pub proof fn lemma_floor_sqrt_unique(n: int, r: int)
    requires
        0 <= r,
        r * r <= n < (r + 1) * (r + 1),
    ensures
        floor_sqrt(n) == r,
{
    assert(sqrt_bracket(n, r));
    let s = floor_sqrt(n);
    assert(sqrt_bracket(n, s));
    if s < r {
        assert((s + 1) * (s + 1) <= r * r) by (nonlinear_arith) requires 0 <= s < r;
    } else if s > r {
        assert((r + 1) * (r + 1) <= s * s) by (nonlinear_arith) requires 0 <= r < s;
    }
}

/// An accumulated angle turned by `d`, not wrapped; it stops at
/// `ANGLE_LIMIT` either way.
pub open spec fn turn_spec(a: int, d: int) -> int {
    clamp_spec(a + d, -ANGLE_LIMIT as int, ANGLE_LIMIT as int)
}

/// Turns an accumulated angle by `d`.
pub fn turn(a: i64, d: i64) -> (r: i64)
    requires
        -ANGLE_LIMIT <= a <= ANGLE_LIMIT,
        in_limit(d as int),
    ensures
        r == turn_spec(a as int, d as int),
        -ANGLE_LIMIT <= r <= ANGLE_LIMIT,
{
    clamp(a + d, -ANGLE_LIMIT, ANGLE_LIMIT)
}

/// Integer square root: the largest `r` with `r * r <= n`.
pub fn isqrt(n: u64) -> (r: u64)
    ensures
        r * r <= n < (r + 1) * (r + 1),
        r == floor_sqrt(n as int),
{
    let mut lo: u64 = 0;
    let mut hi: u64 = 0x1_0000_0000;
    assert(n < hi * hi) by (nonlinear_arith) requires hi == 0x1_0000_0000, n <= u64::MAX;
    while hi - lo > 1
        invariant
            lo < hi <= 0x1_0000_0000,
            lo * lo <= n < hi * hi,
        decreases hi - lo,
    {
        let mid: u64 = lo + (hi - lo) / 2;
        assert(mid * mid < 0x1_0000_0000 * 0x1_0000_0000) by (nonlinear_arith)
            requires mid < 0x1_0000_0000;
        if mid * mid <= n {
            lo = mid;
        } else {
            hi = mid;
        }
    }
    proof {
        lemma_floor_sqrt_unique(n as int, lo as int);
    }
    lo
}

/// Wraps a position into the field on both axes.
pub fn wrap_position(p: V2) -> (r: V2)
    requires
        p.in_limit(),
    ensures
        r.x == wrap_spec(p.x as int),
        r.y == wrap_spec(p.y as int),
        in_field(r.x as int),
        in_field(r.y as int),
{
    V2 { x: wrap_coord(p.x), y: wrap_coord(p.y) }
}

/// Wrap-around keeps every position inside the field, and leaves one that is
/// already inside where it is.
pub proof fn lemma_wrap_in_field(a: int)
    ensures
        in_field(wrap_spec(a)),
        in_field(a) ==> wrap_spec(a) == a,
{
}

/// Motion over one accepted time step is at most ten times the rate.
pub proof fn lemma_over_dt_bound(v: int, dt: int)
    requires
        in_limit(v),
        dt_ok(dt),
    ensures
        -LIMIT <= over_dt(v, dt) <= LIMIT,
        -abs_int(v) <= over_dt(v, dt) <= abs_int(v),
        v >= 0 ==> over_dt(v, dt) >= 0,
        v <= 0 ==> over_dt(v, dt) <= 0,
        over_dt(-v, dt) == -over_dt(v, dt),
        abs_int(over_dt(v, dt)) * TICKS_PER_SEC <= abs_int(v) * dt,
{
    assert(-(LIMIT as int) * MAX_DT <= v * dt <= (LIMIT as int) * MAX_DT) by (nonlinear_arith)
        requires in_limit(v), dt_ok(dt);
    assert(v >= 0 ==> v * dt >= 0) by (nonlinear_arith) requires dt >= 0;
    assert(v <= 0 ==> v * dt <= 0) by (nonlinear_arith) requires dt >= 0;
    assert((-v) * dt == -(v * dt)) by (nonlinear_arith);
    let p = v * dt;
    let t = TICKS_PER_SEC as int;
    if v >= 0 {
        vstd::arithmetic::div_mod::lemma_div_is_ordered(p, LIMIT * MAX_DT, t);
        vstd::arithmetic::div_mod::lemma_div_pos_is_pos(p, t);
        assert((LIMIT * MAX_DT) / t == LIMIT);
        assert(p <= v * t) by (nonlinear_arith) requires p == v * dt, dt <= t, v >= 0;
        vstd::arithmetic::div_mod::lemma_div_is_ordered(p, v * t, t);
        vstd::arithmetic::div_mod::lemma_div_by_multiple(v, t);
        vstd::arithmetic::div_mod::lemma_fundamental_div_mod(p, t);
        assert(t * (p / t) <= p);
        assert((p / t) * t <= p) by (nonlinear_arith) requires t * (p / t) <= p;
    } else {
        assert(p <= 0) by (nonlinear_arith) requires p == v * dt, dt >= 0, v < 0;
        vstd::arithmetic::div_mod::lemma_div_is_ordered(-p, LIMIT * MAX_DT, t);
        vstd::arithmetic::div_mod::lemma_div_pos_is_pos(-p, t);
        assert((LIMIT * MAX_DT) / t == LIMIT);
        assert(-p <= (-v) * t) by (nonlinear_arith) requires p == v * dt, dt <= t, v < 0;
        vstd::arithmetic::div_mod::lemma_div_is_ordered(-p, (-v) * t, t);
        vstd::arithmetic::div_mod::lemma_div_by_multiple(-v, t);
        vstd::arithmetic::div_mod::lemma_fundamental_div_mod(-p, t);
        assert(t * ((-p) / t) <= -p);
        assert(((-p) / t) * t <= -p) by (nonlinear_arith) requires t * ((-p) / t) <= -p;
        assert(-p == (-v) * dt) by (nonlinear_arith) requires p == v * dt;
    }
}

/// `a` advanced at rate `v` (per second) for `dt` ticks.
pub fn advance(a: i64, v: i64, dt: i64) -> (r: i64)
    requires
        -20 * LIMIT <= a <= 20 * LIMIT,
        in_limit(v as int),
        dt_ok(dt as int),
    ensures
        r == a + over_dt(v as int, dt as int),
{
    let d = mul_div(v, dt, TICKS_PER_SEC);
    proof {
        assert(-(LIMIT as int) * MAX_DT <= v * dt <= (LIMIT as int) * MAX_DT) by (nonlinear_arith)
            requires in_limit(v as int), dt_ok(dt as int);
    }
    a + d
}

/// A position advanced by a velocity for `dt` ticks.
pub fn advance_by(p: V2, v: V2, dt: i64) -> (r: V2)
    requires
        p.in_limit(),
        v.in_limit(),
        dt_ok(dt as int),
    ensures
        r.x == p.x + over_dt(v.x as int, dt as int),
        r.y == p.y + over_dt(v.y as int, dt as int),
{
    V2 { x: advance(p.x, v.x, dt), y: advance(p.y, v.y, dt) }
}

pub open spec fn dist_sq_spec(a: V2, b: V2) -> int {
    (a.x - b.x) * (a.x - b.x) + (a.y - b.y) * (a.y - b.y)
}

/// Squared distance between two points.
pub fn dist_sq(a: V2, b: V2) -> (r: i128)
    requires
        a.in_limit(),
        b.in_limit(),
    ensures
        r == dist_sq_spec(a, b),
{
    let dx: i128 = a.x as i128 - b.x as i128;
    let dy: i128 = a.y as i128 - b.y as i128;
    assert(0 <= dx * dx <= 4 * (LIMIT as int) * LIMIT) by (nonlinear_arith)
        requires -2 * LIMIT <= dx <= 2 * LIMIT;
    assert(0 <= dy * dy <= 4 * (LIMIT as int) * LIMIT) by (nonlinear_arith)
        requires -2 * LIMIT <= dy <= 2 * LIMIT;
    dx * dx + dy * dy
}

/// Two circles overlap when their centres are closer than the sum of radii.
pub open spec fn circles_collide_spec(a: V2, ra: int, b: V2, rb: int) -> bool {
    dist_sq_spec(a, b) < (ra + rb) * (ra + rb)
}

/// Whether two circles (centre, radius) overlap.
pub fn circles_collide(a: V2, ra: i64, b: V2, rb: i64) -> (r: bool)
    requires
        a.in_limit(),
        b.in_limit(),
        0 <= ra <= LIMIT,
        0 <= rb <= LIMIT,
    ensures
        r == circles_collide_spec(a, ra as int, b, rb as int),
{
    let s: i128 = ra as i128 + rb as i128;
    assert(0 <= s * s <= 4 * (LIMIT as int) * LIMIT) by (nonlinear_arith)
        requires 0 <= s <= 2 * LIMIT;
    dist_sq(a, b) < s * s
}

/// Collision between circles does not depend on which one is named first.
pub proof fn lemma_collide_symmetric(a: V2, ra: int, b: V2, rb: int)
    ensures
        circles_collide_spec(a, ra, b, rb) == circles_collide_spec(b, rb, a, ra),
{
    assert(dist_sq_spec(a, b) == dist_sq_spec(b, a)) by (nonlinear_arith);
}

/// `d` scaled by `k / UNIT`, truncated: a unit direction (components of
/// magnitude up to `UNIT`) times a speed.
pub open spec fn scale_spec(d: V2, k: int) -> V2 {
    V2 {
        x: trunc_div(d.x * k, UNIT as int) as i64,
        y: trunc_div(d.y * k, UNIT as int) as i64,
    }
}

pub open spec fn is_direction(d: V2) -> bool {
    in_field(d.x as int) && in_field(d.y as int)
}

pub proof fn lemma_scale_bound(a: int, k: int)
    requires
        in_field(a),
        0 <= k <= LIMIT,
    ensures
        abs_int(trunc_div(a * k, UNIT as int)) <= k,
{
    let u = UNIT as int;
    if a >= 0 {
        assert(0 <= a * k <= u * k) by (nonlinear_arith) requires 0 <= a <= u, 0 <= k;
        vstd::arithmetic::div_mod::lemma_div_is_ordered(a * k, u * k, u);
        vstd::arithmetic::div_mod::lemma_div_pos_is_pos(a * k, u);
        vstd::arithmetic::div_mod::lemma_div_by_multiple(k, u);
        assert((u * k) / u == k) by (nonlinear_arith) requires (k * u) / u == k;
    } else {
        assert(0 <= -(a * k) <= u * k) by (nonlinear_arith) requires -u <= a < 0, 0 <= k;
        vstd::arithmetic::div_mod::lemma_div_is_ordered(-(a * k), u * k, u);
        vstd::arithmetic::div_mod::lemma_div_pos_is_pos(-(a * k), u);
        vstd::arithmetic::div_mod::lemma_div_by_multiple(k, u);
        assert((u * k) / u == k) by (nonlinear_arith) requires (k * u) / u == k;
    }
}

/// A direction scaled by `k / UNIT`.
pub fn scale(d: V2, k: i64) -> (r: V2)
    requires
        is_direction(d),
        0 <= k <= LIMIT,
    ensures
        r == scale_spec(d, k as int),
        abs_int(r.x as int) <= k,
        abs_int(r.y as int) <= k,
{
    proof {
        lemma_scale_bound(d.x as int, k as int);
        lemma_scale_bound(d.y as int, k as int);
    }
    V2 { x: mul_div(d.x, k, UNIT), y: mul_div(d.y, k, UNIT) }
}

/// `|a| <= l` bounds the truncated `a * k / l` by `k`.
pub proof fn lemma_ratio_bound(a: int, k: int, l: int)
    requires
        abs_int(a) <= l,
        l > 0,
        k >= 0,
    ensures
        abs_int(trunc_div(a * k, l)) <= k,
{
    if a >= 0 {
        assert(0 <= a * k <= l * k) by (nonlinear_arith) requires 0 <= a <= l, k >= 0;
        vstd::arithmetic::div_mod::lemma_div_is_ordered(a * k, l * k, l);
        vstd::arithmetic::div_mod::lemma_div_pos_is_pos(a * k, l);
        vstd::arithmetic::div_mod::lemma_div_by_multiple(k, l);
        assert((l * k) / l == k) by (nonlinear_arith) requires (k * l) / l == k;
    } else {
        assert(0 <= -(a * k) <= l * k) by (nonlinear_arith) requires -l <= a < 0, k >= 0;
        vstd::arithmetic::div_mod::lemma_div_is_ordered(-(a * k), l * k, l);
        vstd::arithmetic::div_mod::lemma_div_pos_is_pos(-(a * k), l);
        vstd::arithmetic::div_mod::lemma_div_by_multiple(k, l);
        assert((l * k) / l == k) by (nonlinear_arith) requires (k * l) / l == k;
    }
}

/// Scaling by a factor `f / k` of at most one never grows a value.
pub proof fn lemma_shrink(a: int, f: int, k: int)
    requires
        0 <= f <= k,
        k > 0,
    ensures
        abs_int(trunc_div(a * f, k)) <= abs_int(a),
{
    if a >= 0 {
        lemma_ratio_bound(f, a, k);
        assert(f * a == a * f) by (nonlinear_arith);
    } else {
        lemma_ratio_bound(f, -a, k);
        assert(f * (-a) == -(a * f)) by (nonlinear_arith);
    }
}

/// A quotient is no larger than the bound that the dividend has in units of
/// the divisor.
pub proof fn lemma_trunc_div_bound(x: int, d: int, m: int)
    requires
        d > 0,
        m >= 0,
        abs_int(x) <= m * d,
    ensures
        abs_int(trunc_div(x, d)) <= m,
{
    vstd::arithmetic::div_mod::lemma_div_by_multiple(m, d);
    assert((m * d) / d == m) by (nonlinear_arith) requires (m * d) / d == m;
    if x >= 0 {
        vstd::arithmetic::div_mod::lemma_div_is_ordered(x, m * d, d);
        vstd::arithmetic::div_mod::lemma_div_pos_is_pos(x, d);
    } else {
        vstd::arithmetic::div_mod::lemma_div_is_ordered(-x, m * d, d);
        vstd::arithmetic::div_mod::lemma_div_pos_is_pos(-x, d);
    }
}

/// `a` limited to `lo ..= hi`.
pub open spec fn clamp_spec(a: int, lo: int, hi: int) -> int {
    if a < lo {
        lo
    } else if a > hi {
        hi
    } else {
        a
    }
}

pub fn clamp(a: i64, lo: i64, hi: i64) -> (r: i64)
    requires
        lo <= hi,
    ensures
        r == clamp_spec(a as int, lo as int, hi as int),
{
    if a < lo {
        lo
    } else if a > hi {
        hi
    } else {
        a
    }
}

} // verus!
