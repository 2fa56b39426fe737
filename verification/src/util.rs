//! Shared value types and the toroidal wrap geometry: fixed-point 2-D
//! vectors, the sign-preserving remainder used to reduce rotations, the
//! wrap operation that canonicalizes positions, and the nine render
//! offsets that replicate an entity across the world's edges.

use vstd::prelude::*;

verus! {

use vstd::arithmetic::div_mod::{
    lemma_mod_division_less_than_divisor, lemma_small_mod, lemma_mod_multiples_vanish,
    lemma_mod_self_0, lemma_div_pos_is_pos, lemma_div_is_ordered, lemma_div_multiples_vanish,
    lemma_div_nonincreasing,
};
use vstd::math::abs;
use crate::{SCALE, TAU, COORD_LIMIT};

/// Mathematical model of a 2-D vector: unbounded integer coordinates in
/// fixed-point units.
pub ghost struct V2 {
    pub x: int,
    pub y: int,
}

impl V2 {
    pub open spec fn zero() -> V2 {
        V2 { x: 0, y: 0 }
    }

    pub open spec fn plus(self, o: V2) -> V2 {
        V2 { x: self.x + o.x, y: self.y + o.y }
    }
}

/// Whether both coordinates are small enough for the simulation's
/// overflow-free arithmetic.
pub open spec fn in_coord_bounds(v: V2) -> bool {
    abs(v.x) <= COORD_LIMIT && abs(v.y) <= COORD_LIMIT
}

/// A 2-D point or vector in fixed-point world units.
#[derive(Clone, Copy, Debug, PartialEq, Eq, Structural)]
pub struct Vec2 {
    pub x: i64,
    pub y: i64,
}

impl View for Vec2 {
    type V = V2;

    open spec fn view(&self) -> V2 {
        V2 { x: self.x as int, y: self.y as int }
    }
}

impl Vec2 {
    pub fn new(x: i64, y: i64) -> (v: Vec2)
        ensures
            v@ == (V2 { x: x as int, y: y as int }),
    {
        Vec2 { x, y }
    }

    pub fn zero() -> (v: Vec2)
        ensures
            v@ == V2::zero(),
    {
        Vec2 { x: 0, y: 0 }
    }
}

/// A turning sense: counterclockwise (`Left`) or clockwise (`Right`).
#[derive(Clone, Copy, Debug, PartialEq, Eq, Structural)]
pub enum Direction {
    Left,
    Right,
}

/// Mathematical model of a body's motion state.
pub ghost struct KinModel {
    pub position: V2,
    pub velocity: V2,
    pub rotation: int,
}

/// The motion state every simulated body carries: a position and a
/// velocity in fixed-point world units, and a rotation in fixed-point
/// radians.
#[derive(Clone, Copy, Debug)]
pub struct CommonProperties {
    pub position: Vec2,
    pub velocity: Vec2,
    pub rotation: i64,
}

impl View for CommonProperties {
    type V = KinModel;

    open spec fn view(&self) -> KinModel {
        KinModel {
            position: self.position@,
            velocity: self.velocity@,
            rotation: self.rotation as int,
        }
    }
}

impl CommonProperties {
    pub fn new(position: Vec2, velocity: Vec2, rotation: i64) -> (c: CommonProperties)
        ensures
            c == (CommonProperties { position, velocity, rotation }),
    {
        CommonProperties { position, velocity, rotation }
    }
}

impl Default for CommonProperties {
    /// A body at the origin, at rest, with rotation zero.
    fn default() -> (c: CommonProperties)
        ensures
            c@ == (KinModel { position: V2::zero(), velocity: V2::zero(), rotation: 0 }),
    {
        CommonProperties {
            position: Vec2 { x: 0, y: 0 },
            velocity: Vec2 { x: 0, y: 0 },
            rotation: 0,
        }
    }
}

/// The remainder of `a` by `b` with the dividend's sign, as Rust's `%`
/// operator computes it: the result of reducing a rotation modulo a full
/// turn keeps its sign and stays strictly within one turn.
pub open spec fn rem_trunc(a: int, b: int) -> int
    recommends
        b > 0,
{
    if a >= 0 {
        a % b
    } else {
        -((-a) % b)
    }
}

/// The quotient of `a` by `b` rounded toward zero, as Rust's `/`
/// operator computes it.
pub open spec fn div_trunc(a: int, b: int) -> int
    recommends
        b > 0,
{
    if a >= 0 {
        a / b
    } else {
        -((-a) / b)
    }
}

/// Law: reducing by a positive period keeps the dividend's sign, lands
/// strictly within one period either way, leaves a value already within
/// one period unchanged, and sends exactly one period (of either sign)
/// to zero.
pub proof fn lemma_rem_trunc_props(a: int, b: int)
    requires
        0 < b,
    ensures
        -b < rem_trunc(a, b) < b,
        a >= 0 ==> rem_trunc(a, b) >= 0,
        a <= 0 ==> rem_trunc(a, b) <= 0,
        -b < a < b ==> rem_trunc(a, b) == a,
        a == b || a == -b ==> rem_trunc(a, b) == 0,
{
    if a >= 0 {
        lemma_mod_division_less_than_divisor(a, b);
        if a < b {
            lemma_small_mod(a as nat, b as nat);
        }
        if a == b {
            lemma_mod_self_0(b);
        }
    } else {
        lemma_mod_division_less_than_divisor(-a, b);
        if -a < b {
            lemma_small_mod((-a) as nat, b as nat);
        }
        if a == -b {
            lemma_mod_self_0(b);
        }
    }
}

/// Reduces an angle modulo a full turn, preserving its sign.
pub fn reduce_rotation(a: i64) -> (r: i64)
    ensures
        r == rem_trunc(a as int, TAU as int),
        -TAU < r < TAU,
{
    rem_trunc_i64(a, TAU)
}

/// The dividend-signed remainder on machine integers.
pub fn rem_trunc_i64(a: i64, b: i64) -> (r: i64)
    requires
        0 < b,
    ensures
        r == rem_trunc(a as int, b as int),
{
    proof {
        lemma_rem_trunc_props(a as int, b as int);
    }
    let r = a.checked_rem(b);
    r.unwrap()
}

/// The toward-zero quotient on machine integers.
pub fn div_trunc_i64(a: i64, b: i64) -> (r: i64)
    requires
        0 < b,
    ensures
        r == div_trunc(a as int, b as int),
{
    proof {
        if a >= 0 {
            lemma_div_pos_is_pos(a as int, b as int);
            lemma_div_nonincreasing(a as int, b as int);
        } else {
            lemma_div_pos_is_pos(-(a as int), b as int);
            lemma_div_nonincreasing(-(a as int), b as int);
        }
    }
    let r = a.checked_div(b);
    r.unwrap()
}

/// Canonicalizes a coordinate into `[0, p)` by adding one period and
/// reducing: the formula presumes the input is less than one period below
/// the lower edge, and returns a negative value otherwise.
pub open spec fn wrap_coord(x: int, p: int) -> int
    recommends
        p > 0,
{
    rem_trunc(p + x, p)
}

/// Law: any coordinate within one period of the lower edge wraps into the
/// canonical range `[0, p)`.
pub proof fn lemma_wrap_in_range(x: int, p: int)
    requires
        0 < p,
        -p < x,
    ensures
        0 <= wrap_coord(x, p) < p,
{
    lemma_rem_trunc_props(p + x, p);
}

/// Law: wrapping a coordinate that is already canonical returns it
/// unchanged.
pub proof fn lemma_wrap_idempotent(x: int, p: int)
    requires
        0 < p,
        0 <= x < p,
    ensures
        wrap_coord(x, p) == x,
{
    lemma_mod_multiples_vanish(1, x, p);
    lemma_small_mod(x as nat, p as nat);
}

/// The wrap operation on machine integers.
pub fn wrap_coord_i64(x: i64, p: i64) -> (r: i64)
    requires
        0 < p,
        x <= i64::MAX - p,
    ensures
        r == wrap_coord(x as int, p as int),
{
    rem_trunc_i64(p + x, p)
}

/// Canonicalizes a position into `[0, w) x [0, h)`, coordinate by
/// coordinate.
pub open spec fn wrap_pos(pos: V2, w: int, h: int) -> V2
    recommends
        w > 0,
        h > 0,
{
    V2 { x: wrap_coord(pos.x, w), y: wrap_coord(pos.y, h) }
}

/// The position wrap on machine integers.
pub fn wrap_position(pos: Vec2, w: i64, h: i64) -> (r: Vec2)
    requires
        0 < w,
        0 < h,
        pos.x <= i64::MAX - w,
        pos.y <= i64::MAX - h,
    ensures
        r@ == wrap_pos(pos@, w as int, h as int),
{
    Vec2 { x: wrap_coord_i64(pos.x, w), y: wrap_coord_i64(pos.y, h) }
}

/// The nine render offsets for a world of size `w x h`, in their fixed
/// order: center, left, right, top, bottom, then the four corners.
pub open spec fn wrap_offsets_model(w: int, h: int) -> Seq<V2> {
    seq![
        V2 { x: 0, y: 0 },
        V2 { x: -w, y: 0 },
        V2 { x: w, y: 0 },
        V2 { x: 0, y: -h },
        V2 { x: 0, y: h },
        V2 { x: -w, y: -h },
        V2 { x: w, y: -h },
        V2 { x: -w, y: h },
        V2 { x: w, y: h },
    ]
}

/// Law: for any positive world size the render offsets are exactly nine —
/// the zero vector, the four axis-aligned translations, and the four
/// diagonals — with no duplicates among them.
pub proof fn lemma_wrap_offsets_shape(w: int, h: int)
    requires
        0 < w,
        0 < h,
    ensures
        wrap_offsets_model(w, h).len() == 9,
        wrap_offsets_model(w, h)[0] == V2::zero(),
        wrap_offsets_model(w, h).contains(V2 { x: -w, y: 0 }),
        wrap_offsets_model(w, h).contains(V2 { x: w, y: 0 }),
        wrap_offsets_model(w, h).contains(V2 { x: 0, y: -h }),
        wrap_offsets_model(w, h).contains(V2 { x: 0, y: h }),
        wrap_offsets_model(w, h).contains(V2 { x: -w, y: -h }),
        wrap_offsets_model(w, h).contains(V2 { x: w, y: -h }),
        wrap_offsets_model(w, h).contains(V2 { x: -w, y: h }),
        wrap_offsets_model(w, h).contains(V2 { x: w, y: h }),
        forall|i: int, j: int|
            0 <= i < j < 9 ==> wrap_offsets_model(w, h)[i] != wrap_offsets_model(w, h)[j],
{
    let m = wrap_offsets_model(w, h);
    assert(m.contains(V2 { x: -w, y: 0 })) by { assert(m[1] == V2 { x: -w, y: 0 }); }
    assert(m.contains(V2 { x: w, y: 0 })) by { assert(m[2] == V2 { x: w, y: 0 }); }
    assert(m.contains(V2 { x: 0, y: -h })) by { assert(m[3] == V2 { x: 0, y: -h }); }
    assert(m.contains(V2 { x: 0, y: h })) by { assert(m[4] == V2 { x: 0, y: h }); }
    assert(m.contains(V2 { x: -w, y: -h })) by { assert(m[5] == V2 { x: -w, y: -h }); }
    assert(m.contains(V2 { x: w, y: -h })) by { assert(m[6] == V2 { x: w, y: -h }); }
    assert(m.contains(V2 { x: -w, y: h })) by { assert(m[7] == V2 { x: -w, y: h }); }
    assert(m.contains(V2 { x: w, y: h })) by { assert(m[8] == V2 { x: w, y: h }); }
}

/// The nine render offsets as machine values, in the fixed order of
/// `wrap_offsets_model`.
pub fn wrap_offsets(w: i64, h: i64) -> (v: Vec<Vec2>)
    requires
        0 < w,
        0 < h,
    ensures
        v@.len() == 9,
        forall|i: int| 0 <= i < 9 ==> #[trigger] v@[i]@ == wrap_offsets_model(w as int, h as int)[i],
        forall|i: int|
            0 <= i < 9 ==> -w <= (#[trigger] v@[i]).x <= w && -h <= v@[i].y <= h,
{
    let mut v: Vec<Vec2> = Vec::new();
    v.push(Vec2::new(0, 0));
    v.push(Vec2::new(-w, 0));
    v.push(Vec2::new(w, 0));
    v.push(Vec2::new(0, -h));
    v.push(Vec2::new(0, h));
    v.push(Vec2::new(-w, -h));
    v.push(Vec2::new(w, -h));
    v.push(Vec2::new(-w, h));
    v.push(Vec2::new(w, h));
    v
}

/// A rotation given by its fixed-point cosine and sine, each scaled by
/// `SCALE`. The host computes it from an angle; the simulation only needs
/// both components to be at most `SCALE` in magnitude.
#[derive(Clone, Copy, Debug, PartialEq, Eq, Structural)]
pub struct Rotor {
    pub cos: i64,
    pub sin: i64,
}

/// Mathematical model of a `Rotor`.
pub ghost struct RotorModel {
    pub cos: int,
    pub sin: int,
}

impl View for Rotor {
    type V = RotorModel;

    open spec fn view(&self) -> RotorModel {
        RotorModel { cos: self.cos as int, sin: self.sin as int }
    }
}

impl Rotor {
    pub open spec fn wf(self) -> bool {
        -SCALE <= self.cos <= SCALE && -SCALE <= self.sin <= SCALE
    }

    pub fn new(cos: i64, sin: i64) -> (r: Rotor)
        ensures
            r == (Rotor { cos, sin }),
    {
        Rotor { cos, sin }
    }

    /// The rotor of angle zero.
    pub fn identity() -> (r: Rotor)
        ensures
            r == (Rotor { cos: SCALE, sin: 0 }),
            r.wf(),
    {
        Rotor { cos: SCALE, sin: 0 }
    }
}

/// Rotates a vector by a rotor: the standard 2-D rotation transform in
/// fixed point, each component divided back by `SCALE` toward zero.
pub open spec fn rotate(v: V2, r: RotorModel) -> V2 {
    V2 {
        x: div_trunc(v.x * r.cos - v.y * r.sin, SCALE as int),
        y: div_trunc(v.x * r.sin + v.y * r.cos, SCALE as int),
    }
}

/// Law: rotating by a well-formed rotor cannot grow a component beyond
/// the sum of the input magnitudes.
pub proof fn lemma_rotate_bound(v: V2, r: RotorModel)
    requires
        -SCALE <= r.cos <= SCALE,
        -SCALE <= r.sin <= SCALE,
    ensures
        abs(rotate(v, r).x) <= abs(v.x) + abs(v.y),
        abs(rotate(v, r).y) <= abs(v.x) + abs(v.y),
{
    let m = (abs(v.x) + abs(v.y)) as int;
    let s = SCALE as int;
    assert(-(m * s) <= v.x * r.cos - v.y * r.sin <= m * s) by (nonlinear_arith)
        requires
            -s <= r.cos <= s,
            -s <= r.sin <= s,
            m == abs(v.x) + abs(v.y),
            abs(v.x) == if v.x >= 0 { v.x } else { -v.x },
            abs(v.y) == if v.y >= 0 { v.y } else { -v.y };
    assert(-(m * s) <= v.x * r.sin + v.y * r.cos <= m * s) by (nonlinear_arith)
        requires
            -s <= r.cos <= s,
            -s <= r.sin <= s,
            m == abs(v.x) + abs(v.y),
            abs(v.x) == if v.x >= 0 { v.x } else { -v.x },
            abs(v.y) == if v.y >= 0 { v.y } else { -v.y };
    lemma_div_trunc_bound(v.x * r.cos - v.y * r.sin, s, m);
    lemma_div_trunc_bound(v.x * r.sin + v.y * r.cos, s, m);
}

/// Law: a toward-zero quotient of a value within `m` periods stays within
/// `m`.
pub proof fn lemma_div_trunc_bound(a: int, b: int, m: int)
    requires
        0 < b,
        0 <= m,
        -(m * b) <= a <= m * b,
    ensures
        -m <= div_trunc(a, b) <= m,
{
    assert(m * b == b * m) by (nonlinear_arith);
    lemma_div_multiples_vanish(m, b);
    if a >= 0 {
        lemma_div_pos_is_pos(a, b);
        lemma_div_is_ordered(a, m * b, b);
    } else {
        lemma_div_pos_is_pos(-a, b);
        lemma_div_is_ordered(-a, m * b, b);
    }
}

/// Bound below which `rotate_vec` cannot overflow.
pub const ROTATE_INPUT_LIMIT: i64 = 1_000_000_000;

/// The 2-D rotation transform on machine values.
pub fn rotate_vec(v: Vec2, r: Rotor) -> (out: Vec2)
    requires
        r.wf(),
        -ROTATE_INPUT_LIMIT <= v.x <= ROTATE_INPUT_LIMIT,
        -ROTATE_INPUT_LIMIT <= v.y <= ROTATE_INPUT_LIMIT,
    ensures
        out@ == rotate(v@, r@),
        abs(out.x as int) <= abs(v.x as int) + abs(v.y as int),
        abs(out.y as int) <= abs(v.x as int) + abs(v.y as int),
{
    proof {
        assert(-1_000_000_000_000 <= v.x as int * r.cos as int <= 1_000_000_000_000
            && -1_000_000_000_000 <= v.y as int * r.sin as int <= 1_000_000_000_000
            && -1_000_000_000_000 <= v.x as int * r.sin as int <= 1_000_000_000_000
            && -1_000_000_000_000 <= v.y as int * r.cos as int <= 1_000_000_000_000)
            by (nonlinear_arith)
            requires
                -1000 <= r.cos as int <= 1000,
                -1000 <= r.sin as int <= 1000,
                -1_000_000_000 <= v.x as int <= 1_000_000_000,
                -1_000_000_000 <= v.y as int <= 1_000_000_000;
        lemma_rotate_bound(v@, r@);
    }
    let xs = v.x * r.cos - v.y * r.sin;
    let ys = v.x * r.sin + v.y * r.cos;
    Vec2 { x: div_trunc_i64(xs, SCALE), y: div_trunc_i64(ys, SCALE) }
}

} // verus!
