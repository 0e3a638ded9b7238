//! Rotations as quaternions with integer components, interpreted
//! projectively: `q` and `c * q` (for `c > 0`) stand for the same rotation,
//! and applying `q` to a vector `v` computes `q v q* / (q . q)` with one
//! truncating division at the end. This keeps rotation application,
//! composition, and the shortest-arc construction inside exact integer
//! arithmetic.

use vstd::prelude::*;
use crate::num::{div_t, div_trunc, isqrt_u128, lemma_div_t_denominator, lemma_div_t_one,
    lemma_mul_bound, lemma_pow2_pos, pow2, sqrt_floor};
use crate::vec3::{s_cross, s_div, s_dot, s_in_range, s_bounded, V3, Vec3, WideVec3};

verus! {

/// Bound on every component of a stored quaternion (2^48).
pub const MAX_QUAT: i64 = 0x1000000000000;

/// Specification-level quaternion `(w, x, y, z)`: scalar part first.
pub type Q4 = (int, int, int, int);

pub open spec fn q_norm_sq(q: Q4) -> int {
    q.0 * q.0 + q.1 * q.1 + q.2 * q.2 + q.3 * q.3
}

pub open spec fn q_in_range_s(q: Q4) -> bool {
    &&& -MAX_QUAT <= q.0 <= MAX_QUAT
    &&& -MAX_QUAT <= q.1 <= MAX_QUAT
    &&& -MAX_QUAT <= q.2 <= MAX_QUAT
    &&& -MAX_QUAT <= q.3 <= MAX_QUAT
}

/// Hamilton product.
pub open spec fn q_mul(a: Q4, b: Q4) -> Q4 {
    (
        a.0 * b.0 - a.1 * b.1 - a.2 * b.2 - a.3 * b.3,
        a.0 * b.1 + a.1 * b.0 + a.2 * b.3 - a.3 * b.2,
        a.0 * b.2 - a.1 * b.3 + a.2 * b.0 + a.3 * b.1,
        a.0 * b.3 + a.1 * b.2 - a.2 * b.1 + a.3 * b.0,
    )
}

/// The numerator of `q v q*`: with `q = (w, u)` and pure vector `v` this is
/// `(w^2 - u.u) v + 2 (u.v) u + 2 w (u x v)`.
pub open spec fn q_apply_num(q: Q4, v: V3) -> V3 {
    let w = q.0;
    let u = (q.1, q.2, q.3);
    let k = w * w - s_dot(u, u);
    let d = s_dot(u, v);
    let c = s_cross(u, v);
    (
        k * v.0 + 2 * d * u.0 + 2 * w * c.0,
        k * v.1 + 2 * d * u.1 + 2 * w * c.1,
        k * v.2 + 2 * d * u.2 + 2 * w * c.2,
    )
}

/// The vector `v` rotated by `q`: `q v q*` divided (with truncation) by the
/// squared norm of `q`.
pub open spec fn q_rotate(q: Q4, v: V3) -> V3
    recommends
        q_norm_sq(q) > 0,
{
    s_div(q_apply_num(q, v), q_norm_sq(q))
}

/// `q` with every component halved `k` times, truncating at each step.
pub open spec fn q_shift(q: Q4, k: nat) -> Q4 {
    (div_t(q.0, pow2(k)), div_t(q.1, pow2(k)), div_t(q.2, pow2(k)), div_t(q.3, pow2(k)))
}

/// A quadruple halved (with truncation) as often as needed — and no more —
/// to bring every component within the storage bound. Well-defined:
/// `lemma_q_shift_minimal_unique` shows at most one halving count fits.
pub open spec fn q_reduce(q: Q4) -> Q4 {
    q_shift(
        q,
        choose|k: nat|
            q_in_range_s(#[trigger] q_shift(q, k)) && (k == 0 || !q_in_range_s(
                q_shift(q, (k - 1) as nat),
            )),
    )
}

/// A rotation: a quaternion with integer components, not necessarily of unit
/// norm. The all-zero quaternion stands for no rotation at all: applying it
/// is refused (`rotate` returns `None`) and callers skip the frame.
#[derive(Clone, Copy, Debug, PartialEq, Eq, Structural)]
pub struct Quat {
    pub w: i64,
    pub x: i64,
    pub y: i64,
    pub z: i64,
}

impl Quat {
    pub open spec fn s(self) -> Q4 {
        (self.w as int, self.x as int, self.y as int, self.z as int)
    }

    pub open spec fn in_range(self) -> bool {
        q_in_range_s(self.s())
    }

    pub fn new(w: i64, x: i64, y: i64, z: i64) -> (r: Quat)
        ensures
            r.s() == (w as int, x as int, y as int, z as int),
    {
        Quat { w, x, y, z }
    }

    /// The identity rotation.
    pub fn identity() -> (r: Quat)
        ensures
            r.s() == (1int, 0int, 0int, 0int),
            r.in_range(),
            q_norm_sq(r.s()) > 0,
    {
        Quat { w: 1, x: 0, y: 0, z: 0 }
    }

    pub fn is_in_range(self) -> (r: bool)
        ensures
            r == self.in_range(),
    {
        -MAX_QUAT <= self.w && self.w <= MAX_QUAT && -MAX_QUAT <= self.x && self.x <= MAX_QUAT
            && -MAX_QUAT <= self.y && self.y <= MAX_QUAT && -MAX_QUAT <= self.z && self.z
            <= MAX_QUAT
    }

    /// The squared norm, exact.
    pub fn norm_sq(self) -> (r: i128)
        requires
            self.in_range(),
        ensures
            r == q_norm_sq(self.s()),
            r >= 0,
    {
        proof {
            let q = self.s();
            assert(q.0 * q.0 >= 0 && q.1 * q.1 >= 0 && q.2 * q.2 >= 0 && q.3 * q.3 >= 0)
                by (nonlinear_arith);
            lemma_mul_bound(self.w as int, self.w as int, MAX_QUAT as int, MAX_QUAT as int);
            lemma_mul_bound(self.x as int, self.x as int, MAX_QUAT as int, MAX_QUAT as int);
            lemma_mul_bound(self.y as int, self.y as int, MAX_QUAT as int, MAX_QUAT as int);
            lemma_mul_bound(self.z as int, self.z as int, MAX_QUAT as int, MAX_QUAT as int);
        }
        (self.w as i128) * (self.w as i128) + (self.x as i128) * (self.x as i128) + (self.y
            as i128) * (self.y as i128) + (self.z as i128) * (self.z as i128)
    }

    /// Rotate a vector: computes `q v q*`, divides by the squared norm, and
    /// narrows. `None` exactly when the rotated vector leaves the coordinate
    /// range.
    pub fn rotate(self, v: Vec3) -> (r: Option<Vec3>)
        requires
            self.in_range(),
            v.in_range(),
        ensures
            q_norm_sq(self.s()) > 0 && s_in_range(q_rotate(self.s(), v.s())) ==> (r matches Some(p)
                && p.s() == q_rotate(self.s(), v.s())),
            q_norm_sq(self.s()) > 0 && !s_in_range(q_rotate(self.s(), v.s())) ==> r is None,
            q_norm_sq(self.s()) == 0 ==> r is None,
            q_norm_sq(self.s()) >= 0,
            r matches Some(p) ==> p.s() == q_rotate(self.s(), v.s()) && p.in_range(),
    {
        let den: i128 = self.norm_sq();
        if den == 0 {
            return None;
        }
        let w = self.w as i128;
        let ux = self.x as i128;
        let uy = self.y as i128;
        let uz = self.z as i128;
        let vx = v.x as i128;
        let vy = v.y as i128;
        let vz = v.z as i128;
        proof {
            let qb = MAX_QUAT as int;
            let cb = crate::vec3::MAX_COORD as int;
            lemma_mul_bound(w as int, w as int, qb, qb);
            lemma_mul_bound(ux as int, ux as int, qb, qb);
            lemma_mul_bound(uy as int, uy as int, qb, qb);
            lemma_mul_bound(uz as int, uz as int, qb, qb);
            lemma_mul_bound(ux as int, vx as int, qb, cb);
            lemma_mul_bound(uy as int, vy as int, qb, cb);
            lemma_mul_bound(uz as int, vz as int, qb, cb);
            lemma_mul_bound(uy as int, vz as int, qb, cb);
            lemma_mul_bound(uz as int, vy as int, qb, cb);
            lemma_mul_bound(uz as int, vx as int, qb, cb);
            lemma_mul_bound(ux as int, vz as int, qb, cb);
            lemma_mul_bound(ux as int, vy as int, qb, cb);
            lemma_mul_bound(uy as int, vx as int, qb, cb);
        }
        let uu: i128 = ux * ux + uy * uy + uz * uz;
        let k: i128 = w * w - uu;
        let d: i128 = ux * vx + uy * vy + uz * vz;
        let cx: i128 = uy * vz - uz * vy;
        let cy: i128 = uz * vx - ux * vz;
        let cz: i128 = ux * vy - uy * vx;
        proof {
            let kb = 0x4000000000000000000000000int;  // 2^98
            let cb2 = 0x800000000000000000int;  // 2^71: twice a cross component
            let db2 = 0x1000000000000000000int;  // 2^72: twice a dot bound
            lemma_mul_bound(k as int, vx as int, kb, crate::vec3::MAX_COORD as int);
            lemma_mul_bound(k as int, vy as int, kb, crate::vec3::MAX_COORD as int);
            lemma_mul_bound(k as int, vz as int, kb, crate::vec3::MAX_COORD as int);
            lemma_mul_bound(2 * (d as int), ux as int, db2, MAX_QUAT as int);
            lemma_mul_bound(2 * (d as int), uy as int, db2, MAX_QUAT as int);
            lemma_mul_bound(2 * (d as int), uz as int, db2, MAX_QUAT as int);
            lemma_mul_bound(2 * (w as int), cx as int, 2 * (MAX_QUAT as int), cb2);
            lemma_mul_bound(2 * (w as int), cy as int, 2 * (MAX_QUAT as int), cb2);
            lemma_mul_bound(2 * (w as int), cz as int, 2 * (MAX_QUAT as int), cb2);
        }
        let nx: i128 = k * vx + 2 * d * ux + 2 * w * cx;
        let ny: i128 = k * vy + 2 * d * uy + 2 * w * cy;
        let nz: i128 = k * vz + 2 * d * uz + 2 * w * cz;
        let r = WideVec3 {
            x: div_trunc(nx, den),
            y: div_trunc(ny, den),
            z: div_trunc(nz, den),
        };
        proof {
            assert(r.s() == q_rotate(self.s(), v.s()));
        }
        r.narrow()
    }

    /// Hamilton product of two rotations, halved (with truncation) as often
    /// as needed — and no more — to bring every component back within the
    /// storage bound. Halving both rotations' product keeps the represented
    /// rotation, up to the rounding of the halvings.
    #[verifier::rlimit(60)]
    pub fn mul_q(self, o: Quat) -> (r: Quat)
        requires
            self.in_range(),
            o.in_range(),
        ensures
            r.in_range(),
            r.s() == q_reduce(q_mul(self.s(), o.s())),
    {
        let aw = self.w as i128;
        let ax = self.x as i128;
        let ay = self.y as i128;
        let az = self.z as i128;
        let bw = o.w as i128;
        let bx = o.x as i128;
        let by = o.y as i128;
        let bz = o.z as i128;
        proof {
            let qb = MAX_QUAT as int;
            lemma_mul_bound(aw as int, bw as int, qb, qb);
            lemma_mul_bound(aw as int, bx as int, qb, qb);
            lemma_mul_bound(aw as int, by as int, qb, qb);
            lemma_mul_bound(aw as int, bz as int, qb, qb);
            lemma_mul_bound(ax as int, bw as int, qb, qb);
            lemma_mul_bound(ax as int, bx as int, qb, qb);
            lemma_mul_bound(ax as int, by as int, qb, qb);
            lemma_mul_bound(ax as int, bz as int, qb, qb);
            lemma_mul_bound(ay as int, bw as int, qb, qb);
            lemma_mul_bound(ay as int, bx as int, qb, qb);
            lemma_mul_bound(ay as int, by as int, qb, qb);
            lemma_mul_bound(ay as int, bz as int, qb, qb);
            lemma_mul_bound(az as int, bw as int, qb, qb);
            lemma_mul_bound(az as int, bx as int, qb, qb);
            lemma_mul_bound(az as int, by as int, qb, qb);
            lemma_mul_bound(az as int, bz as int, qb, qb);
        }
        let w: i128 = aw * bw - ax * bx - ay * by - az * bz;
        let x: i128 = aw * bx + ax * bw + ay * bz - az * by;
        let y: i128 = aw * by - ax * bz + ay * bw + az * bx;
        let z: i128 = aw * bz + ax * by - ay * bx + az * bw;
        proof {
            assert((w as int, x as int, y as int, z as int) == q_mul(self.s(), o.s()));
        }
        reduce_components(w, x, y, z)
    }
}

/// Once the halvings bring a quadruple within the storage bound, further
/// halvings keep it there.
pub proof fn lemma_q_shift_monotone(q: Q4, k1: nat, k2: nat)
    requires
        k1 <= k2,
        q_in_range_s(q_shift(q, k1)),
    ensures
        q_in_range_s(q_shift(q, k2)),
    decreases k2 - k1,
{
    if k1 < k2 {
        lemma_pow2_pos(k1);
        lemma_div_t_denominator(q.0, pow2(k1), 2);
        lemma_div_t_denominator(q.1, pow2(k1), 2);
        lemma_div_t_denominator(q.2, pow2(k1), 2);
        lemma_div_t_denominator(q.3, pow2(k1), 2);
        crate::num::lemma_div_t_bound(div_t(q.0, pow2(k1)), 2, MAX_QUAT as int);
        crate::num::lemma_div_t_bound(div_t(q.1, pow2(k1)), 2, MAX_QUAT as int);
        crate::num::lemma_div_t_bound(div_t(q.2, pow2(k1)), 2, MAX_QUAT as int);
        crate::num::lemma_div_t_bound(div_t(q.3, pow2(k1)), 2, MAX_QUAT as int);
        assert(q_in_range_s(q_shift(q, (k1 + 1) as nat)));
        lemma_q_shift_monotone(q, (k1 + 1) as nat, k2);
    }
}

/// The reduction of a quadruple is unambiguous: any two halving counts that
/// land within the storage bound, neither of which halves more than needed,
/// are the same count — so the composed rotation that `mul_q` promises is
/// uniquely determined.
pub proof fn lemma_q_shift_minimal_unique(q: Q4, k1: nat, k2: nat)
    requires
        q_in_range_s(q_shift(q, k1)),
        k1 == 0 || !q_in_range_s(q_shift(q, (k1 - 1) as nat)),
        q_in_range_s(q_shift(q, k2)),
        k2 == 0 || !q_in_range_s(q_shift(q, (k2 - 1) as nat)),
    ensures
        k1 == k2,
{
    if k1 < k2 {
        lemma_q_shift_monotone(q, k1, (k2 - 1) as nat);
    } else if k2 < k1 {
        lemma_q_shift_monotone(q, k2, (k1 - 1) as nat);
    }
}

/// One halving step of the component reduction: the quotients line up with
/// one more power of two, the total magnitude strictly shrinks (some
/// component is out of range, hence nonzero), and the pre-step quadruple
/// witnesses that the previous shift was still out of range.
proof fn lemma_reduce_step(raw: Q4, k: nat, w: int, x: int, y: int, z: int)
    requires
        w == div_t(raw.0, pow2(k)),
        x == div_t(raw.1, pow2(k)),
        y == div_t(raw.2, pow2(k)),
        z == div_t(raw.3, pow2(k)),
        !(-MAX_QUAT <= w <= MAX_QUAT && -MAX_QUAT <= x <= MAX_QUAT && -MAX_QUAT <= y <= MAX_QUAT
            && -MAX_QUAT <= z <= MAX_QUAT),
    ensures
        div_t(w, 2) == div_t(raw.0, pow2((k + 1) as nat)),
        div_t(x, 2) == div_t(raw.1, pow2((k + 1) as nat)),
        div_t(y, 2) == div_t(raw.2, pow2((k + 1) as nat)),
        div_t(z, 2) == div_t(raw.3, pow2((k + 1) as nat)),
        crate::num::s_abs(div_t(w, 2)) + crate::num::s_abs(div_t(x, 2)) + crate::num::s_abs(
            div_t(y, 2),
        ) + crate::num::s_abs(div_t(z, 2)) < crate::num::s_abs(w) + crate::num::s_abs(x)
            + crate::num::s_abs(y) + crate::num::s_abs(z),
        !q_in_range_s(q_shift(raw, k)),
{
    lemma_pow2_pos(k);
    lemma_div_t_denominator(raw.0, pow2(k), 2);
    lemma_div_t_denominator(raw.1, pow2(k), 2);
    lemma_div_t_denominator(raw.2, pow2(k), 2);
    lemma_div_t_denominator(raw.3, pow2(k), 2);
    vstd::arithmetic::div_mod::lemma_div_basics(2);
    if w != 0 {
        crate::num::lemma_div_t_shrinks(w, 2);
    }
    if x != 0 {
        crate::num::lemma_div_t_shrinks(x, 2);
    }
    if y != 0 {
        crate::num::lemma_div_t_shrinks(y, 2);
    }
    if z != 0 {
        crate::num::lemma_div_t_shrinks(z, 2);
    }
}

/// Halve all four components, truncating, until each is back within the
/// storage bound; the positive norm is preserved because the component that
/// forced a halving stays nonzero.
#[verifier::rlimit(100)]
fn reduce_components(w0: i128, x0: i128, y0: i128, z0: i128) -> (r: Quat)
    ensures
        r.in_range(),
        r.s() == q_reduce((w0 as int, x0 as int, y0 as int, z0 as int)),
{
    let ghost raw: Q4 = (w0 as int, x0 as int, y0 as int, z0 as int);
    let mut w: i128 = w0;
    let mut x: i128 = x0;
    let mut y: i128 = y0;
    let mut z: i128 = z0;
    let ghost mut k: nat = 0;
    proof {
        lemma_div_t_one(raw.0);
        lemma_div_t_one(raw.1);
        lemma_div_t_one(raw.2);
        lemma_div_t_one(raw.3);
    }
    while !(-MAX_QUAT as i128 <= w && w <= MAX_QUAT as i128 && -MAX_QUAT as i128 <= x && x
        <= MAX_QUAT as i128 && -MAX_QUAT as i128 <= y && y <= MAX_QUAT as i128 && -MAX_QUAT as i128
        <= z && z <= MAX_QUAT as i128)
        invariant
            w as int == div_t(raw.0, pow2(k)),
            x as int == div_t(raw.1, pow2(k)),
            y as int == div_t(raw.2, pow2(k)),
            z as int == div_t(raw.3, pow2(k)),
            k == 0 || !q_in_range_s(q_shift(raw, (k - 1) as nat)),
        decreases crate::num::s_abs(w as int) + crate::num::s_abs(x as int) + crate::num::s_abs(
            y as int,
        ) + crate::num::s_abs(z as int),
    {
        proof {
            lemma_reduce_step(raw, k, w as int, x as int, y as int, z as int);
        }
        w = div_trunc(w, 2);
        x = div_trunc(x, 2);
        y = div_trunc(y, 2);
        z = div_trunc(z, 2);
        proof {
            k = k + 1;
        }
    }
    let r = Quat { w: w as i64, x: x as i64, y: y as i64, z: z as i64 };
    proof {
        assert(r.s() == q_shift(raw, k));
        assert(q_in_range_s(q_shift(raw, k)) && (k == 0 || !q_in_range_s(
            q_shift(raw, (k - 1) as nat),
        )));
        let kk = choose|k2: nat|
            q_in_range_s(#[trigger] q_shift(raw, k2)) && (k2 == 0 || !q_in_range_s(
                q_shift(raw, (k2 - 1) as nat),
            ));
        lemma_q_shift_minimal_unique(raw, k, kk);
    }
    r
}

/// A quaternion with some nonzero component has positive squared norm.
proof fn lemma_nonzero_comp_norm_pos(q: Q4)
    requires
        q.0 != 0 || q.1 != 0 || q.2 != 0 || q.3 != 0,
    ensures
        q_norm_sq(q) > 0,
{
    assert(q.0 * q.0 >= 0 && q.1 * q.1 >= 0 && q.2 * q.2 >= 0 && q.3 * q.3 >= 0)
        by (nonlinear_arith);
    assert((q.0 != 0 ==> q.0 * q.0 > 0) && (q.1 != 0 ==> q.1 * q.1 > 0) && (q.2 != 0 ==> q.2
        * q.2 > 0) && (q.3 != 0 ==> q.3 * q.3 > 0)) by (nonlinear_arith);
}

/// The shortest-arc quaternion taking the direction of `a` to the direction
/// of `b`: scalar part `sqrt_floor(|a|^2 |b|^2) + a . b` (the half-angle form
/// of the turn), vector part `a x b` (so the turn follows the right-hand rule
/// about the plane normal). The all-zero quadruple means the construction
/// degenerates: a zero input or exactly opposite directions, where no
/// shortest arc exists.
pub open spec fn q_arc(a: V3, b: V3) -> Q4 {
    let c = s_cross(a, b);
    (sqrt_floor(s_dot(a, a) * s_dot(b, b)) + s_dot(a, b), c.0, c.1, c.2)
}

/// The shortest-arc rotation taking the direction of `a` to the direction of
/// `b`; `None` exactly when the construction degenerates.
pub fn rotation_arc(a: Vec3, b: Vec3) -> (r: Option<Quat>)
    requires
        s_bounded(a.s(), 2 * crate::vec3::MAX_COORD),
        s_bounded(b.s(), 2 * crate::vec3::MAX_COORD),
    ensures
        q_arc(a.s(), b.s()) == (0int, 0int, 0int, 0int) ==> r is None,
        q_arc(a.s(), b.s()) != (0int, 0int, 0int, 0int) ==> (r matches Some(q) && q.s() == q_arc(
            a.s(), b.s()) && q.in_range() && q_norm_sq(q.s()) > 0),
{
    proof {
        lemma_mul_bound(a.x as int, a.x as int, 0x400000, 0x400000);
        lemma_mul_bound(a.y as int, a.y as int, 0x400000, 0x400000);
        lemma_mul_bound(a.z as int, a.z as int, 0x400000, 0x400000);
        lemma_mul_bound(b.x as int, b.x as int, 0x400000, 0x400000);
        lemma_mul_bound(b.y as int, b.y as int, 0x400000, 0x400000);
        lemma_mul_bound(b.z as int, b.z as int, 0x400000, 0x400000);
        lemma_mul_bound(a.x as int, b.x as int, 0x400000, 0x400000);
        lemma_mul_bound(a.y as int, b.y as int, 0x400000, 0x400000);
        lemma_mul_bound(a.z as int, b.z as int, 0x400000, 0x400000);
    }
    let aa: i128 = (a.x as i128) * (a.x as i128) + (a.y as i128) * (a.y as i128) + (a.z as i128)
        * (a.z as i128);
    let bb: i128 = (b.x as i128) * (b.x as i128) + (b.y as i128) * (b.y as i128) + (b.z as i128)
        * (b.z as i128);
    let d: i128 = (a.x as i128) * (b.x as i128) + (a.y as i128) * (b.y as i128) + (a.z as i128)
        * (b.z as i128);
    proof {
        assert(aa >= 0 && bb >= 0) by (nonlinear_arith)
            requires
                aa == (a.x as int) * (a.x as int) + (a.y as int) * (a.y as int) + (a.z as int) * (
                a.z as int),
                bb == (b.x as int) * (b.x as int) + (b.y as int) * (b.y as int) + (b.z as int) * (
                b.z as int),
        ;
        lemma_mul_bound(aa as int, bb as int, 0x300000000000, 0x300000000000);
    }
    let m: u128 = isqrt_u128((aa as u128) * (bb as u128));
    proof {
        assert((m as int) * (m as int) <= (aa as int) * (bb as int));
        crate::num::lemma_sqrt_le(m as int, (aa as int) * (bb as int), 0x400000000000);
    }
    let w: i128 = m as i128 + d;
    proof {
        lemma_mul_bound(a.y as int, b.z as int, 0x400000, 0x400000);
        lemma_mul_bound(a.z as int, b.y as int, 0x400000, 0x400000);
        lemma_mul_bound(a.z as int, b.x as int, 0x400000, 0x400000);
        lemma_mul_bound(a.x as int, b.z as int, 0x400000, 0x400000);
        lemma_mul_bound(a.x as int, b.y as int, 0x400000, 0x400000);
        lemma_mul_bound(a.y as int, b.x as int, 0x400000, 0x400000);
    }
    let cx: i128 = (a.y as i128) * (b.z as i128) - (a.z as i128) * (b.y as i128);
    let cy: i128 = (a.z as i128) * (b.x as i128) - (a.x as i128) * (b.z as i128);
    let cz: i128 = (a.x as i128) * (b.y as i128) - (a.y as i128) * (b.x as i128);
    if w == 0 && cx == 0 && cy == 0 && cz == 0 {
        None
    } else {
        let q = Quat { w: w as i64, x: cx as i64, y: cy as i64, z: cz as i64 };
        proof {
            lemma_nonzero_comp_norm_pos(q.s());
        }
        Some(q)
    }
}

} // verus!
