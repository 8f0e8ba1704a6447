//! Fixed-point three- and four-component vectors and their arithmetic.

use vstd::prelude::*;

use crate::fx::{
    fx_div, fx_div_spec, fx_mul, fx_mul_spec, iabs, is_sqrt_floor, isqrt_u64, lemma_fx_div_unit,
    sqrt_floor, tdiv, FX_LIM, FX_ONE, VEC_LIM,
};

verus! {

/// A vector of three fixed-point scalars.
#[derive(Clone, Copy, Debug, PartialEq, Eq, Structural)]
pub struct Vec3Fx {
    pub x: i64,
    pub y: i64,
    pub z: i64,
}

/// A vector of four fixed-point scalars; `w` carries alpha for colors.
#[derive(Clone, Copy, Debug, PartialEq, Eq, Structural)]
pub struct Vec4Fx {
    pub x: i64,
    pub y: i64,
    pub z: i64,
    pub w: i64,
}

/// Every component of `v` has magnitude at most `lim`.
pub open spec fn v3_in(v: Vec3Fx, lim: int) -> bool {
    iabs(v.x as int) <= lim && iabs(v.y as int) <= lim && iabs(v.z as int) <= lim
}

/// The unscaled inner product: a quantity in squared millionths.
pub open spec fn raw_dot(a: Vec3Fx, b: Vec3Fx) -> int {
    (a.x as int) * (b.x as int) + (a.y as int) * (b.y as int) + (a.z as int) * (b.z as int)
}

/// Length of `v` in millionths: the square-root floor of its raw inner
/// product.
pub open spec fn norm_len(v: Vec3Fx) -> int {
    sqrt_floor(raw_dot(v, v))
}

impl Vec3Fx {
    /// Build a vector from its components.
    pub fn new(x: i64, y: i64, z: i64) -> (r: Vec3Fx)
        ensures
            r.x == x && r.y == y && r.z == z,
    {
        Vec3Fx { x, y, z }
    }

    /// The zero vector.
    pub fn zero() -> (r: Vec3Fx)
        ensures
            r.x == 0 && r.y == 0 && r.z == 0,
    {
        Vec3Fx { x: 0, y: 0, z: 0 }
    }

    /// Append a fourth component.
    pub fn extend(self, w: i64) -> (r: Vec4Fx)
        ensures
            r.x == self.x && r.y == self.y && r.z == self.z && r.w == w,
    {
        Vec4Fx { x: self.x, y: self.y, z: self.z, w }
    }
}

impl Vec4Fx {
    /// Build a vector from its components.
    pub fn new(x: i64, y: i64, z: i64, w: i64) -> (r: Vec4Fx)
        ensures
            r.x == x && r.y == y && r.z == z && r.w == w,
    {
        Vec4Fx { x, y, z, w }
    }

    /// Drop the fourth component.
    pub fn truncate(self) -> (r: Vec3Fx)
        ensures
            r.x == self.x && r.y == self.y && r.z == self.z,
    {
        Vec3Fx { x: self.x, y: self.y, z: self.z }
    }
}

/// Scale every component by the fixed-point scalar `s`.
pub fn v3_scale(v: Vec3Fx, s: i64) -> (r: Vec3Fx)
    requires
        v3_in(v, FX_LIM as int),
        -FX_LIM <= s <= FX_LIM,
    ensures
        r.x == fx_mul_spec(v.x as int, s as int),
        r.y == fx_mul_spec(v.y as int, s as int),
        r.z == fx_mul_spec(v.z as int, s as int),
{
    Vec3Fx { x: fx_mul(v.x, s), y: fx_mul(v.y, s), z: fx_mul(v.z, s) }
}

/// The magnitude of a product of bounded factors.
pub proof fn lemma_prod_bound(x: int, y: int, bx: int, bz: int)
    by (nonlinear_arith)
    requires
        0 <= bx,
        0 <= bz,
        iabs(x) <= bx,
        iabs(y) <= bz,
    ensures
        iabs(x * y) <= bx * bz,
{
}

/// The magnitude of a raw inner product of bounded vectors.
pub proof fn lemma_raw_dot_bound(a: Vec3Fx, b: Vec3Fx, la: int, lb: int)
    requires
        0 <= la,
        0 <= lb,
        v3_in(a, la),
        v3_in(b, lb),
    ensures
        iabs(raw_dot(a, b)) <= 3 * la * lb,
{
    lemma_prod_bound(a.x as int, b.x as int, la, lb);
    lemma_prod_bound(a.y as int, b.y as int, la, lb);
    lemma_prod_bound(a.z as int, b.z as int, la, lb);
    assert(iabs(raw_dot(a, b)) <= 3 * (la * lb));
    assert(3 * (la * lb) == 3 * la * lb) by (nonlinear_arith);
}

/// Fixed-point inner product, truncated toward zero.
pub fn dot3(a: Vec3Fx, b: Vec3Fx) -> (r: i64)
    requires
        v3_in(a, VEC_LIM as int),
        v3_in(b, VEC_LIM as int),
    ensures
        r == tdiv(raw_dot(a, b), FX_ONE as int),
{
    proof {
        assert((a.x as int) * (b.x as int) <= 1_000_000_000_000_000_000int
            && (a.x as int) * (b.x as int) >= -1_000_000_000_000_000_000int
            && (a.y as int) * (b.y as int) <= 1_000_000_000_000_000_000int
            && (a.y as int) * (b.y as int) >= -1_000_000_000_000_000_000int
            && (a.z as int) * (b.z as int) <= 1_000_000_000_000_000_000int
            && (a.z as int) * (b.z as int) >= -1_000_000_000_000_000_000int) by (nonlinear_arith)
            requires
                v3_in(a, VEC_LIM as int),
                v3_in(b, VEC_LIM as int),
                VEC_LIM == 1_000_000_000i64,
        ;
    }
    let px: i128 = (a.x as i128) * (b.x as i128);
    let py: i128 = (a.y as i128) * (b.y as i128);
    let pz: i128 = (a.z as i128) * (b.z as i128);
    let s: i128 = px + py + pz;
    crate::fx::fx_of_wide(s)
}

/// Fixed-point cross product.
pub fn cross3(a: Vec3Fx, b: Vec3Fx) -> (r: Vec3Fx)
    requires
        v3_in(a, VEC_LIM as int),
        v3_in(b, VEC_LIM as int),
    ensures
        r.x == tdiv((a.y as int) * (b.z as int) - (a.z as int) * (b.y as int), FX_ONE as int),
        r.y == tdiv((a.z as int) * (b.x as int) - (a.x as int) * (b.z as int), FX_ONE as int),
        r.z == tdiv((a.x as int) * (b.y as int) - (a.y as int) * (b.x as int), FX_ONE as int),
{
    proof {
        lemma_cross_products_bounded(a, b);
    }
    let cx: i128 = (a.y as i128) * (b.z as i128) - (a.z as i128) * (b.y as i128);
    let cy: i128 = (a.z as i128) * (b.x as i128) - (a.x as i128) * (b.z as i128);
    let cz: i128 = (a.x as i128) * (b.y as i128) - (a.y as i128) * (b.x as i128);
    Vec3Fx {
        x: crate::fx::fx_of_wide(cx),
        y: crate::fx::fx_of_wide(cy),
        z: crate::fx::fx_of_wide(cz),
    }
}

/// Bounds on the pairwise products feeding a cross product.
proof fn lemma_cross_products_bounded(a: Vec3Fx, b: Vec3Fx)
    by (nonlinear_arith)
    requires
        v3_in(a, VEC_LIM as int),
        v3_in(b, VEC_LIM as int),
    ensures
        iabs((a.y as int) * (b.z as int)) <= 1_000_000_000_000_000_000int,
        iabs((a.z as int) * (b.y as int)) <= 1_000_000_000_000_000_000int,
        iabs((a.z as int) * (b.x as int)) <= 1_000_000_000_000_000_000int,
        iabs((a.x as int) * (b.z as int)) <= 1_000_000_000_000_000_000int,
        iabs((a.x as int) * (b.y as int)) <= 1_000_000_000_000_000_000int,
        iabs((a.y as int) * (b.x as int)) <= 1_000_000_000_000_000_000int,
{
}

/// No component of a vector outweighs the vector's length.
proof fn lemma_comp_le_len(x: int, y: int, z: int, len: int)
    by (nonlinear_arith)
    requires
        is_sqrt_floor(x * x + y * y + z * z, len),
    ensures
        iabs(x) <= len,
        iabs(y) <= len,
        iabs(z) <= len,
{
}

/// The normalized image of `v`: each component divided by the vector's
/// fixed-point length.
pub open spec fn normalize_v3_spec(v: Vec3Fx) -> Vec3Fx
    recommends
        raw_dot(v, v) > 0,
{
    Vec3Fx {
        x: fx_div_spec(v.x as int, norm_len(v)) as i64,
        y: fx_div_spec(v.y as int, norm_len(v)) as i64,
        z: fx_div_spec(v.z as int, norm_len(v)) as i64,
    }
}

/// Rescale a non-zero vector to unit length: each component is divided by
/// the vector's fixed-point length, so the result's components are exactly
/// `c * FX_ONE / norm_len(v)` and never exceed one unit in magnitude.
pub fn normalize3(v: Vec3Fx) -> (r: Vec3Fx)
    requires
        v3_in(v, VEC_LIM as int),
        raw_dot(v, v) > 0,
    ensures
        norm_len(v) >= 1,
        r == normalize_v3_spec(v),
        r.x == fx_div_spec(v.x as int, norm_len(v)),
        r.y == fx_div_spec(v.y as int, norm_len(v)),
        r.z == fx_div_spec(v.z as int, norm_len(v)),
        v3_in(r, FX_ONE as int),
{
    proof {
        assert((v.x as int) * (v.x as int) <= 1_000_000_000_000_000_000int
            && (v.y as int) * (v.y as int) <= 1_000_000_000_000_000_000int
            && (v.z as int) * (v.z as int) <= 1_000_000_000_000_000_000int
            && (v.x as int) * (v.x as int) >= 0 && (v.y as int) * (v.y as int) >= 0 && (v.z as int)
            * (v.z as int) >= 0) by (nonlinear_arith)
            requires
                v3_in(v, VEC_LIM as int),
                VEC_LIM == 1_000_000_000i64,
        ;
    }
    let sx: i128 = (v.x as i128) * (v.x as i128);
    let sy: i128 = (v.y as i128) * (v.y as i128);
    let sz: i128 = (v.z as i128) * (v.z as i128);
    let s: i128 = sx + sy + sz;
    assert(s == raw_dot(v, v));
    let len: u64 = isqrt_u64(s as u64);
    proof {
        assert(is_sqrt_floor(raw_dot(v, v), len as int));
        crate::fx::lemma_sqrt_floor_pos(raw_dot(v, v), len as int);
        lemma_comp_le_len(v.x as int, v.y as int, v.z as int, len as int);
        lemma_fx_div_unit(v.x as int, len as int);
        lemma_fx_div_unit(v.y as int, len as int);
        lemma_fx_div_unit(v.z as int, len as int);
        crate::fx::lemma_sqrt_floor_of(raw_dot(v, v), len as int);
    }
    let li: i64 = len as i64;
    Vec3Fx { x: fx_div(v.x, li), y: fx_div(v.y, li), z: fx_div(v.z, li) }
}

/// The linear blend `a + (b - a) * t`.
pub open spec fn lerp3_spec(a: Vec3Fx, b: Vec3Fx, t: i64) -> Vec3Fx {
    Vec3Fx {
        x: (a.x + fx_mul_spec(b.x - a.x, t as int)) as i64,
        y: (a.y + fx_mul_spec(b.y - a.y, t as int)) as i64,
        z: (a.z + fx_mul_spec(b.z - a.z, t as int)) as i64,
    }
}

/// Blend `a` toward `b` by the unclamped factor `t`.
pub fn v3_lerp(a: Vec3Fx, b: Vec3Fx, t: i64) -> (r: Vec3Fx)
    requires
        v3_in(a, 8 * FX_ONE as int),
        v3_in(b, 8 * FX_ONE as int),
        -2 * FX_ONE <= t <= 2 * FX_ONE,
    ensures
        r == lerp3_spec(a, b, t),
        r.x == a.x + fx_mul_spec(b.x - a.x, t as int),
        r.y == a.y + fx_mul_spec(b.y - a.y, t as int),
        r.z == a.z + fx_mul_spec(b.z - a.z, t as int),
        v3_in(r, 40 * FX_ONE as int),
{
    proof {
        crate::fx::lemma_fx_mul_bound(b.x - a.x, t as int, 16_000_000, 2_000_000);
        crate::fx::lemma_fx_mul_bound(b.y - a.y, t as int, 16_000_000, 2_000_000);
        crate::fx::lemma_fx_mul_bound(b.z - a.z, t as int, 16_000_000, 2_000_000);
        assert(iabs(fx_mul_spec(b.x - a.x, t as int)) <= 32_000_000);
        assert(iabs(fx_mul_spec(b.y - a.y, t as int)) <= 32_000_000);
        assert(iabs(fx_mul_spec(b.z - a.z, t as int)) <= 32_000_000);
    }
    Vec3Fx {
        x: a.x + fx_mul(b.x - a.x, t),
        y: a.y + fx_mul(b.y - a.y, t),
        z: a.z + fx_mul(b.z - a.z, t),
    }
}

/// A column-major four-by-four matrix of fixed-point scalars.
#[derive(Clone, Copy, Debug, PartialEq, Eq, Structural)]
pub struct Mat4Fx {
    pub x_axis: Vec4Fx,
    pub y_axis: Vec4Fx,
    pub z_axis: Vec4Fx,
    pub w_axis: Vec4Fx,
}

/// Every component of `v` has magnitude at most `lim`.
pub open spec fn v4_in(v: Vec4Fx, lim: int) -> bool {
    iabs(v.x as int) <= lim && iabs(v.y as int) <= lim && iabs(v.z as int) <= lim && iabs(
        v.w as int,
    ) <= lim
}

/// Every entry of `m` has magnitude at most `lim`.
pub open spec fn m4_in(m: Mat4Fx, lim: int) -> bool {
    v4_in(m.x_axis, lim) && v4_in(m.y_axis, lim) && v4_in(m.z_axis, lim) && v4_in(m.w_axis, lim)
}

/// The unscaled `x` component of `m * v`.
pub open spec fn m4_raw_x(m: Mat4Fx, v: Vec4Fx) -> int {
    (m.x_axis.x as int) * (v.x as int) + (m.y_axis.x as int) * (v.y as int) + (m.z_axis.x as int)
        * (v.z as int) + (m.w_axis.x as int) * (v.w as int)
}

/// The unscaled `y` component of `m * v`.
pub open spec fn m4_raw_y(m: Mat4Fx, v: Vec4Fx) -> int {
    (m.x_axis.y as int) * (v.x as int) + (m.y_axis.y as int) * (v.y as int) + (m.z_axis.y as int)
        * (v.z as int) + (m.w_axis.y as int) * (v.w as int)
}

/// The unscaled `z` component of `m * v`.
pub open spec fn m4_raw_z(m: Mat4Fx, v: Vec4Fx) -> int {
    (m.x_axis.z as int) * (v.x as int) + (m.y_axis.z as int) * (v.y as int) + (m.z_axis.z as int)
        * (v.z as int) + (m.w_axis.z as int) * (v.w as int)
}

/// The unscaled `w` component of `m * v`.
pub open spec fn m4_raw_w(m: Mat4Fx, v: Vec4Fx) -> int {
    (m.x_axis.w as int) * (v.x as int) + (m.y_axis.w as int) * (v.y as int) + (m.z_axis.w as int)
        * (v.z as int) + (m.w_axis.w as int) * (v.w as int)
}

/// Matrix-vector product, each component truncated back to millionths.
pub fn mat4_mul_vec4(m: &Mat4Fx, v: Vec4Fx) -> (r: Vec4Fx)
    requires
        m4_in(*m, VEC_LIM as int),
        v4_in(v, VEC_LIM as int),
    ensures
        r.x == tdiv(m4_raw_x(*m, v), FX_ONE as int),
        r.y == tdiv(m4_raw_y(*m, v), FX_ONE as int),
        r.z == tdiv(m4_raw_z(*m, v), FX_ONE as int),
        r.w == tdiv(m4_raw_w(*m, v), FX_ONE as int),
{
    proof {
        lemma_prod_bound(m.x_axis.x as int, v.x as int, VEC_LIM as int, VEC_LIM as int);
        lemma_prod_bound(m.y_axis.x as int, v.y as int, VEC_LIM as int, VEC_LIM as int);
        lemma_prod_bound(m.z_axis.x as int, v.z as int, VEC_LIM as int, VEC_LIM as int);
        lemma_prod_bound(m.w_axis.x as int, v.w as int, VEC_LIM as int, VEC_LIM as int);
        lemma_prod_bound(m.x_axis.y as int, v.x as int, VEC_LIM as int, VEC_LIM as int);
        lemma_prod_bound(m.y_axis.y as int, v.y as int, VEC_LIM as int, VEC_LIM as int);
        lemma_prod_bound(m.z_axis.y as int, v.z as int, VEC_LIM as int, VEC_LIM as int);
        lemma_prod_bound(m.w_axis.y as int, v.w as int, VEC_LIM as int, VEC_LIM as int);
        lemma_prod_bound(m.x_axis.z as int, v.x as int, VEC_LIM as int, VEC_LIM as int);
        lemma_prod_bound(m.y_axis.z as int, v.y as int, VEC_LIM as int, VEC_LIM as int);
        lemma_prod_bound(m.z_axis.z as int, v.z as int, VEC_LIM as int, VEC_LIM as int);
        lemma_prod_bound(m.w_axis.z as int, v.w as int, VEC_LIM as int, VEC_LIM as int);
        lemma_prod_bound(m.x_axis.w as int, v.x as int, VEC_LIM as int, VEC_LIM as int);
        lemma_prod_bound(m.y_axis.w as int, v.y as int, VEC_LIM as int, VEC_LIM as int);
        lemma_prod_bound(m.z_axis.w as int, v.z as int, VEC_LIM as int, VEC_LIM as int);
        lemma_prod_bound(m.w_axis.w as int, v.w as int, VEC_LIM as int, VEC_LIM as int);
    }
    let rx: i128 = (m.x_axis.x as i128) * (v.x as i128) + (m.y_axis.x as i128) * (v.y as i128) + (
    m.z_axis.x as i128) * (v.z as i128) + (m.w_axis.x as i128) * (v.w as i128);
    let ry: i128 = (m.x_axis.y as i128) * (v.x as i128) + (m.y_axis.y as i128) * (v.y as i128) + (
    m.z_axis.y as i128) * (v.z as i128) + (m.w_axis.y as i128) * (v.w as i128);
    let rz: i128 = (m.x_axis.z as i128) * (v.x as i128) + (m.y_axis.z as i128) * (v.y as i128) + (
    m.z_axis.z as i128) * (v.z as i128) + (m.w_axis.z as i128) * (v.w as i128);
    let rw: i128 = (m.x_axis.w as i128) * (v.x as i128) + (m.y_axis.w as i128) * (v.y as i128) + (
    m.z_axis.w as i128) * (v.z as i128) + (m.w_axis.w as i128) * (v.w as i128);
    Vec4Fx {
        x: crate::fx::fx_of_wide(rx),
        y: crate::fx::fx_of_wide(ry),
        z: crate::fx::fx_of_wide(rz),
        w: crate::fx::fx_of_wide(rw),
    }
}

/// Normalize a non-zero vector and also hand back its fixed-point length.
pub fn normalize3_with_len(v: Vec3Fx) -> (r: (Vec3Fx, i64))
    requires
        v3_in(v, VEC_LIM as int),
        raw_dot(v, v) > 0,
    ensures
        r.1 == norm_len(v),
        1 <= r.1 < 0x1_0000_0000i64,
        r.0 == normalize_v3_spec(v),
        r.0.x == fx_div_spec(v.x as int, norm_len(v)),
        r.0.y == fx_div_spec(v.y as int, norm_len(v)),
        r.0.z == fx_div_spec(v.z as int, norm_len(v)),
        v3_in(r.0, FX_ONE as int),
{
    proof {
        assert((v.x as int) * (v.x as int) <= 1_000_000_000_000_000_000int
            && (v.y as int) * (v.y as int) <= 1_000_000_000_000_000_000int
            && (v.z as int) * (v.z as int) <= 1_000_000_000_000_000_000int
            && (v.x as int) * (v.x as int) >= 0 && (v.y as int) * (v.y as int) >= 0 && (v.z as int)
            * (v.z as int) >= 0) by (nonlinear_arith)
            requires
                v3_in(v, VEC_LIM as int),
                VEC_LIM == 1_000_000_000i64,
        ;
    }
    let sx: i128 = (v.x as i128) * (v.x as i128);
    let sy: i128 = (v.y as i128) * (v.y as i128);
    let sz: i128 = (v.z as i128) * (v.z as i128);
    let s: i128 = sx + sy + sz;
    assert(s == raw_dot(v, v));
    let len: u64 = isqrt_u64(s as u64);
    proof {
        assert(is_sqrt_floor(raw_dot(v, v), len as int));
        crate::fx::lemma_sqrt_floor_pos(raw_dot(v, v), len as int);
        lemma_comp_le_len(v.x as int, v.y as int, v.z as int, len as int);
        lemma_fx_div_unit(v.x as int, len as int);
        lemma_fx_div_unit(v.y as int, len as int);
        lemma_fx_div_unit(v.z as int, len as int);
        crate::fx::lemma_sqrt_floor_of(raw_dot(v, v), len as int);
    }
    let li: i64 = len as i64;
    (Vec3Fx { x: fx_div(v.x, li), y: fx_div(v.y, li), z: fx_div(v.z, li) }, li)
}

/// The mirror-reflection direction `2 (v . n) n - v`.
pub open spec fn reflect_spec(v: Vec3Fx, n: Vec3Fx) -> Vec3Fx {
    let d = tdiv(raw_dot(v, n), FX_ONE as int);
    Vec3Fx {
        x: (2 * fx_mul_spec(d, n.x as int) - v.x) as i64,
        y: (2 * fx_mul_spec(d, n.y as int) - v.y) as i64,
        z: (2 * fx_mul_spec(d, n.z as int) - v.z) as i64,
    }
}

/// The mirror-reflection direction `2 (v . n) n - v` of the view direction
/// `v` about the normal `n`, both roughly unit length.
pub fn reflect_dir(v: Vec3Fx, n: Vec3Fx) -> (r: Vec3Fx)
    requires
        v3_in(v, FX_ONE as int),
        v3_in(n, FX_ONE as int),
    ensures
        r == reflect_spec(v, n),
        r.x == 2 * fx_mul_spec(tdiv(raw_dot(v, n), FX_ONE as int), n.x as int) - v.x,
        r.y == 2 * fx_mul_spec(tdiv(raw_dot(v, n), FX_ONE as int), n.y as int) - v.y,
        r.z == 2 * fx_mul_spec(tdiv(raw_dot(v, n), FX_ONE as int), n.z as int) - v.z,
        v3_in(r, 8 * FX_ONE as int),
{
    proof {
        lemma_raw_dot_bound(v, n, FX_ONE as int, FX_ONE as int);
        assert(v3_in(v, VEC_LIM as int) && v3_in(n, VEC_LIM as int));
    }
    let d: i64 = dot3(v, n);
    proof {
        assert(iabs(tdiv(raw_dot(v, n), FX_ONE as int)) <= 3 * FX_ONE) by (nonlinear_arith)
            requires
                iabs(raw_dot(v, n)) <= 3 * (FX_ONE as int) * (FX_ONE as int),
                FX_ONE == 1_000_000i64,
        ;
        crate::fx::lemma_fx_mul_bound(d as int, n.x as int, 3 * FX_ONE as int, FX_ONE as int);
        crate::fx::lemma_fx_mul_bound(d as int, n.y as int, 3 * FX_ONE as int, FX_ONE as int);
        crate::fx::lemma_fx_mul_bound(d as int, n.z as int, 3 * FX_ONE as int, FX_ONE as int);
    }
    let tx: i64 = fx_mul(d, n.x);
    let ty: i64 = fx_mul(d, n.y);
    let tz: i64 = fx_mul(d, n.z);
    Vec3Fx { x: 2 * tx - v.x, y: 2 * ty - v.y, z: 2 * tz - v.z }
}

} // verus!
