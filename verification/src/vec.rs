//! Two- and three-component vectors of fixed-point scalars.

use vstd::prelude::*;
use crate::fx::{
    clip, fx_add, fx_div, fx_div_s, fx_mul, fx_mul_s, fx_ok, fx_sqrt, fx_sub, sqrt_s,
};

verus! {

/// A 3D vector of raw fixed-point components.
#[derive(Clone, Copy, Debug, PartialEq, Eq, Structural)]
pub struct Vec3 {
    pub x: i64,
    pub y: i64,
    pub z: i64,
}

/// A 2D vector of raw fixed-point components.
#[derive(Clone, Copy, Debug, PartialEq, Eq, Structural)]
pub struct Vec2 {
    pub x: i64,
    pub y: i64,
}

/// All components are in the representable range.
pub open spec fn v3_ok(v: Vec3) -> bool {
    fx_ok(v.x as int) && fx_ok(v.y as int) && fx_ok(v.z as int)
}

/// All components are in the representable range.
pub open spec fn v2_ok(v: Vec2) -> bool {
    fx_ok(v.x as int) && fx_ok(v.y as int)
}

pub open spec fn v3_zero_s() -> Vec3 {
    Vec3 { x: 0, y: 0, z: 0 }
}

pub open spec fn v2_zero_s() -> Vec2 {
    Vec2 { x: 0, y: 0 }
}

pub open spec fn v3_add_s(a: Vec3, b: Vec3) -> Vec3 {
    Vec3 {
        x: clip(a.x + b.x) as i64,
        y: clip(a.y + b.y) as i64,
        z: clip(a.z + b.z) as i64,
    }
}

pub open spec fn v3_sub_s(a: Vec3, b: Vec3) -> Vec3 {
    Vec3 {
        x: clip(a.x - b.x) as i64,
        y: clip(a.y - b.y) as i64,
        z: clip(a.z - b.z) as i64,
    }
}

pub open spec fn v3_neg_s(a: Vec3) -> Vec3
    recommends
        v3_ok(a),
{
    Vec3 { x: (-(a.x as int)) as i64, y: (-(a.y as int)) as i64, z: (-(a.z as int)) as i64 }
}

/// Componentwise scaling by a fixed-point factor.
pub open spec fn v3_scale_s(v: Vec3, s: int) -> Vec3 {
    Vec3 {
        x: fx_mul_s(v.x as int, s) as i64,
        y: fx_mul_s(v.y as int, s) as i64,
        z: fx_mul_s(v.z as int, s) as i64,
    }
}

/// Fixed-point dot product, summed left to right.
pub open spec fn v3_dot_s(a: Vec3, b: Vec3) -> int {
    clip(
        clip(fx_mul_s(a.x as int, b.x as int) + fx_mul_s(a.y as int, b.y as int)) + fx_mul_s(
            a.z as int,
            b.z as int,
        ),
    )
}

/// Fixed-point cross product.
pub open spec fn v3_cross_s(a: Vec3, b: Vec3) -> Vec3 {
    Vec3 {
        x: clip(fx_mul_s(a.y as int, b.z as int) - fx_mul_s(a.z as int, b.y as int)) as i64,
        y: clip(fx_mul_s(a.z as int, b.x as int) - fx_mul_s(a.x as int, b.z as int)) as i64,
        z: clip(fx_mul_s(a.x as int, b.y as int) - fx_mul_s(a.y as int, b.x as int)) as i64,
    }
}

/// Length of a vector: the square root of its self dot product.
pub open spec fn v3_len_s(v: Vec3) -> int {
    sqrt_s(v3_dot_s(v, v))
}

/// Normalization; a zero-length vector is returned unchanged
/// (the library's explicit degenerate-case policy).
pub open spec fn v3_norm_s(v: Vec3) -> Vec3 {
    let m = v3_len_s(v);
    if m == 0 {
        v
    } else {
        Vec3 {
            x: fx_div_s(v.x as int, m) as i64,
            y: fx_div_s(v.y as int, m) as i64,
            z: fx_div_s(v.z as int, m) as i64,
        }
    }
}

/// The component of `v` along `n`; zero when `n` has zero self dot
/// product (the library's explicit degenerate-case policy).
pub open spec fn v3_project_s(v: Vec3, n: Vec3) -> Vec3 {
    let nn = v3_dot_s(n, n);
    if nn == 0 {
        v3_zero_s()
    } else {
        v3_scale_s(n, fx_div_s(v3_dot_s(v, n), nn))
    }
}

/// Length of a 2D vector.
pub open spec fn v2_len_s(v: Vec2) -> int {
    sqrt_s(clip(fx_mul_s(v.x as int, v.x as int) + fx_mul_s(v.y as int, v.y as int)))
}

/// A fixed-point square is never negative.
pub proof fn lemma_sq_nonneg(x: int)
    requires
        fx_ok(x),
    ensures
        fx_mul_s(x, x) >= 0,
{
    assert(x * x >= 0) by (nonlinear_arith);
}

/// A self dot product is never negative.
pub proof fn lemma_dot_self_nonneg(v: Vec3)
    requires
        v3_ok(v),
    ensures
        v3_dot_s(v, v) >= 0,
{
    lemma_sq_nonneg(v.x as int);
    lemma_sq_nonneg(v.y as int);
    lemma_sq_nonneg(v.z as int);
}

pub fn v3_zero() -> (r: Vec3)
    ensures
        r == v3_zero_s(),
{
    Vec3 { x: 0, y: 0, z: 0 }
}

pub fn v2_zero() -> (r: Vec2)
    ensures
        r == v2_zero_s(),
{
    Vec2 { x: 0, y: 0 }
}

pub fn v3_add(a: Vec3, b: Vec3) -> (r: Vec3)
    ensures
        r == v3_add_s(a, b),
        v3_ok(r),
{
    Vec3 { x: fx_add(a.x, b.x), y: fx_add(a.y, b.y), z: fx_add(a.z, b.z) }
}

pub fn v3_sub(a: Vec3, b: Vec3) -> (r: Vec3)
    ensures
        r == v3_sub_s(a, b),
        v3_ok(r),
{
    Vec3 { x: fx_sub(a.x, b.x), y: fx_sub(a.y, b.y), z: fx_sub(a.z, b.z) }
}

pub fn v3_neg(a: Vec3) -> (r: Vec3)
    requires
        v3_ok(a),
    ensures
        r == v3_neg_s(a),
        v3_ok(r),
{
    Vec3 { x: -a.x, y: -a.y, z: -a.z }
}

pub fn v3_scale(v: Vec3, s: i64) -> (r: Vec3)
    requires
        v3_ok(v),
        fx_ok(s as int),
    ensures
        r == v3_scale_s(v, s as int),
        v3_ok(r),
{
    Vec3 { x: fx_mul(v.x, s), y: fx_mul(v.y, s), z: fx_mul(v.z, s) }
}

pub fn v3_dot(a: Vec3, b: Vec3) -> (r: i64)
    requires
        v3_ok(a),
        v3_ok(b),
    ensures
        r == v3_dot_s(a, b),
        fx_ok(r as int),
{
    fx_add(fx_add(fx_mul(a.x, b.x), fx_mul(a.y, b.y)), fx_mul(a.z, b.z))
}

pub fn v3_cross(a: Vec3, b: Vec3) -> (r: Vec3)
    requires
        v3_ok(a),
        v3_ok(b),
    ensures
        r == v3_cross_s(a, b),
        v3_ok(r),
{
    Vec3 {
        x: fx_sub(fx_mul(a.y, b.z), fx_mul(a.z, b.y)),
        y: fx_sub(fx_mul(a.z, b.x), fx_mul(a.x, b.z)),
        z: fx_sub(fx_mul(a.x, b.y), fx_mul(a.y, b.x)),
    }
}

pub fn v3_len(v: Vec3) -> (r: i64)
    requires
        v3_ok(v),
    ensures
        r == v3_len_s(v),
        0 <= r,
        fx_ok(r as int),
{
    let d: i64 = v3_dot(v, v);
    proof {
        lemma_dot_self_nonneg(v);
    }
    fx_sqrt(d)
}

pub fn v3_norm(v: Vec3) -> (r: Vec3)
    requires
        v3_ok(v),
    ensures
        r == v3_norm_s(v),
        v3_ok(r),
{
    let m: i64 = v3_len(v);
    if m == 0 {
        v
    } else {
        Vec3 { x: fx_div(v.x, m), y: fx_div(v.y, m), z: fx_div(v.z, m) }
    }
}

pub fn v3_project(v: Vec3, n: Vec3) -> (r: Vec3)
    requires
        v3_ok(v),
        v3_ok(n),
    ensures
        r == v3_project_s(v, n),
        v3_ok(r),
{
    let nn: i64 = v3_dot(n, n);
    if nn == 0 {
        v3_zero()
    } else {
        let f: i64 = fx_div(v3_dot(v, n), nn);
        v3_scale(n, f)
    }
}

pub fn v2_len(v: Vec2) -> (r: i64)
    requires
        v2_ok(v),
    ensures
        r == v2_len_s(v),
        0 <= r,
        fx_ok(r as int),
{
    let d: i64 = fx_add(fx_mul(v.x, v.x), fx_mul(v.y, v.y));
    proof {
        lemma_sq_nonneg(v.x as int);
        lemma_sq_nonneg(v.y as int);
    }
    fx_sqrt(d)
}

} // verus!
