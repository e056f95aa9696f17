//! The library's laws: properties that relate several operations,
//! stated over the same spec functions the operations' contracts use.

use vstd::prelude::*;
use vstd::arithmetic::div_mod::{lemma_div_multiples_vanish, lemma_fundamental_div_mod};
use crate::controller::{
    amount_after, camera_ok, closest_point_s, cos_s, decay_pair_s, decay_s, decay_scalar_s,
    dir_before_s, dollied_dir_s, dolly_arg_s, new_center_s, new_dir_s, pan_factor_s, pan_offset_s,
    pitch_s, rodrigues_s, sin_s, turned_dir_s, up_after_reset_s, up_axis_s, yaw_s, Camera,
    CameraController, Key,
};
use crate::fx::{
    exp_s, fx_div_s, fx_mul_s, fx_ok, iabs, is_isqrt, lemma_exp_le_one, lemma_fx_mul_shrinks,
    lemma_fx_mul_unit, lemma_sqrt_val, one, tdiv, CAP, LN_POINT8, SCALE, SIXTY,
};
use crate::vec::{
    v2_ok, v2_zero_s, v3_cross_s, v3_dot_s, v3_len_s, v3_norm_s, v3_ok, v3_project_s, v3_scale_s,
    v3_sub_s, v3_zero_s, Vec2, Vec3,
};

verus! {

/// Cancellation: pressing a key and then releasing it returns the
/// translation accumulator to exactly where it started, for every key,
/// as long as the accumulator has a unit of headroom before saturation.
pub proof fn lemma_key_press_release(a: Vec3, key: Key)
    requires
        v3_ok(a),
        iabs(a.x as int) <= CAP as int - SCALE as int,
        iabs(a.y as int) <= CAP as int - SCALE as int,
        iabs(a.z as int) <= CAP as int - SCALE as int,
    ensures
        amount_after(amount_after(a, key, true), key, false) == a,
{
}

/// Opposing keys: pressing forward and back together leaves the
/// forward/back axis where it started; from a fresh controller it nets
/// exactly zero.
pub proof fn lemma_opposing_keys(a: Vec3)
    requires
        v3_ok(a),
        iabs(a.z as int) <= CAP as int - SCALE as int,
    ensures
        amount_after(amount_after(a, Key::KeyW, true), Key::KeyS, true) == a,
{
}

/// `n` decay steps of a scalar accumulator, as `update_camera` performs
/// them (scale by the decay factor, then snap below the epsilon).
pub open spec fn decay_scalar_iter(x: int, d: int, n: nat) -> int
    decreases n,
{
    if n == 0 {
        x
    } else {
        decay_scalar_iter(decay_scalar_s(x, d), d, (n - 1) as nat)
    }
}

/// `n` decay steps of a two-component accumulator.
pub open spec fn decay_pair_iter(v: Vec2, d: int, n: nat) -> Vec2
    decreases n,
{
    if n == 0 {
        v
    } else {
        decay_pair_iter(decay_pair_s(v, d), d, (n - 1) as nat)
    }
}

/// Decay convergence, scalar form: with any per-frame factor strictly
/// below one, repeated decay steps drive the accumulator to exactly
/// zero within `|x|` frames (each step loses at least one raw step of
/// magnitude, and the snap finishes the job).
pub proof fn lemma_decay_scalar_convergence(x: int, d: int, n: nat)
    requires
        fx_ok(x),
        fx_ok(d),
        0 <= d < one(),
        n >= iabs(x),
    ensures
        decay_scalar_iter(x, d, n) == 0,
    decreases n,
{
    if n == 0 {
        assert(x == 0);
    } else {
        let y = decay_scalar_s(x, d);
        if x == 0 {
            lemma_fx_mul_unit(d);
            assert(y == 0);
        } else {
            lemma_fx_mul_shrinks(x, d);
            assert(iabs(y) <= iabs(fx_mul_s(x, d)));
        }
        lemma_decay_scalar_convergence(y, d, (n - 1) as nat);
    }
}

/// Decay convergence, pair form: both components reach exactly zero
/// within `max(|x|, |y|)` frames.
pub proof fn lemma_decay_pair_convergence(v: Vec2, d: int, n: nat)
    requires
        v2_ok(v),
        fx_ok(d),
        0 <= d < one(),
        n >= iabs(v.x as int),
        n >= iabs(v.y as int),
    ensures
        decay_pair_iter(v, d, n) == v2_zero_s(),
    decreases n,
{
    if n == 0 {
        assert(v.x == 0 && v.y == 0);
        assert(v == v2_zero_s());
    } else {
        let w = decay_pair_s(v, d);
        lemma_fx_mul_unit(d);
        if v.x != 0 {
            lemma_fx_mul_shrinks(v.x as int, d);
        }
        if v.y != 0 {
            lemma_fx_mul_shrinks(v.y as int, d);
        }
        assert(iabs(w.x as int) <= n - 1 && iabs(w.y as int) <= n - 1);
        lemma_decay_pair_convergence(w, d, (n - 1) as nat);
    }
}

/// The per-frame decay factor `0.8^(dt*60)` lies strictly below one
/// whenever the decay exponent `dt * 60 * ln 0.8` is negative, which
/// holds for every positive frame length that does not round to zero —
/// so the convergence laws above apply to `update_camera`'s own factor.
pub proof fn lemma_decay_below_one(dt: int)
    requires
        fx_ok(dt),
        fx_mul_s(fx_mul_s(dt, SIXTY as int), LN_POINT8 as int) < 0,
    ensures
        0 <= decay_s(dt) < one(),
        fx_ok(decay_s(dt)),
{
    let arg = fx_mul_s(fx_mul_s(dt, SIXTY as int), LN_POINT8 as int);
    lemma_exp_le_one(arg);
}

/// The polynomial sine and cosine are exact at zero.
proof fn lemma_sin_cos_zero()
    ensures
        sin_s(0) == 0,
        cos_s(0) == one(),
{
}

/// A rotation by a zero angle moves nothing.
proof fn lemma_rodrigues_zero(v: Vec3, axis: Vec3)
    requires
        v3_ok(v),
        v3_ok(axis),
    ensures
        rodrigues_s(v, axis, 0) == v,
{
    lemma_sin_cos_zero();
    lemma_fx_mul_unit(v.x as int);
    lemma_fx_mul_unit(v.y as int);
    lemma_fx_mul_unit(v.z as int);
    let cr = v3_cross_s(axis, v);
    lemma_fx_mul_unit(cr.x as int);
    lemma_fx_mul_unit(cr.y as int);
    lemma_fx_mul_unit(cr.z as int);
    lemma_fx_mul_unit(v3_dot_s(axis, v));
    lemma_fx_mul_unit(axis.x as int);
    lemma_fx_mul_unit(axis.y as int);
    lemma_fx_mul_unit(axis.z as int);
    assert(rodrigues_s(v, axis, 0) == v);
}

/// The dolly exponential law: with no pan and no orbit input pending,
/// one frame leaves the pivot where it was and scales the pivot-to-
/// camera vector by exactly `exp(scroll * dt * 10 * speed)` — so the
/// new distance is the old one times that factor.
pub proof fn lemma_dolly_law(c: CameraController, cam: Camera, dt: int)
    requires
        c.wf(),
        camera_ok(cam),
        fx_ok(dt),
        c.shift == v2_zero_s(),
        c.rotation == v3_zero_s(),
    ensures
        new_center_s(c, cam, dt) == c.center,
        new_dir_s(c, cam, dt) == v3_scale_s(dir_before_s(c, cam), exp_s(dolly_arg_s(c, dt))),
{
    let xa = cam.rotation.right;
    let ya = up_axis_s(c, cam);
    assert(v3_ok(ya));
    // The pan offset vanishes: both shift components are zero.
    lemma_fx_mul_unit(xa.x as int);
    lemma_fx_mul_unit(xa.y as int);
    lemma_fx_mul_unit(xa.z as int);
    lemma_fx_mul_unit(ya.x as int);
    lemma_fx_mul_unit(ya.y as int);
    lemma_fx_mul_unit(ya.z as int);
    let pf = pan_factor_s(c, cam, dt);
    lemma_fx_mul_unit(pf);
    assert(pan_offset_s(c, cam, dt) == v3_zero_s());
    assert(new_center_s(c, cam, dt) == c.center);
    // Both orbit angles vanish: the rotation accumulator is zero.
    lemma_fx_mul_unit(dt);
    lemma_fx_mul_unit(c.sensitivity as int);
    assert(yaw_s(c, dt) == 0);
    assert(pitch_s(c, dt) == 0);
    // A zero-angle rotation leaves the dollied vector unchanged.
    let d1 = dollied_dir_s(c, cam, dt);
    assert(v3_ok(d1));
    lemma_rodrigues_zero(d1, xa);
    lemma_rodrigues_zero(d1, ya);
    assert(turned_dir_s(c, cam, dt) == d1);
}

/// Pan-distance scaling: where the products divide exactly by the scale
/// and stay clear of saturation, doubling the distance doubles the pan
/// factor `q * distance` and with it each pan-offset component `w * f`.
pub proof fn lemma_pan_distance_scaling(w: int, q: int, dist: int)
    requires
        fx_ok(w),
        fx_ok(q),
        fx_ok(dist),
        fx_ok(2 * dist),
        0 <= q,
        0 <= dist,
        (q * dist) % (SCALE as int) == 0,
        q * dist <= (CAP as int / 2) * (SCALE as int),
        (w * ((q * dist) / (SCALE as int))) % (SCALE as int) == 0,
        iabs(w * ((q * dist) / (SCALE as int))) <= (CAP as int / 2) * (SCALE as int),
    ensures
        fx_mul_s(q, 2 * dist) == 2 * fx_mul_s(q, dist),
        fx_mul_s(w, fx_mul_s(q, 2 * dist)) == 2 * fx_mul_s(w, fx_mul_s(q, dist)),
{
    let s = SCALE as int;
    let f = (q * dist) / s;
    lemma_fundamental_div_mod(q * dist, s);
    assert(q * dist == s * f);
    assert(q * dist >= 0) by (nonlinear_arith)
        requires
            0 <= q,
            0 <= dist,
    ;
    assert(f >= 0);
    // The factor for the doubled distance is exactly twice the factor.
    assert(q * (2 * dist) == s * (2 * f)) by (nonlinear_arith)
        requires
            q * dist == s * f,
    ;
    lemma_div_multiples_vanish(2 * f, s);
    lemma_div_multiples_vanish(f, s);
    assert((q * (2 * dist)) / s == 2 * f);
    assert(tdiv(q * dist, s) == f);
    assert(tdiv(q * (2 * dist), s) == 2 * f);
    assert(fx_mul_s(q, dist) == f);
    assert(fx_mul_s(q, 2 * dist) == 2 * f);
    // Each offset component doubles with the factor.
    let m = (w * f) / s;
    lemma_fundamental_div_mod(w * f, s);
    assert(w * f == s * m);
    assert(w * (2 * f) == s * (2 * m)) by (nonlinear_arith)
        requires
            w * f == s * m,
    ;
    lemma_div_multiples_vanish(m, s);
    lemma_div_multiples_vanish(2 * m, s);
    lemma_div_multiples_vanish(-m, s);
    lemma_div_multiples_vanish(-(2 * m), s);
    assert(iabs(w * f) == s * iabs(m) || iabs(w * f) == -(s * m)) by (nonlinear_arith)
        requires
            w * f == s * m,
            s > 0,
    ;
    assert(tdiv(w * f, s) == m);
    assert(tdiv(w * (2 * f), s) == 2 * m);
    assert(iabs(m) <= CAP as int / 2);
    assert(fx_mul_s(w, f) == m);
    assert(fx_mul_s(w, 2 * f) == 2 * m);
}

/// One of the six signed coordinate unit vectors.
pub open spec fn is_axis_unit(v: Vec3) -> bool {
    ||| v == (Vec3 { x: SCALE, y: 0, z: 0 })
    ||| v == (Vec3 { x: ((-(SCALE as int)) as i64), y: 0, z: 0 })
    ||| v == (Vec3 { x: 0, y: SCALE, z: 0 })
    ||| v == (Vec3 { x: 0, y: ((-(SCALE as int)) as i64), z: 0 })
    ||| v == (Vec3 { x: 0, y: 0, z: SCALE })
    ||| v == (Vec3 { x: 0, y: 0, z: ((-(SCALE as int)) as i64) })
}

/// A signed coordinate unit vector normalizes to itself.
proof fn lemma_axis_norm(f: Vec3)
    requires
        is_axis_unit(f),
    ensures
        v3_norm_s(f) == f,
        v3_dot_s(f, f) == one(),
{
    assert(1048576int * 1048576int == 1099511627776int) by (nonlinear_arith);
    assert((-1048576int) * (-1048576int) == 1099511627776int) by (nonlinear_arith);
    assert(iabs(1099511627776int) / 1048576 == 1048576);
    lemma_fx_mul_unit(0);
    assert(v3_dot_s(f, f) == one());
    assert(1099511627776int < 1048577int * 1048577int) by (nonlinear_arith);
    assert(is_isqrt(1048576int * 1048576int, 1048576int));
    lemma_sqrt_val(one(), one());
    assert(v3_len_s(f) == one());
    lemma_fx_mul_unit(SCALE as int);
    lemma_fx_mul_unit(-(SCALE as int));
}

/// The up-override half of resync idempotence: once the override is a
/// unit vector orthogonal to the camera's right axis — which is what a
/// first `reset_to_camera` produces in the exact cases — a further
/// re-orthogonalization leaves it unchanged.
pub proof fn lemma_up_reset_fixed_point(u: Vec3, right: Vec3)
    requires
        v3_ok(u),
        v3_ok(right),
        v3_dot_s(u, right) == 0,
        v3_norm_s(u) == u,
    ensures
        up_after_reset_s(u, right) == u,
{
    let nn = v3_dot_s(right, right);
    if nn != 0 {
        lemma_fx_mul_unit(nn);
        assert(fx_div_s(0, nn) == 0);
        lemma_fx_mul_unit(right.x as int);
        lemma_fx_mul_unit(right.y as int);
        lemma_fx_mul_unit(right.z as int);
    }
    assert(v3_project_s(u, right) == v3_zero_s());
    assert(v3_sub_s(u, v3_zero_s()) == u);
}

/// Resync idempotence: projecting the pivot onto the camera's viewing
/// ray twice gives the same point as projecting it once, for a camera
/// whose forward axis is coordinate-aligned (there the fixed-point
/// projection is exact) and a pivot within saturation range of it.
/// The up override is untouched when absent, so a second
/// `reset_to_camera` with an unmoved camera then changes nothing.
pub proof fn lemma_resync_idempotent(pos: Vec3, fwd: Vec3, center: Vec3)
    requires
        v3_ok(pos),
        v3_ok(center),
        is_axis_unit(fwd),
        iabs(center.x as int - pos.x as int) <= CAP as int,
        iabs(center.y as int - pos.y as int) <= CAP as int,
        iabs(center.z as int - pos.z as int) <= CAP as int,
    ensures
        closest_point_s(pos, fwd, closest_point_s(pos, fwd, center)) == closest_point_s(
            pos,
            fwd,
            center,
        ),
{
    lemma_axis_norm(fwd);
    let lhs = v3_sub_s(center, pos);
    lemma_fx_mul_unit(lhs.x as int);
    lemma_fx_mul_unit(lhs.y as int);
    lemma_fx_mul_unit(lhs.z as int);
    lemma_fx_mul_unit(0);
    let t = v3_dot_s(lhs, fwd);
    lemma_fx_mul_unit(t);
    let r1 = closest_point_s(pos, fwd, center);
    let lhs2 = v3_sub_s(r1, pos);
    lemma_fx_mul_unit(lhs2.x as int);
    lemma_fx_mul_unit(lhs2.y as int);
    lemma_fx_mul_unit(lhs2.z as int);
    let t2 = v3_dot_s(lhs2, fwd);
    lemma_fx_mul_unit(t2);
    if fwd.x != 0 {
        assert(t == fx_mul_s(lhs.x as int, fwd.x as int));
        assert(closest_point_s(pos, fwd, r1) == r1);
    } else if fwd.y != 0 {
        assert(t == fx_mul_s(lhs.y as int, fwd.y as int));
        assert(closest_point_s(pos, fwd, r1) == r1);
    } else {
        assert(t == fx_mul_s(lhs.z as int, fwd.z as int));
        assert(closest_point_s(pos, fwd, r1) == r1);
    }
}

} // verus!
