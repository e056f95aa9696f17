//! The orbit camera controller: input accumulation and per-frame update.

use vstd::prelude::*;
use crate::fx::{
    clip, exp_s, fx_add, fx_divi, fx_exp, fx_mul, fx_mul_s, fx_ok, fx_sub, iabs, one, tdiv, EPS,
    LN_POINT8, SCALE, SIXTY, TEN, TENTH,
};
use crate::vec::{
    v2_len, v2_len_s, v2_ok, v2_zero, v2_zero_s, v3_add, v3_add_s, v3_cross, v3_cross_s, v3_dot,
    v3_dot_s, v3_len, v3_len_s, v3_neg, v3_neg_s, v3_norm, v3_norm_s, v3_ok, v3_project,
    v3_project_s, v3_scale, v3_scale_s, v3_sub, v3_sub_s, v3_zero, v3_zero_s, Vec2, Vec3,
};

verus! {

/// A discrete key identity, as the controller understands it.
/// `KeyQ` and `KeyE` are reserved (formerly roll) and deliberately inert;
/// `Other` stands for every key the controller does not recognize.
#[derive(Clone, Copy, Debug, PartialEq, Eq, Structural)]
pub enum Key {
    KeyW,
    KeyS,
    KeyA,
    KeyD,
    KeyQ,
    KeyE,
    ArrowUp,
    ArrowDown,
    ArrowLeft,
    ArrowRight,
    Space,
    ShiftLeft,
    Other,
}

/// A camera orientation as an orthonormal frame: the world-space images
/// of the camera's right, up and viewing (forward) axes.
#[derive(Clone, Copy, Debug, PartialEq, Eq, Structural)]
pub struct Frame {
    pub right: Vec3,
    pub up: Vec3,
    pub forward: Vec3,
}

/// The externally owned camera the controller drives: a position and an
/// orientation frame.
#[derive(Clone, Copy, Debug, PartialEq, Eq, Structural)]
pub struct Camera {
    pub position: Vec3,
    pub rotation: Frame,
}

/// All of a frame's components are representable.
pub open spec fn frame_ok(f: Frame) -> bool {
    v3_ok(f.right) && v3_ok(f.up) && v3_ok(f.forward)
}

/// All of a camera's components are representable.
pub open spec fn camera_ok(c: Camera) -> bool {
    v3_ok(c.position) && frame_ok(c.rotation)
}

/// Accumulates user input and advances a camera once per frame.
#[derive(Clone, Debug)]
pub struct CameraController {
    /// The orbit pivot the camera revolves around.
    pub center: Vec3,
    /// User-chosen world-up override; when absent the camera's own up is used.
    pub up: Option<Vec3>,
    /// Per-axis translation input accumulator (x strafe, y vertical, z forward).
    pub amount: Vec3,
    /// Accumulated pan input; decays toward zero every frame.
    pub shift: Vec2,
    /// Accumulated yaw (x) and pitch (y) input; z is vestigial roll, held at zero.
    pub rotation: Vec3,
    /// Accumulated dolly input; decays toward zero every frame.
    pub scroll: i64,
    pub speed: i64,
    pub sensitivity: i64,
    pub left_mouse_pressed: bool,
    pub right_mouse_pressed: bool,
    pub alt_pressed: bool,
    pub user_inptut: bool,
}

/// Whether a key is consumed: it maps to a translation axis.
/// The reserved `KeyQ`/`KeyE` and unrecognized keys are not consumed.
pub open spec fn key_consumed(key: Key) -> bool {
    match key {
        Key::KeyW | Key::ArrowUp => true,
        Key::KeyS | Key::ArrowDown => true,
        Key::KeyA | Key::ArrowLeft => true,
        Key::KeyD | Key::ArrowRight => true,
        Key::Space | Key::ShiftLeft => true,
        _ => false,
    }
}

/// One unit added on press and removed again on release, so opposing
/// keys cancel and a release undoes its press.
pub open spec fn key_delta(pressed: bool) -> int {
    if pressed {
        SCALE as int
    } else {
        -(SCALE as int)
    }
}

/// The translation accumulator after one keyboard event.
pub open spec fn amount_after(a: Vec3, key: Key, pressed: bool) -> Vec3 {
    let d = key_delta(pressed);
    match key {
        Key::KeyW | Key::ArrowUp => Vec3 { x: a.x, y: a.y, z: clip(a.z + d) as i64 },
        Key::KeyS | Key::ArrowDown => Vec3 { x: a.x, y: a.y, z: clip(a.z - d) as i64 },
        Key::KeyA | Key::ArrowLeft => Vec3 { x: clip(a.x - d) as i64, y: a.y, z: a.z },
        Key::KeyD | Key::ArrowRight => Vec3 { x: clip(a.x + d) as i64, y: a.y, z: a.z },
        Key::Space => Vec3 { x: a.x, y: clip(a.y + d) as i64, z: a.z },
        Key::ShiftLeft => Vec3 { x: a.x, y: clip(a.y - d) as i64, z: a.z },
        _ => a,
    }
}

impl CameraController {
    /// Every stored scalar is in the representable range.
    pub open spec fn wf(self) -> bool {
        &&& v3_ok(self.center)
        &&& (match self.up {
            Some(u) => v3_ok(u),
            None => true,
        })
        &&& v3_ok(self.amount)
        &&& v2_ok(self.shift)
        &&& v3_ok(self.rotation)
        &&& fx_ok(self.scroll as int)
        &&& fx_ok(self.speed as int)
        &&& fx_ok(self.sensitivity as int)
    }

    /// A fresh controller: all accumulators zero, pivot at the origin,
    /// no up override, all flags false. Out-of-range tuning values are
    /// saturated into the representable range.
    pub fn new(speed: i64, sensitivity: i64) -> (r: CameraController)
        ensures
            r.center == v3_zero_s(),
            r.up is None,
            r.amount == v3_zero_s(),
            r.shift == v2_zero_s(),
            r.rotation == v3_zero_s(),
            r.scroll == 0,
            r.speed == clip(speed as int),
            r.sensitivity == clip(sensitivity as int),
            !r.left_mouse_pressed,
            !r.right_mouse_pressed,
            !r.alt_pressed,
            !r.user_inptut,
            r.wf(),
    {
        CameraController {
            center: v3_zero(),
            up: None,
            amount: v3_zero(),
            shift: v2_zero(),
            rotation: v3_zero(),
            scroll: 0,
            speed: crate::fx::fx_clamp(speed),
            sensitivity: crate::fx::fx_clamp(sensitivity),
            left_mouse_pressed: false,
            right_mouse_pressed: false,
            alt_pressed: false,
            user_inptut: false,
        }
    }

    /// Maps a key to a unit increment (press) or decrement (release) of
    /// the matching translation axis. Returns whether the key was
    /// consumed, and sets `user_inptut` to that same boolean.
    pub fn process_keyboard(&mut self, key: Key, pressed: bool) -> (r: bool)
        requires
            old(self).wf(),
        ensures
            final(self).amount == amount_after(old(self).amount, key, pressed),
            r == key_consumed(key),
            final(self).user_inptut == key_consumed(key),
            final(self).center == old(self).center,
            final(self).up == old(self).up,
            final(self).shift == old(self).shift,
            final(self).rotation == old(self).rotation,
            final(self).scroll == old(self).scroll,
            final(self).speed == old(self).speed,
            final(self).sensitivity == old(self).sensitivity,
            final(self).left_mouse_pressed == old(self).left_mouse_pressed,
            final(self).right_mouse_pressed == old(self).right_mouse_pressed,
            final(self).alt_pressed == old(self).alt_pressed,
            final(self).wf(),
    {
        let d: i64 = if pressed {
            SCALE
        } else {
            -SCALE
        };
        let processed: bool = match key {
            Key::KeyW | Key::ArrowUp => {
                self.amount.z = fx_add(self.amount.z, d);
                true
            },
            Key::KeyS | Key::ArrowDown => {
                self.amount.z = fx_sub(self.amount.z, d);
                true
            },
            Key::KeyA | Key::ArrowLeft => {
                self.amount.x = fx_sub(self.amount.x, d);
                true
            },
            Key::KeyD | Key::ArrowRight => {
                self.amount.x = fx_add(self.amount.x, d);
                true
            },
            Key::KeyQ | Key::KeyE => false,
            Key::Space => {
                self.amount.y = fx_add(self.amount.y, d);
                true
            },
            Key::ShiftLeft => {
                self.amount.y = fx_sub(self.amount.y, d);
                true
            },
            Key::Other => false,
        };
        self.user_inptut = processed;
        processed
    }

    /// While the left button is held, a mouse delta is yaw/pitch input;
    /// while the right button is held, it is pan input. Both branches
    /// are independent, and either sets `user_inptut`.
    pub fn process_mouse(&mut self, dx: i64, dy: i64)
        requires
            old(self).wf(),
        ensures
            final(self).rotation == (if old(self).left_mouse_pressed {
                (Vec3 {
                    x: clip(old(self).rotation.x + dx) as i64,
                    y: clip(old(self).rotation.y + dy) as i64,
                    z: old(self).rotation.z,
                })
            } else {
                old(self).rotation
            }),
            final(self).shift == (if old(self).right_mouse_pressed {
                (Vec2 {
                    x: clip(old(self).shift.x + dy) as i64,
                    y: clip(old(self).shift.y - dx) as i64,
                })
            } else {
                old(self).shift
            }),
            final(self).user_inptut == (old(self).user_inptut || old(self).left_mouse_pressed
                || old(self).right_mouse_pressed),
            final(self).center == old(self).center,
            final(self).up == old(self).up,
            final(self).amount == old(self).amount,
            final(self).scroll == old(self).scroll,
            final(self).speed == old(self).speed,
            final(self).sensitivity == old(self).sensitivity,
            final(self).left_mouse_pressed == old(self).left_mouse_pressed,
            final(self).right_mouse_pressed == old(self).right_mouse_pressed,
            final(self).alt_pressed == old(self).alt_pressed,
            final(self).wf(),
    {
        if self.left_mouse_pressed {
            self.rotation.x = fx_add(self.rotation.x, dx);
            self.rotation.y = fx_add(self.rotation.y, dy);
            self.user_inptut = true;
        }
        if self.right_mouse_pressed {
            self.shift.y = fx_sub(self.shift.y, dx);
            self.shift.x = fx_add(self.shift.x, dy);
            self.user_inptut = true;
        }
    }

    /// Accumulates scroll as dolly input (scrolling up moves inward).
    pub fn process_scroll(&mut self, dy: i64)
        requires
            old(self).wf(),
        ensures
            final(self).scroll == clip(old(self).scroll - dy),
            final(self).user_inptut,
            final(self).center == old(self).center,
            final(self).up == old(self).up,
            final(self).amount == old(self).amount,
            final(self).shift == old(self).shift,
            final(self).rotation == old(self).rotation,
            final(self).speed == old(self).speed,
            final(self).sensitivity == old(self).sensitivity,
            final(self).left_mouse_pressed == old(self).left_mouse_pressed,
            final(self).right_mouse_pressed == old(self).right_mouse_pressed,
            final(self).alt_pressed == old(self).alt_pressed,
            final(self).wf(),
    {
        self.scroll = fx_sub(self.scroll, dy);
        self.user_inptut = true;
    }
}

/// cos²(0.1 rad) in raw steps: the pole-guard threshold.
pub const COS_GUARD_SQ: i64 = 1038125;

/// Small-angle polynomial sine: `t - t³/6`.
pub open spec fn sin_s(t: int) -> int {
    clip(t - tdiv(fx_mul_s(fx_mul_s(t, t), t), 6))
}

/// Small-angle polynomial cosine: `1 - t²/2 + t⁴/24`.
pub open spec fn cos_s(t: int) -> int {
    clip(clip(one() - tdiv(fx_mul_s(t, t), 2)) + tdiv(fx_mul_s(fx_mul_s(t, t), fx_mul_s(t, t)), 24))
}

fn sin_fx(t: i64) -> (r: i64)
    requires
        fx_ok(t as int),
    ensures
        r == sin_s(t as int),
        fx_ok(r as int),
{
    let t2: i64 = fx_mul(t, t);
    let t3: i64 = fx_mul(t2, t);
    fx_sub(t, fx_divi(t3, 6))
}

fn cos_fx(t: i64) -> (r: i64)
    requires
        fx_ok(t as int),
    ensures
        r == cos_s(t as int),
        fx_ok(r as int),
{
    let t2: i64 = fx_mul(t, t);
    let t4: i64 = fx_mul(t2, t2);
    fx_add(fx_sub(SCALE, fx_divi(t2, 2)), fx_divi(t4, 24))
}

/// Rotation of `v` about the unit axis `axis` by `ang` radians
/// (Rodrigues: `v·cos + (axis×v)·sin + axis·(axis·v)(1-cos)`).
pub open spec fn rodrigues_s(v: Vec3, axis: Vec3, ang: int) -> Vec3 {
    let c = cos_s(ang);
    let s = sin_s(ang);
    v3_add_s(
        v3_add_s(v3_scale_s(v, c), v3_scale_s(v3_cross_s(axis, v), s)),
        v3_scale_s(axis, fx_mul_s(v3_dot_s(axis, v), clip(one() - c))),
    )
}

fn rotate_about(v: Vec3, axis: Vec3, ang: i64) -> (r: Vec3)
    requires
        v3_ok(v),
        v3_ok(axis),
        fx_ok(ang as int),
    ensures
        r == rodrigues_s(v, axis, ang as int),
        v3_ok(r),
{
    let c: i64 = cos_fx(ang);
    let s: i64 = sin_fx(ang);
    let radial: Vec3 = v3_scale(v, c);
    let tangent: Vec3 = v3_scale(v3_cross(axis, v), s);
    let axial: Vec3 = v3_scale(axis, fx_mul(v3_dot(axis, v), fx_sub(SCALE, c)));
    v3_add(v3_add(radial, tangent), axial)
}

/// The closest point to `point` on the ray from `orig` along `dir`.
pub open spec fn closest_point_s(orig: Vec3, dir: Vec3, point: Vec3) -> Vec3 {
    let d = v3_norm_s(dir);
    v3_add_s(orig, v3_scale_s(d, v3_dot_s(v3_sub_s(point, orig), d)))
}

fn closest_point(orig: Vec3, dir: Vec3, point: Vec3) -> (r: Vec3)
    requires
        v3_ok(orig),
        v3_ok(dir),
        v3_ok(point),
    ensures
        r == closest_point_s(orig, dir, point),
        v3_ok(r),
{
    let d: Vec3 = v3_norm(dir);
    let lhs: Vec3 = v3_sub(point, orig);
    let dot_p: i64 = v3_dot(lhs, d);
    v3_add(orig, v3_scale(d, dot_p))
}

/// Whether the acute angle between `a` and `b` is below the 0.1 rad
/// pole guard: `cos²(angle) > cos²(0.1)`, compared on squares so the
/// obtuse fold needs no arc cosine and no square root.
pub open spec fn near_pole_s(a: Vec3, b: Vec3) -> bool {
    let d = v3_dot_s(a, b);
    fx_mul_s(d, d) > fx_mul_s(COS_GUARD_SQ as int, fx_mul_s(v3_dot_s(a, a), v3_dot_s(b, b)))
}

fn near_pole(a: Vec3, b: Vec3) -> (r: bool)
    requires
        v3_ok(a),
        v3_ok(b),
    ensures
        r == near_pole_s(a, b),
{
    let d: i64 = v3_dot(a, b);
    let lhs: i64 = fx_mul(d, d);
    let rhs: i64 = fx_mul(COS_GUARD_SQ, fx_mul(v3_dot(a, a), v3_dot(b, b)));
    lhs > rhs
}

/// The orientation frame that looks along `view` with up hint `up`:
/// forward is `view` normalized, right is orthogonal to both, and the
/// frame's own up completes it, so the horizon stays level (no roll).
pub open spec fn look_frame_s(view: Vec3, up: Vec3) -> Frame {
    let f = v3_norm_s(view);
    let r = v3_norm_s(v3_cross_s(up, f));
    let u = v3_cross_s(f, r);
    Frame { right: r, up: u, forward: f }
}

fn look_frame(view: Vec3, up: Vec3) -> (r: Frame)
    requires
        v3_ok(view),
        v3_ok(up),
    ensures
        r == look_frame_s(view, up),
        frame_ok(r),
{
    let f: Vec3 = v3_norm(view);
    let right: Vec3 = v3_norm(v3_cross(up, f));
    let u: Vec3 = v3_cross(f, right);
    Frame { right, up: u, forward: f }
}

/// The up override after a resync: re-orthogonalized against the
/// camera's right axis, then renormalized.
pub open spec fn up_after_reset_s(u: Vec3, right: Vec3) -> Vec3 {
    v3_norm_s(v3_sub_s(u, v3_project_s(u, right)))
}

impl CameraController {
    /// Re-anchors the pivot after an external camera jump: `center`
    /// moves to the closest point on the camera's viewing ray, and an
    /// up override is re-orthogonalized against the camera's right axis.
    pub fn reset_to_camera(&mut self, camera: Camera)
        requires
            old(self).wf(),
            camera_ok(camera),
        ensures
            final(self).center == closest_point_s(
                camera.position,
                camera.rotation.forward,
                old(self).center,
            ),
            final(self).up == (match old(self).up {
                Some(u) => Some(up_after_reset_s(u, camera.rotation.right)),
                None => None::<Vec3>,
            }),
            final(self).amount == old(self).amount,
            final(self).shift == old(self).shift,
            final(self).rotation == old(self).rotation,
            final(self).scroll == old(self).scroll,
            final(self).speed == old(self).speed,
            final(self).sensitivity == old(self).sensitivity,
            final(self).left_mouse_pressed == old(self).left_mouse_pressed,
            final(self).right_mouse_pressed == old(self).right_mouse_pressed,
            final(self).alt_pressed == old(self).alt_pressed,
            final(self).user_inptut == old(self).user_inptut,
            final(self).wf(),
    {
        let forward: Vec3 = camera.rotation.forward;
        let right: Vec3 = camera.rotation.right;
        self.center = closest_point(camera.position, forward, self.center);
        let up_now: Option<Vec3> = self.up;
        match up_now {
            Some(u) => {
                let p: Vec3 = v3_project(u, right);
                self.up = Some(v3_norm(v3_sub(u, p)));
            },
            None => {},
        }
    }
}

/// The camera-to-pivot vector before the frame's update.
pub open spec fn dir_before_s(c: CameraController, cam: Camera) -> Vec3 {
    v3_sub_s(cam.position, c.center)
}

/// The dolly exponent for one frame: `scroll * dt * 10 * speed`.
pub open spec fn dolly_arg_s(c: CameraController, dt: int) -> int {
    fx_mul_s(fx_mul_s(fx_mul_s(c.scroll as int, dt), TEN as int), c.speed as int)
}

/// The camera-to-pivot vector after the dolly: scaling by `exp` of the
/// dolly exponent multiplies the distance by that factor, which is the
/// logarithmic mapping `exp(ln(distance) + scroll*dt*10*speed)`.
pub open spec fn dollied_dir_s(c: CameraController, cam: Camera, dt: int) -> Vec3 {
    v3_scale_s(dir_before_s(c, cam), exp_s(dolly_arg_s(c, dt)))
}

/// The up axis used by the frame's math: the override if present, else
/// the camera's own up.
pub open spec fn up_axis_s(c: CameraController, cam: Camera) -> Vec3 {
    match c.up {
        Some(u) => u,
        None => cam.rotation.up,
    }
}

/// The pan scale for one frame: `dt * speed * 0.1 * distance`, so pan
/// speed grows with the distance from the pivot.
pub open spec fn pan_factor_s(c: CameraController, cam: Camera, dt: int) -> int {
    fx_mul_s(
        fx_mul_s(fx_mul_s(dt, c.speed as int), TENTH as int),
        v3_len_s(dir_before_s(c, cam)),
    )
}

/// The world-space pan offset: screen-space `shift` mapped onto the
/// camera's right and up axes, scaled by the pan factor.
pub open spec fn pan_offset_s(c: CameraController, cam: Camera, dt: int) -> Vec3 {
    v3_scale_s(
        v3_sub_s(
            v3_scale_s(cam.rotation.right, c.shift.y as int),
            v3_scale_s(up_axis_s(c, cam), c.shift.x as int),
        ),
        pan_factor_s(c, cam, dt),
    )
}

/// The pivot after the pan.
pub open spec fn new_center_s(c: CameraController, cam: Camera, dt: int) -> Vec3 {
    v3_add_s(c.center, pan_offset_s(c, cam, dt))
}

/// This frame's yaw angle: `rotation.x * dt * sensitivity`.
pub open spec fn yaw_s(c: CameraController, dt: int) -> int {
    fx_mul_s(fx_mul_s(c.rotation.x as int, dt), c.sensitivity as int)
}

/// This frame's pitch angle: `-rotation.y * dt * sensitivity`
/// (positive mouse-down pitches down).
pub open spec fn pitch_s(c: CameraController, dt: int) -> int {
    fx_mul_s(fx_mul_s(-(c.rotation.y as int), dt), c.sensitivity as int)
}

/// The camera-to-pivot vector after orbiting: pitch about the camera's
/// right axis, then yaw about the up axis.
pub open spec fn turned_dir_s(c: CameraController, cam: Camera, dt: int) -> Vec3 {
    rodrigues_s(
        rodrigues_s(dollied_dir_s(c, cam, dt), cam.rotation.right, pitch_s(c, dt)),
        up_axis_s(c, cam),
        yaw_s(c, dt),
    )
}

/// The camera-to-pivot vector the frame ends with: the orbited vector,
/// unless it came within 0.1 rad of the up axis — then the rotation is
/// discarded and the dollied vector is kept (the pole guard).
pub open spec fn new_dir_s(c: CameraController, cam: Camera, dt: int) -> Vec3 {
    if near_pole_s(up_axis_s(c, cam), turned_dir_s(c, cam, dt)) {
        dollied_dir_s(c, cam, dt)
    } else {
        turned_dir_s(c, cam, dt)
    }
}

/// The frame's decay factor `0.8^(dt*60)`, computed as
/// `exp(dt * 60 * ln 0.8)` and clamped to zero once it underflows the
/// snap threshold.
pub open spec fn decay_s(dt: int) -> int {
    let e = exp_s(fx_mul_s(fx_mul_s(dt, SIXTY as int), LN_POINT8 as int));
    if e < EPS as int {
        0
    } else {
        e
    }
}

/// A decayed scalar accumulator snaps to exact zero below the epsilon.
pub open spec fn snap1_s(x: int) -> int {
    if iabs(x) < EPS as int {
        0
    } else {
        x
    }
}

/// One decay step of a scalar accumulator: scale by `d`, then snap.
pub open spec fn decay_scalar_s(x: int, d: int) -> int {
    snap1_s(fx_mul_s(x, d))
}

/// One decay step of a two-component accumulator: scale both components
/// by `d`, then snap the pair to zero if its length is below the epsilon.
pub open spec fn decay_pair_s(v: Vec2, d: int) -> Vec2 {
    let sx = fx_mul_s(v.x as int, d);
    let sy = fx_mul_s(v.y as int, d);
    if v2_len_s(Vec2 { x: sx as i64, y: sy as i64 }) < EPS as int {
        v2_zero_s()
    } else {
        Vec2 { x: sx as i64, y: sy as i64 }
    }
}

/// The yaw/pitch accumulator after decay and snap; roll stays zero.
pub open spec fn rot_after_s(c: CameraController, dt: int) -> Vec3 {
    let p = decay_pair_s(Vec2 { x: c.rotation.x, y: c.rotation.y }, decay_s(dt));
    Vec3 { x: p.x, y: p.y, z: 0 }
}

/// The pan accumulator after decay and snap.
pub open spec fn shift_after_s(c: CameraController, dt: int) -> Vec2 {
    decay_pair_s(c.shift, decay_s(dt))
}

/// The dolly accumulator after decay and snap.
pub open spec fn scroll_after_s(c: CameraController, dt: int) -> int {
    decay_scalar_s(c.scroll as int, decay_s(dt))
}

impl CameraController {
    /// Advances the camera by one frame of length `dt` seconds: dolly by
    /// the logarithmic law, pan pivot and camera together, orbit by the
    /// accumulated yaw/pitch with the pole guard, re-aim at the pivot
    /// with a level horizon, then decay all input accumulators.
    #[verifier::rlimit(60)]
    pub fn update_camera(&mut self, camera: &mut Camera, dt: i64)
        requires
            old(self).wf(),
            camera_ok(*old(camera)),
            0 <= dt,
            fx_ok(dt as int),
        ensures
            final(self).center == new_center_s(*old(self), *old(camera), dt as int),
            final(camera).position == v3_add_s(
                new_center_s(*old(self), *old(camera), dt as int),
                new_dir_s(*old(self), *old(camera), dt as int),
            ),
            final(camera).rotation == look_frame_s(
                v3_neg_s(new_dir_s(*old(self), *old(camera), dt as int)),
                up_axis_s(*old(self), *old(camera)),
            ),
            final(self).rotation == rot_after_s(*old(self), dt as int),
            final(self).rotation.z == 0,
            final(self).shift == shift_after_s(*old(self), dt as int),
            final(self).scroll == scroll_after_s(*old(self), dt as int),
            !final(self).user_inptut,
            final(self).amount == old(self).amount,
            final(self).up == old(self).up,
            final(self).speed == old(self).speed,
            final(self).sensitivity == old(self).sensitivity,
            final(self).left_mouse_pressed == old(self).left_mouse_pressed,
            final(self).right_mouse_pressed == old(self).right_mouse_pressed,
            final(self).alt_pressed == old(self).alt_pressed,
            final(self).wf(),
            camera_ok(*final(camera)),
    {
        // Dolly: scale the pivot-to-camera vector by exp(scroll*dt*10*speed).
        let dir0: Vec3 = v3_sub(camera.position, self.center);
        let distance: i64 = v3_len(dir0);
        let karg: i64 = fx_mul(fx_mul(fx_mul(self.scroll, dt), TEN), self.speed);
        let dir1: Vec3 = v3_scale(dir0, fx_exp(karg));

        // Camera local axes in world space.
        let x_axis: Vec3 = camera.rotation.right;
        let y_axis: Vec3 = match self.up {
            Some(u) => u,
            None => camera.rotation.up,
        };

        // Pan: pivot and camera translate together.
        let pf: i64 = fx_mul(fx_mul(fx_mul(dt, self.speed), TENTH), distance);
        let pan: Vec3 = v3_scale(
            v3_sub(v3_scale(x_axis, self.shift.y), v3_scale(y_axis, self.shift.x)),
            pf,
        );
        self.center = v3_add(self.center, pan);

        // Orbit: pitch about the right axis, then yaw about the up axis.
        let theta: i64 = fx_mul(fx_mul(self.rotation.x, dt), self.sensitivity);
        let phi: i64 = fx_mul(fx_mul(-self.rotation.y, dt), self.sensitivity);
        let turned: Vec3 = rotate_about(rotate_about(dir1, x_axis, phi), y_axis, theta);

        // Pole guard: keep the old direction rather than flip over a pole.
        let new_dir: Vec3 = if near_pole(y_axis, turned) {
            dir1
        } else {
            turned
        };

        camera.position = v3_add(self.center, new_dir);
        camera.rotation = look_frame(v3_neg(new_dir), y_axis);

        // Frame-rate-independent decay of all input accumulators.
        let mut decay: i64 = fx_exp(fx_mul(fx_mul(dt, SIXTY), LN_POINT8));
        if decay < EPS {
            decay = 0;
        }

        let rx: i64 = fx_mul(self.rotation.x, decay);
        let ry: i64 = fx_mul(self.rotation.y, decay);
        if v2_len(Vec2 { x: rx, y: ry }) < EPS {
            self.rotation = v3_zero();
        } else {
            self.rotation = Vec3 { x: rx, y: ry, z: 0 };
        }

        let sx: i64 = fx_mul(self.shift.x, decay);
        let sy: i64 = fx_mul(self.shift.y, decay);
        if v2_len(Vec2 { x: sx, y: sy }) < EPS {
            self.shift = v2_zero();
        } else {
            self.shift = Vec2 { x: sx, y: sy };
        }

        let sc: i64 = fx_mul(self.scroll, decay);
        let sc_abs: i64 = if sc >= 0 {
            sc
        } else {
            -sc
        };
        self.scroll = if sc_abs < EPS {
            0
        } else {
            sc
        };

        self.user_inptut = false;
    }
}

} // verus!
