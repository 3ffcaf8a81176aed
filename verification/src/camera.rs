//! First-person camera model and the controller that integrates input.
//!
//! Angles are micro-radians, positions micro-units, durations
//! micro-seconds.  The controller accumulates discrete key state
//! (level-triggered) and continuous mouse/scroll deltas (edge-triggered,
//! zeroed after each tick).  The trigonometric values of the current yaw
//! and pitch are supplied by the caller, since evaluating them is
//! floating-point work; everything the controller decides from them is
//! exact and proved here.

use vstd::prelude::*;
use crate::fixed::{fx_mul, fx_mul_s, lemma_fx_mul_bound, lemma_mul_magnitude};

verus! {

/// The pitch bound just inside ±π/2 (in micro-radians) that prevents a
/// gimbal flip.
pub const SAFE_FRAC_PI_2: i64 = 1_570_696;

/// A first-person camera: position plus yaw and pitch.
#[derive(Copy, Clone, PartialEq)]
pub struct Camera {
    pub position: (i64, i64, i64),
    pub yaw: i64,
    pub pitch: i64,
}

impl Camera {
    pub fn new(position: (i64, i64, i64), yaw: i64, pitch: i64) -> (c: Camera)
        ensures
            c == (Camera { position, yaw, pitch }),
    {
        Camera { position, yaw, pitch }
    }

    /// Bounds under which one controller tick cannot overflow.
    pub open spec fn wf(&self) -> bool {
        &&& -1_000_000_000_000 <= self.position.0 <= 1_000_000_000_000
        &&& -1_000_000_000_000 <= self.position.1 <= 1_000_000_000_000
        &&& -1_000_000_000_000 <= self.position.2 <= 1_000_000_000_000
        &&& -1_000_000_000_000 <= self.yaw <= 1_000_000_000_000
        &&& -1_000_000_000_000 <= self.pitch <= 1_000_000_000_000
    }
}

/// Perspective parameters in fixed point; the projection matrix itself is
/// floating-point work left to the shell.
#[derive(Copy, Clone, PartialEq)]
pub struct Projection {
    pub aspect: i64,
    pub fovy: i64,
    pub znear: i64,
    pub zfar: i64,
}

impl Projection {
    /// The aspect ratio of a framebuffer, in fixed point, truncated.
    pub open spec fn spec_aspect(width: u32, height: u32) -> int {
        (width * 1_000_000) / (height as int)
    }

    pub fn new(width: u32, height: u32, fovy: i64, znear: i64, zfar: i64) -> (p: Projection)
        requires
            height > 0,
        ensures
            p.aspect == Self::spec_aspect(width, height),
            p.fovy == fovy,
            p.znear == znear,
            p.zfar == zfar,
    {
        let aspect = ((width as u64 * 1_000_000) / (height as u64)) as i64;
        Projection { aspect, fovy, znear, zfar }
    }

    pub fn resize(&mut self, width: u32, height: u32)
        requires
            height > 0,
        ensures
            final(self).aspect == Self::spec_aspect(width, height),
            final(self).fovy == old(self).fovy,
            final(self).znear == old(self).znear,
            final(self).zfar == old(self).zfar,
    {
        self.aspect = ((width as u64 * 1_000_000) / (height as u64)) as i64;
    }
}

/// The keys the camera controller reacts to.
#[derive(Copy, Clone, PartialEq, Eq, Structural, Debug)]
pub enum Key {
    W,
    A,
    S,
    D,
    Up,
    Down,
    Left,
    Right,
    Space,
    LShift,
    Other,
}

/// Sines and cosines of the camera's current yaw and pitch, in fixed
/// point, evaluated by the caller.
#[derive(Copy, Clone, PartialEq)]
pub struct TrigSample {
    pub sin_yaw: i64,
    pub cos_yaw: i64,
    pub sin_pitch: i64,
    pub cos_pitch: i64,
}

impl TrigSample {
    pub open spec fn wf(&self) -> bool {
        &&& -1_000_000 <= self.sin_yaw <= 1_000_000
        &&& -1_000_000 <= self.cos_yaw <= 1_000_000
        &&& -1_000_000 <= self.sin_pitch <= 1_000_000
        &&& -1_000_000 <= self.cos_pitch <= 1_000_000
    }
}

/// Accumulated input driving the camera: key state is level-triggered,
/// mouse and scroll deltas are edge-triggered per tick.
#[derive(Copy, Clone, PartialEq)]
pub struct CameraController {
    pub amount_left: i64,
    pub amount_right: i64,
    pub amount_forward: i64,
    pub amount_backward: i64,
    pub amount_up: i64,
    pub amount_down: i64,
    pub rotate_horizontal: i64,
    pub rotate_vertical: i64,
    pub scroll: i64,
    pub speed: i64,
    pub sensitivity: i64,
}

impl CameraController {
    pub fn new(speed: i64, sensitivity: i64) -> (c: CameraController)
        ensures
            c == (CameraController {
                amount_left: 0,
                amount_right: 0,
                amount_forward: 0,
                amount_backward: 0,
                amount_up: 0,
                amount_down: 0,
                rotate_horizontal: 0,
                rotate_vertical: 0,
                scroll: 0,
                speed,
                sensitivity,
            }),
    {
        CameraController {
            amount_left: 0,
            amount_right: 0,
            amount_forward: 0,
            amount_backward: 0,
            amount_up: 0,
            amount_down: 0,
            rotate_horizontal: 0,
            rotate_vertical: 0,
            scroll: 0,
            speed,
            sensitivity,
        }
    }

    /// Bounds under which one tick of integration cannot overflow.
    pub open spec fn wf(&self) -> bool {
        &&& 0 <= self.amount_left <= 1_000_000
        &&& 0 <= self.amount_right <= 1_000_000
        &&& 0 <= self.amount_forward <= 1_000_000
        &&& 0 <= self.amount_backward <= 1_000_000
        &&& 0 <= self.amount_up <= 1_000_000
        &&& 0 <= self.amount_down <= 1_000_000
        &&& -1_000_000_000 <= self.rotate_horizontal <= 1_000_000_000
        &&& -1_000_000_000 <= self.rotate_vertical <= 1_000_000_000
        &&& -1_000_000_000 <= self.scroll <= 1_000_000_000
        &&& 0 <= self.speed <= 10_000_000
        &&& 0 <= self.sensitivity <= 10_000_000
    }

    /// The controller after a key press or release: pressed keys drive
    /// their direction at full amount, released keys stop it.
    pub open spec fn spec_process_keyboard(self, key: Key, pressed: bool) -> (CameraController, bool) {
        let amount: i64 = if pressed {
            1_000_000
        } else {
            0
        };
        match key {
            Key::W | Key::Up => (CameraController { amount_forward: amount, ..self }, true),
            Key::S | Key::Down => (CameraController { amount_backward: amount, ..self }, true),
            Key::A | Key::Left => (CameraController { amount_left: amount, ..self }, true),
            Key::D | Key::Right => (CameraController { amount_right: amount, ..self }, true),
            Key::Space => (CameraController { amount_up: amount, ..self }, true),
            Key::LShift => (CameraController { amount_down: amount, ..self }, true),
            Key::Other => (self, false),
        }
    }

    /// Handles a key press/release; returns whether the key was consumed.
    pub fn process_keyboard(&mut self, key: Key, pressed: bool) -> (consumed: bool)
        ensures
            *final(self) == old(self).spec_process_keyboard(key, pressed).0,
            consumed == old(self).spec_process_keyboard(key, pressed).1,
    {
        let amount: i64 = if pressed {
            1_000_000
        } else {
            0
        };
        match key {
            Key::W | Key::Up => {
                self.amount_forward = amount;
                true
            }
            Key::S | Key::Down => {
                self.amount_backward = amount;
                true
            }
            Key::A | Key::Left => {
                self.amount_left = amount;
                true
            }
            Key::D | Key::Right => {
                self.amount_right = amount;
                true
            }
            Key::Space => {
                self.amount_up = amount;
                true
            }
            Key::LShift => {
                self.amount_down = amount;
                true
            }
            Key::Other => false,
        }
    }

    /// Records the latest mouse delta; overwrites, not accumulates, as
    /// the source events arrive at most once per tick.
    pub fn process_mouse(&mut self, mouse_dx: i64, mouse_dy: i64)
        ensures
            *final(self) == (CameraController {
                rotate_horizontal: mouse_dx,
                rotate_vertical: mouse_dy,
                ..*old(self)
            }),
    {
        self.rotate_horizontal = mouse_dx;
        self.rotate_vertical = mouse_dy;
    }

    /// Records a scroll delta (already converted to fixed-point units by
    /// the caller); scrolling toward the screen moves the camera forward.
    pub fn process_scroll(&mut self, delta: i64)
        requires
            -1_000_000_000 <= delta <= 1_000_000_000,
        ensures
            *final(self) == (CameraController { scroll: (-delta as int) as i64, ..*old(self) }),
    {
        self.scroll = -delta;
    }

    /// The walk step along one axis: the net key amount times speed times
    /// the tick duration.
    pub open spec fn spec_walk_step(self, dt: i64) -> int {
        fx_mul_s(self.amount_forward - self.amount_backward, fx_mul_s(self.speed as int, dt as int))
    }

    /// The strafe step: net left/right amount times speed times duration.
    pub open spec fn spec_strafe_step(self, dt: i64) -> int {
        fx_mul_s(self.amount_right - self.amount_left, fx_mul_s(self.speed as int, dt as int))
    }

    /// The zoom-like step driven by accumulated scroll.
    pub open spec fn spec_scroll_step(self, dt: i64) -> int {
        fx_mul_s(fx_mul_s(fx_mul_s(self.scroll as int, self.speed as int), self.sensitivity as int), dt as int)
    }

    /// The vertical step from the up/down keys.
    pub open spec fn spec_lift_step(self, dt: i64) -> int {
        fx_mul_s(self.amount_up - self.amount_down, fx_mul_s(self.speed as int, dt as int))
    }

    /// The position after one tick: forward and strafe movement in the
    /// yaw plane, a scroll move along the view direction, and a direct
    /// vertical offset.
    pub open spec fn spec_position_after(self, cam: Camera, dt: i64, trig: TrigSample) -> (int, int, int) {
        let mf = self.spec_walk_step(dt);
        let mr = self.spec_strafe_step(dt);
        let ms = self.spec_scroll_step(dt);
        let x = cam.position.0 + fx_mul_s(trig.cos_yaw as int, mf) + fx_mul_s(
            -trig.sin_yaw as int,
            mr,
        ) + fx_mul_s(fx_mul_s(trig.cos_pitch as int, trig.cos_yaw as int), ms);
        let z = cam.position.2 + fx_mul_s(trig.sin_yaw as int, mf) + fx_mul_s(
            trig.cos_yaw as int,
            mr,
        ) + fx_mul_s(fx_mul_s(trig.cos_pitch as int, trig.sin_yaw as int), ms);
        let y = cam.position.1 + fx_mul_s(trig.sin_pitch as int, ms) + self.spec_lift_step(dt);
        (x, y, z)
    }

    /// The yaw after one tick.
    pub open spec fn spec_yaw_after(self, cam: Camera, dt: i64) -> int {
        cam.yaw + fx_mul_s(fx_mul_s(self.rotate_horizontal as int, self.sensitivity as int), dt as int)
    }

    /// The pitch after one tick, before clamping.
    pub open spec fn spec_pitch_before_clamp(self, cam: Camera, dt: i64) -> int {
        cam.pitch + fx_mul_s(fx_mul_s(-self.rotate_vertical as int, self.sensitivity as int), dt as int)
    }

    /// The pitch clamp that keeps the camera off the poles.
    pub open spec fn spec_clamp_pitch(p: int) -> int {
        if p < -1_570_696 {
            -1_570_696int
        } else if p > 1_570_696 {
            1_570_696int
        } else {
            p
        }
    }

    /// Integrates one tick of accumulated input into the camera.  The
    /// edge-triggered accumulators (mouse delta, scroll) are zeroed; key
    /// state persists.  The resulting pitch is always within the safe
    /// range.
    pub fn update_camera(&mut self, camera: &mut Camera, dt: i64, trig: TrigSample)
        requires
            old(self).wf(),
            old(camera).wf(),
            trig.wf(),
            0 <= dt <= 10_000_000,
        ensures
            final(camera).position.0 == old(self).spec_position_after(*old(camera), dt, trig).0,
            final(camera).position.1 == old(self).spec_position_after(*old(camera), dt, trig).1,
            final(camera).position.2 == old(self).spec_position_after(*old(camera), dt, trig).2,
            final(camera).yaw == old(self).spec_yaw_after(*old(camera), dt),
            final(camera).pitch == CameraController::spec_clamp_pitch(
                old(self).spec_pitch_before_clamp(*old(camera), dt),
            ),
            -1_570_696 <= final(camera).pitch <= 1_570_696,
            *final(self) == (CameraController {
                rotate_horizontal: 0,
                rotate_vertical: 0,
                scroll: 0,
                ..*old(self)
            }),
            final(self).wf(),
    {
        proof {
            lemma_mul_magnitude(self.speed as int, dt as int, 10_000_000, 10_000_000);
            lemma_fx_mul_bound(self.speed as int, dt as int, 100_000_000_000_000);
        }
        let t1 = fx_mul(self.speed, dt);
        let diff_walk = self.amount_forward - self.amount_backward;
        let diff_strafe = self.amount_right - self.amount_left;
        let diff_lift = self.amount_up - self.amount_down;
        proof {
            lemma_mul_magnitude(diff_walk as int, t1 as int, 1_000_000, 100_000_000);
            lemma_fx_mul_bound(diff_walk as int, t1 as int, 100_000_000_000_000);
            lemma_mul_magnitude(diff_strafe as int, t1 as int, 1_000_000, 100_000_000);
            lemma_fx_mul_bound(diff_strafe as int, t1 as int, 100_000_000_000_000);
            lemma_mul_magnitude(diff_lift as int, t1 as int, 1_000_000, 100_000_000);
            lemma_fx_mul_bound(diff_lift as int, t1 as int, 100_000_000_000_000);
        }
        let mf = fx_mul(diff_walk, t1);
        let mr = fx_mul(diff_strafe, t1);
        let ml = fx_mul(diff_lift, t1);
        proof {
            lemma_mul_magnitude(self.scroll as int, self.speed as int, 1_000_000_000, 10_000_000);
            lemma_fx_mul_bound(self.scroll as int, self.speed as int, 10_000_000_000_000_000);
        }
        let s1 = fx_mul(self.scroll, self.speed);
        proof {
            lemma_mul_magnitude(s1 as int, self.sensitivity as int, 10_000_000_000, 10_000_000);
            lemma_fx_mul_bound(s1 as int, self.sensitivity as int, 100_000_000_000_000_000);
        }
        let s2 = fx_mul(s1, self.sensitivity);
        proof {
            lemma_mul_magnitude(s2 as int, dt as int, 100_000_000_000, 10_000_000);
            lemma_fx_mul_bound(s2 as int, dt as int, 1_000_000_000_000_000_000);
        }
        let ms = fx_mul(s2, dt);
        proof {
            lemma_mul_magnitude(trig.cos_yaw as int, mf as int, 1_000_000, 100_000_000);
            lemma_fx_mul_bound(trig.cos_yaw as int, mf as int, 100_000_000_000_000);
            lemma_mul_magnitude(-trig.sin_yaw as int, mr as int, 1_000_000, 100_000_000);
            lemma_fx_mul_bound(-trig.sin_yaw as int, mr as int, 100_000_000_000_000);
            lemma_mul_magnitude(trig.sin_yaw as int, mf as int, 1_000_000, 100_000_000);
            lemma_fx_mul_bound(trig.sin_yaw as int, mf as int, 100_000_000_000_000);
            lemma_mul_magnitude(trig.cos_yaw as int, mr as int, 1_000_000, 100_000_000);
            lemma_fx_mul_bound(trig.cos_yaw as int, mr as int, 100_000_000_000_000);
            lemma_mul_magnitude(trig.cos_pitch as int, trig.cos_yaw as int, 1_000_000, 1_000_000);
            lemma_fx_mul_bound(trig.cos_pitch as int, trig.cos_yaw as int, 1_000_000_000_000);
            lemma_mul_magnitude(trig.cos_pitch as int, trig.sin_yaw as int, 1_000_000, 1_000_000);
            lemma_fx_mul_bound(trig.cos_pitch as int, trig.sin_yaw as int, 1_000_000_000_000);
        }
        let fwd_x = fx_mul(trig.cos_yaw, mf);
        let fwd_z = fx_mul(trig.sin_yaw, mf);
        let right_x = fx_mul(-trig.sin_yaw, mr);
        let right_z = fx_mul(trig.cos_yaw, mr);
        let sw_xc = fx_mul(trig.cos_pitch, trig.cos_yaw);
        let sw_zc = fx_mul(trig.cos_pitch, trig.sin_yaw);
        proof {
            lemma_mul_magnitude(sw_xc as int, ms as int, 1_000_000, 1_000_000_000_000);
            lemma_fx_mul_bound(sw_xc as int, ms as int, 1_000_000_000_000_000_000);
            lemma_mul_magnitude(sw_zc as int, ms as int, 1_000_000, 1_000_000_000_000);
            lemma_fx_mul_bound(sw_zc as int, ms as int, 1_000_000_000_000_000_000);
            lemma_mul_magnitude(trig.sin_pitch as int, ms as int, 1_000_000, 1_000_000_000_000);
            lemma_fx_mul_bound(trig.sin_pitch as int, ms as int, 1_000_000_000_000_000_000);
        }
        let scroll_x = fx_mul(sw_xc, ms);
        let scroll_z = fx_mul(sw_zc, ms);
        let scroll_y = fx_mul(trig.sin_pitch, ms);
        camera.position.0 = camera.position.0 + fwd_x + right_x + scroll_x;
        camera.position.2 = camera.position.2 + fwd_z + right_z + scroll_z;
        camera.position.1 = camera.position.1 + scroll_y + ml;
        self.scroll = 0;
        proof {
            lemma_mul_magnitude(
                self.rotate_horizontal as int,
                self.sensitivity as int,
                1_000_000_000,
                10_000_000,
            );
            lemma_fx_mul_bound(
                self.rotate_horizontal as int,
                self.sensitivity as int,
                10_000_000_000_000_000,
            );
            lemma_mul_magnitude(
                -self.rotate_vertical as int,
                self.sensitivity as int,
                1_000_000_000,
                10_000_000,
            );
            lemma_fx_mul_bound(
                -self.rotate_vertical as int,
                self.sensitivity as int,
                10_000_000_000_000_000,
            );
        }
        let g1 = fx_mul(self.rotate_horizontal, self.sensitivity);
        let h1 = fx_mul(-self.rotate_vertical, self.sensitivity);
        proof {
            lemma_mul_magnitude(g1 as int, dt as int, 10_000_000_000, 10_000_000);
            lemma_fx_mul_bound(g1 as int, dt as int, 100_000_000_000_000_000);
            lemma_mul_magnitude(h1 as int, dt as int, 10_000_000_000, 10_000_000);
            lemma_fx_mul_bound(h1 as int, dt as int, 100_000_000_000_000_000);
        }
        let g2 = fx_mul(g1, dt);
        let h2 = fx_mul(h1, dt);
        camera.yaw = camera.yaw + g2;
        camera.pitch = camera.pitch + h2;
        self.rotate_horizontal = 0;
        self.rotate_vertical = 0;
        if camera.pitch < -SAFE_FRAC_PI_2 {
            camera.pitch = -SAFE_FRAC_PI_2;
        } else if camera.pitch > SAFE_FRAC_PI_2 {
            camera.pitch = SAFE_FRAC_PI_2;
        }
    }
}

} // verus!
