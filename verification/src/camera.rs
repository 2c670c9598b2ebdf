//! View and projection descriptor. The camera is pure data: the library
//! stores eye, target, up, aspect ratio and the projection mode, and keeps
//! their simple algebraic relations (direction, repositioning). Building the
//! actual floating-point view-projection matrix out of this descriptor is the
//! embedding application's work.

use crate::math::{in_coord_range, Vec3};
use vstd::prelude::*;

verus! {

/// Projection mode of a camera: a perspective frustum or an orthographic box.
#[derive(Clone, Copy, Debug, PartialEq, Eq, Structural)]
pub enum ViewMatrixMode {
    Perspective { near: i64, far: i64, fov: i64 },
    Orthographic { left: i64, right: i64, bottom: i64, top: i64, near: i64, far: i64 },
}

/// Eye position, look-at target, up direction, aspect ratio and projection
/// mode.
#[derive(Clone, Copy, Debug, PartialEq, Eq, Structural)]
pub struct Camera {
    pub eye: Vec3,
    pub target: Vec3,
    pub up: Vec3,
    pub aspect: i64,
    pub mode: ViewMatrixMode,
}

impl Camera {
    /// Eye and target are small enough that their difference (the view
    /// direction) can be formed exactly.
    pub open spec fn wf(self) -> bool {
        self.eye.wf() && self.target.wf()
    }

    pub fn new(eye: Vec3, target: Vec3, up: Vec3, aspect: i64, mode: ViewMatrixMode) -> (r: Camera)
        requires
            eye.wf(),
            target.wf(),
        ensures
            r == (Camera { eye, target, up, aspect, mode }),
            r.wf(),
    {
        Camera { eye, target, up, aspect, mode }
    }

    /// Replaces the far plane; in either projection mode.
    pub fn set_far(&mut self, f: i64)
        ensures
            final(self).mode == match old(self).mode {
                ViewMatrixMode::Perspective { near, fov, .. } => ViewMatrixMode::Perspective {
                    near,
                    far: f,
                    fov,
                },
                ViewMatrixMode::Orthographic { left, right, bottom, top, near, .. } =>
                    ViewMatrixMode::Orthographic { left, right, bottom, top, near, far: f },
            },
            final(self).eye == old(self).eye,
            final(self).target == old(self).target,
            final(self).up == old(self).up,
            final(self).aspect == old(self).aspect,
    {
        match &mut self.mode {
            ViewMatrixMode::Perspective { far, .. } => *far = f,
            ViewMatrixMode::Orthographic { far, .. } => *far = f,
        }
    }

    /// Replaces the near plane; in either projection mode.
    pub fn set_near(&mut self, n: i64)
        ensures
            final(self).mode == match old(self).mode {
                ViewMatrixMode::Perspective { far, fov, .. } => ViewMatrixMode::Perspective {
                    near: n,
                    far,
                    fov,
                },
                ViewMatrixMode::Orthographic { left, right, bottom, top, far, .. } =>
                    ViewMatrixMode::Orthographic { left, right, bottom, top, near: n, far },
            },
            final(self).eye == old(self).eye,
            final(self).target == old(self).target,
            final(self).up == old(self).up,
            final(self).aspect == old(self).aspect,
    {
        match &mut self.mode {
            ViewMatrixMode::Perspective { near, .. } => *near = n,
            ViewMatrixMode::Orthographic { near, .. } => *near = n,
        }
    }

    /// Replaces the field of view; a no-op in orthographic mode.
    pub fn set_fov(&mut self, f: i64)
        ensures
            final(self).mode == match old(self).mode {
                ViewMatrixMode::Perspective { near, far, .. } => ViewMatrixMode::Perspective {
                    near,
                    far,
                    fov: f,
                },
                m => m,
            },
            final(self).eye == old(self).eye,
            final(self).target == old(self).target,
            final(self).up == old(self).up,
            final(self).aspect == old(self).aspect,
    {
        if let ViewMatrixMode::Perspective { fov, .. } = &mut self.mode {
            *fov = f;
        }
    }

    /// The view direction: target minus eye, componentwise.
    pub fn get_direction(&self) -> (r: Vec3)
        requires
            self.wf(),
        ensures
            r.x == self.target.x - self.eye.x,
            r.y == self.target.y - self.eye.y,
            r.z == self.target.z - self.eye.z,
    {
        Vec3 {
            x: self.target.x - self.eye.x,
            y: self.target.y - self.eye.y,
            z: self.target.z - self.eye.z,
        }
    }

    /// Re-aims the camera: the target becomes eye plus the given direction.
    pub fn set_direction(&mut self, direction: Vec3)
        requires
            old(self).wf(),
            in_coord_range(old(self).eye.x + direction.x),
            in_coord_range(old(self).eye.y + direction.y),
            in_coord_range(old(self).eye.z + direction.z),
        ensures
            final(self).target.x == old(self).eye.x + direction.x,
            final(self).target.y == old(self).eye.y + direction.y,
            final(self).target.z == old(self).eye.z + direction.z,
            final(self).eye == old(self).eye,
            final(self).up == old(self).up,
            final(self).aspect == old(self).aspect,
            final(self).mode == old(self).mode,
            final(self).wf(),
    {
        self.target = Vec3 {
            x: self.eye.x + direction.x,
            y: self.eye.y + direction.y,
            z: self.eye.z + direction.z,
        };
    }

    pub fn set_aspect_ratio(&mut self, aspect: i64)
        ensures
            *final(self) == (Camera { aspect, ..*old(self) }),
    {
        self.aspect = aspect;
    }

    pub fn set_up(&mut self, up: Vec3)
        ensures
            *final(self) == (Camera { up, ..*old(self) }),
    {
        self.up = up;
    }

    pub fn set_matrix_mode(&mut self, mode: ViewMatrixMode)
        ensures
            *final(self) == (Camera { mode, ..*old(self) }),
    {
        self.mode = mode;
    }

    pub fn get_position(&self) -> (r: Vec3)
        ensures
            r == self.eye,
    {
        self.eye
    }

    /// Moves the eye to `position`, carrying the target along so that the
    /// view direction is unchanged.
    pub fn set_position(&mut self, position: Vec3)
        requires
            old(self).wf(),
            position.wf(),
            in_coord_range(position.x + (old(self).target.x - old(self).eye.x)),
            in_coord_range(position.y + (old(self).target.y - old(self).eye.y)),
            in_coord_range(position.z + (old(self).target.z - old(self).eye.z)),
        ensures
            final(self).eye == position,
            final(self).target.x == position.x + (old(self).target.x - old(self).eye.x),
            final(self).target.y == position.y + (old(self).target.y - old(self).eye.y),
            final(self).target.z == position.z + (old(self).target.z - old(self).eye.z),
            final(self).up == old(self).up,
            final(self).aspect == old(self).aspect,
            final(self).mode == old(self).mode,
            final(self).wf(),
    {
        let dx = self.target.x - self.eye.x;
        let dy = self.target.y - self.eye.y;
        let dz = self.target.z - self.eye.z;
        self.eye = position;
        self.target = Vec3 { x: position.x + dx, y: position.y + dy, z: position.z + dz };
    }

    pub fn get_mode(&self) -> (r: &ViewMatrixMode)
        ensures
            *r == self.mode,
    {
        &self.mode
    }

    pub fn get_up(&self) -> (r: Vec3)
        ensures
            r == self.up,
    {
        self.up
    }
}

} // verus!
