//! Window resizing: clamp the new size to at least one pixel each way,
//! remember it, and refresh the camera's aspect ratio (the application
//! recreates the swap chain and depth target from the stored size).

use crate::camera::Camera;
use crate::WgpuRenderer;
use vstd::prelude::*;

verus! {

/// Fixed-point unit of the stored aspect ratio: the ratio is kept as
/// `width * ASPECT_ONE / height`, rounded toward zero.
pub const ASPECT_ONE: i64 = 65536;

/// The aspect ratio of a `w` x `h` surface in `ASPECT_ONE` fixed point.
pub open spec fn fixed_aspect(w: int, h: int) -> int {
    (w * ASPECT_ONE as int) / h
}

impl WgpuRenderer {
    /// The aspect ratio of the current surface, in `ASPECT_ONE` fixed point.
    pub fn aspect(&self) -> (r: i64)
        requires
            self.height >= 1,
        ensures
            r == fixed_aspect(self.width as int, self.height as int),
    {
        (self.width as i64 * ASPECT_ONE) / (self.height as i64)
    }

    /// Adopts a new surface size (at least 1 x 1) and updates the camera's
    /// aspect ratio to match.
    pub fn resize(&mut self, size: (i32, i32))
        ensures
            final(self).width == if size.0 < 1 {
                1int
            } else {
                size.0 as int
            },
            final(self).height == if size.1 < 1 {
                1int
            } else {
                size.1 as int
            },
            final(self).camera == (Camera {
                aspect: final(self).camera.aspect,
                ..old(self).camera
            }),
            final(self).camera.aspect == fixed_aspect(
                final(self).width as int,
                final(self).height as int,
            ),
            *final(self) == (WgpuRenderer {
                width: final(self).width,
                height: final(self).height,
                camera: final(self).camera,
                ..*old(self)
            }),
    {
        let w: u32 = if size.0 < 1 {
            1
        } else {
            size.0 as u32
        };
        let h: u32 = if size.1 < 1 {
            1
        } else {
            size.1 as u32
        };
        self.width = w;
        self.height = h;
        let aspect = (w as i64 * ASPECT_ONE) / (h as i64);
        self.camera.set_aspect_ratio(aspect);
    }
}

} // verus!
