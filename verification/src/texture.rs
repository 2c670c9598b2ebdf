//! Texture data as the library sees it: the allocated dimensions and the
//! bytes last written. Decoding image files and talking to the GPU happen in
//! the embedding application; the library keeps the reallocation rule.

use crate::meshes::slice_to_vec_copy;
use vstd::prelude::*;

verus! {

/// An RGBA texture: allocated width and height, and the bytes last written
/// into it (4 bytes per pixel).
#[derive(Clone, Debug)]
pub struct Texture {
    pub width: u32,
    pub height: u32,
    pub data: Vec<u8>,
}

impl Texture {
    /// Builds a texture of the given dimensions around already-decoded pixel
    /// bytes.
    pub fn new(width: u32, height: u32, data: Vec<u8>) -> (r: Texture)
        requires
            width * height * 4 <= u32::MAX,
            data@.len() == width * height * 4,
        ensures
            r.width == width,
            r.height == height,
            r.data == data,
    {
        Texture { width, height, data }
    }

    /// Writes raw pixel bytes. When the new data is larger than the allocated
    /// texture, the texture is reallocated at the new size and the call
    /// returns true (the caller must then rebind the texture); otherwise the
    /// bytes are written in place and the allocated size stays.
    pub fn write_raw(&mut self, size: (u32, u32), data: &[u8]) -> (grew: bool)
        requires
            size.0 * size.1 * 4 <= u32::MAX,
            old(self).width * old(self).height * 4 <= u32::MAX,
            data@.len() == size.0 * size.1 * 4,
        ensures
            grew == (data@.len() > old(self).width * old(self).height * 4),
            final(self).data@ == data@,
            grew ==> final(self).width == size.0 && final(self).height == size.1,
            !grew ==> final(self).width == old(self).width && final(self).height == old(self).height,
    {
        let w = self.width;
        let h = self.height;
        proof {
            assert(w as int * h as int >= 0) by (nonlinear_arith);
        }
        let old_bytes = w * h * 4;
        let grew = data.len() > old_bytes as usize;
        if grew {
            self.width = size.0;
            self.height = size.1;
        }
        self.data = slice_to_vec_copy(data);
        grew
    }
}

} // verus!
