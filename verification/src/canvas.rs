//! A CPU-side RGBA pixel canvas, 4 bytes per pixel in row-major order, as
//! drawn into by the embedding application and then written into a textured
//! mesh's texture.

use vstd::prelude::*;

verus! {

/// A width x height RGBA image held as plain bytes.
#[derive(Clone, Debug)]
pub struct Canvas {
    pub width: u32,
    pub height: u32,
    pub data: Vec<u8>,
}

/// Byte index of pixel `(x, y)` in a canvas of width `w`.
pub open spec fn pixel_index(x: int, y: int, w: int) -> int {
    (y * w + x) * 4
}

/// A pixel inside the canvas starts its 4 bytes inside the data array.
proof fn lemma_pixel_index_bound(x: int, y: int, w: int, h: int)
    by (nonlinear_arith)
    requires
        0 <= x < w,
        0 <= y < h,
    ensures
        0 <= y * w + x,
        y * w + x < w * h,
{
}

/// Builds a vector of `n` copies of `b`.
fn filled_bytes(n: usize, b: u8) -> (r: Vec<u8>)
    ensures
        r@.len() == n,
        forall|i: int| 0 <= i < n ==> r@[i] == b,
{
    let mut r: Vec<u8> = Vec::new();
    let mut i: usize = 0;
    while i < n
        invariant
            i <= n,
            r@.len() == i,
            forall|j: int| 0 <= j < i ==> r@[j] == b,
        decreases n - i,
    {
        r.push(b);
        i += 1;
    }
    r
}

impl Canvas {
    /// The data array holds exactly 4 bytes per pixel.
    pub open spec fn wf(self) -> bool {
        self.data@.len() == self.width * self.height * 4
    }

    /// A black, fully transparent canvas of the given size.
    pub fn new(width: u32, height: u32) -> (r: Canvas)
        requires
            width * height * 4 <= u32::MAX,
        ensures
            r.width == width,
            r.height == height,
            r.wf(),
            forall|i: int| 0 <= i < r.data@.len() ==> r.data@[i] == 0,
    {
        proof {
            assert(width as int * height as int >= 0) by (nonlinear_arith);
        }
        let n = width * height * 4;
        Canvas { width, height, data: filled_bytes(n as usize, 0) }
    }

    /// Resizes the canvas, keeping the byte prefix that still fits and
    /// filling any new bytes with zero.
    pub fn resize(&mut self, width: u32, height: u32)
        requires
            width * height * 4 <= u32::MAX,
        ensures
            final(self).width == width,
            final(self).height == height,
            final(self).wf(),
            forall|i: int|
                0 <= i < final(self).data@.len() ==> final(self).data@[i] == if i < old(self).data@.len() {
                    old(self).data@[i]
                } else {
                    0
                },
    {
        proof {
            assert(width as int * height as int >= 0) by (nonlinear_arith);
        }
        self.width = width;
        self.height = height;
        let n = (width * height * 4) as usize;
        if n <= self.data.len() {
            self.data.truncate(n);
        } else {
            while self.data.len() < n
                invariant
                    self.width == width,
                    self.height == height,
                    old(self).data@.len() <= self.data@.len() <= n,
                    forall|i: int|
                        0 <= i < self.data@.len() ==> self.data@[i] == if i < old(self).data@.len() {
                            old(self).data@[i]
                        } else {
                            0u8
                        },
                decreases n - self.data@.len(),
            {
                self.data.push(0);
            }
        }
    }

    /// Writes one pixel. The pixel must lie inside the canvas (writing
    /// outside it is a programming error).
    pub fn write_pixel(&mut self, x: u32, y: u32, c: [u8; 4])
        requires
            old(self).wf(),
            old(self).width * old(self).height * 4 <= u32::MAX,
            x < old(self).width,
            y < old(self).height,
        ensures
            final(self).width == old(self).width,
            final(self).height == old(self).height,
            final(self).wf(),
            final(self).data@ == old(self).data@.update(
                pixel_index(x as int, y as int, old(self).width as int),
                c@[0],
            ).update(
                pixel_index(x as int, y as int, old(self).width as int) + 1,
                c@[1],
            ).update(
                pixel_index(x as int, y as int, old(self).width as int) + 2,
                c@[2],
            ).update(pixel_index(x as int, y as int, old(self).width as int) + 3, c@[3]),
    {
        proof {
            lemma_pixel_index_bound(
                x as int,
                y as int,
                self.width as int,
                self.height as int,
            );
        }
        let i = ((y * self.width + x) * 4) as usize;
        self.data[i] = c[0];
        self.data[i + 1] = c[1];
        self.data[i + 2] = c[2];
        self.data[i + 3] = c[3];
    }

    pub fn size(&self) -> (r: (u32, u32))
        ensures
            r.0 == self.width,
            r.1 == self.height,
    {
        (self.width, self.height)
    }

    /// The raw bytes, 4 per pixel, row-major.
    pub fn raw_data(&self) -> (r: &[u8])
        ensures
            r@ == self.data@,
    {
        self.data.as_slice()
    }

    /// Sets every pixel of the canvas to the given color.
    pub fn clear(&mut self, c: [u8; 4])
        requires
            old(self).wf(),
            old(self).width * old(self).height * 4 <= u32::MAX,
        ensures
            final(self).width == old(self).width,
            final(self).height == old(self).height,
            final(self).wf(),
            forall|i: int|
                0 <= i < final(self).data@.len() ==> final(self).data@[i] == c@[i % 4],
    {
        let w = self.width;
        let h = self.height;
        proof {
            assert(w as int * h as int >= 0) by (nonlinear_arith);
        }
        let n = w * h;
        let mut p: u32 = 0;
        while p < n
            invariant
                self.width == old(self).width,
                self.height == old(self).height,
                self.wf(),
                n == self.width * self.height,
                n * 4 <= u32::MAX,
                p <= n,
                forall|i: int| 0 <= i < p * 4 ==> self.data@[i] == c@[i % 4],
            decreases n - p,
        {
            let i = (p * 4) as usize;
            self.data[i] = c[0];
            self.data[i + 1] = c[1];
            self.data[i + 2] = c[2];
            self.data[i + 3] = c[3];
            p += 1;
        }
    }
}

} // verus!
