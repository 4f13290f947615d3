//! RGB raster images and depth buffers.
//!
//! An image is a dense `width x height` grid of RGB pixels stored row-major:
//! pixel `(x, y)` lives at index `x + y * width`.  A depth buffer is a
//! parallel `Vec<Fx>`, initialized to the minimum raw value, which every
//! depth test exceeds on first write.

use vstd::prelude::*;

use crate::fixed::Fx;

verus! {

/// An RGB color, one byte per channel.
#[derive(Clone, Copy, PartialEq, Eq, Structural, Debug)]
pub struct Rgb {
    pub r: u8,
    pub g: u8,
    pub b: u8,
}

/// A dense row-major RGB image.
#[derive(Debug)]
pub struct Image {
    pub width: u32,
    pub height: u32,
    pub pixels: Vec<Rgb>,
}

/// Row-major pixel index.
pub open spec fn pix_index(width: int, x: int, y: int) -> int {
    x + y * width
}

/// The row-major index is in range whenever the coordinates are.
pub proof fn lemma_pix_index_bound(width: int, height: int, x: int, y: int)
    requires
        0 <= x < width,
        0 <= y < height,
    ensures
        0 <= pix_index(width, x, y) < width * height,
{
    assert(x + y * width < width * height) by (nonlinear_arith)
        requires
            0 <= x < width,
            0 <= y < height,
    ;
    assert(0 <= y * width) by (nonlinear_arith)
        requires
            0 <= y,
            0 < width,
    ;
}

impl Image {
    /// Well-formedness: the pixel store matches the dimensions, and the
    /// pixel count stays within `u32` so that indexing arithmetic fits.
    pub open spec fn wf(self) -> bool {
        &&& self.pixels@.len() == (self.width as int) * (self.height as int)
        &&& (self.width as int) * (self.height as int) <= u32::MAX
    }

    /// The pixel at `(x, y)`, as a spec value.
    pub open spec fn pixel_at(self, x: int, y: int) -> Rgb {
        self.pixels@[pix_index(self.width as int, x, y)]
    }

    /// Reads the pixel at `(x, y)`.
    pub fn get_pixel(&self, x: u32, y: u32) -> (c: Rgb)
        requires
            self.wf(),
            x < self.width,
            y < self.height,
        ensures
            c == self.pixel_at(x as int, y as int),
    {
        proof {
            lemma_pix_index_bound(
                self.width as int,
                self.height as int,
                x as int,
                y as int,
            );
        }
        self.pixels[(x as usize) + (y as usize) * (self.width as usize)]
    }

    /// Overwrites the pixel at `(x, y)`.
    pub fn put_pixel(&mut self, x: u32, y: u32, c: Rgb)
        requires
            old(self).wf(),
            x < old(self).width,
            y < old(self).height,
        ensures
            final(self).width == old(self).width,
            final(self).height == old(self).height,
            final(self).wf(),
            final(self).pixels@ == old(self).pixels@.update(
                pix_index(old(self).width as int, x as int, y as int),
                c,
            ),
    {
        proof {
            lemma_pix_index_bound(
                self.width as int,
                self.height as int,
                x as int,
                y as int,
            );
        }
        let i: usize = (x as usize) + (y as usize) * (self.width as usize);
        self.pixels[i] = c;
    }
}

/// Builds an all-black image of the given dimensions.
pub fn init_image(width: u32, height: u32) -> (img: Image)
    requires
        (width as int) * (height as int) <= u32::MAX,
    ensures
        img.wf(),
        img.width == width,
        img.height == height,
        forall|i: int|
            0 <= i < img.pixels@.len() ==> img.pixels@[i] == (Rgb { r: 0, g: 0, b: 0 }),
{
    let total: usize = (width as usize) * (height as usize);
    let mut pixels: Vec<Rgb> = Vec::new();
    let mut k: usize = 0;
    while k < total
        invariant
            pixels@.len() == k,
            k <= total,
            forall|i: int| 0 <= i < k ==> pixels@[i] == (Rgb { r: 0, g: 0, b: 0 }),
        decreases total - k,
    {
        pixels.push(Rgb { r: 0, g: 0, b: 0 });
        k = k + 1;
    }
    Image { width, height, pixels }
}

/// Builds a depth buffer of `n` cells, each holding `v`.
pub fn fx_buffer(n: usize, v: Fx) -> (buf: Vec<Fx>)
    ensures
        buf@.len() == n,
        forall|i: int| 0 <= i < n ==> buf@[i] == v,
{
    let mut buf: Vec<Fx> = Vec::new();
    let mut k: usize = 0;
    while k < n
        invariant
            buf@.len() == k,
            k <= n,
            forall|i: int| 0 <= i < k ==> buf@[i] == v,
        decreases n - k,
    {
        buf.push(v);
        k = k + 1;
    }
    buf
}

} // verus!
