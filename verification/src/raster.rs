//! Rendering a symbol matrix into a grayscale pixel buffer: each module
//! becomes a square block of samples, with a four-module light quiet zone,
//! such that the image's dimension is at least the requested size.

use vstd::arithmetic::div_mod::{
    lemma_div_non_zero, lemma_fundamental_div_mod, lemma_fundamental_div_mod_converse,
    lemma_mod_pos_bound,
};
use vstd::prelude::*;

use crate::symbol::SymbolMatrix;

verus! {

/// A grayscale 8-bit pixel buffer, row by row.
pub struct PixelBuffer {
    pub width: u32,
    pub height: u32,
    /// One sample per pixel; 0 is black, 255 is white.
    pub pixels: Vec<u8>,
}

impl PixelBuffer {
    pub open spec fn wf(self) -> bool {
        &&& 1 <= self.width
        &&& 1 <= self.height
        &&& self.pixels@.len() == self.width * self.height
    }
}

/// The side of each module's square pixel block: the smallest scale such
/// that the whole image, quiet zone included, reaches the requested size.
pub open spec fn raster_scale(w: nat, size: nat) -> nat {
    (size + w + 7) / (w + 8)
}

/// The side of the rendered image in pixels: the symbol and a four-module
/// quiet zone on each side, scaled.
pub open spec fn raster_dim(w: nat, size: nat) -> nat {
    raster_scale(w, size) * (w + 8)
}

/// The sample at pixel `(x, y)`: black where the pixel falls on a dark
/// module, white on a light module or in the quiet zone.
pub open spec fn raster_pixel(rows: Seq<Seq<bool>>, scale: int, x: int, y: int) -> u8 {
    let mx = x / scale;
    let my = y / scale;
    if 4 <= mx < rows.len() + 4 && 4 <= my < rows.len() + 4 && rows[my - 4][mx - 4] {
        0
    } else {
        255
    }
}

/// The whole rendered image, row by row.
pub open spec fn raster_pixels(rows: Seq<Seq<bool>>, size: nat) -> Seq<u8> {
    let scale = raster_scale(rows.len(), size) as int;
    let dim = raster_dim(rows.len(), size) as int;
    Seq::new((dim * dim) as nat, |j: int| raster_pixel(rows, scale, j % dim, j / dim))
}

/// The rendered image's dimension always reaches the requested size.
pub proof fn lemma_raster_dim_reaches_size(w: nat, size: nat)
    requires
        1 <= size,
    ensures
        raster_scale(w, size) >= 1,
        size <= raster_dim(w, size) <= size + w + 7,
{
    let total = (w + 8) as int;
    let x = (size + w + 7) as int;
    lemma_div_non_zero(x, total);
    lemma_fundamental_div_mod(x, total);
    lemma_mod_pos_bound(x, total);
    assert(x == total * (x / total) + (x % total));
    assert(raster_dim(w, size) as int == total * (x / total)) by (nonlinear_arith)
        requires
            raster_dim(w, size) == raster_scale(w, size) * (w + 8),
            raster_scale(w, size) == x / total,
            total == w + 8,
    ;
}

/// Render a symbol matrix into a grayscale pixel buffer whose dimension is
/// at least `size`: each module maps to a `scale × scale` block of samples,
/// dark modules black, light modules and the quiet zone white.
pub fn render_raster(m: &SymbolMatrix, size: u32) -> (r: PixelBuffer)
    requires
        m.wf(),
        1 <= size <= 4096,
    ensures
        r.wf(),
        r.width == r.height,
        r.width as nat == raster_dim(m.width as nat, size as nat),
        r.width >= size,
        r.pixels@ == raster_pixels(m.rows(), size as nat),
{
    let total: u32 = (m.width as u32) + 8;
    let scale: u32 = (size + total - 1) / total;
    proof {
        lemma_raster_dim_reaches_size(m.width as nat, size as nat);
    }
    let dim: u32 = scale * total;
    let ghost rows = m.rows();
    let mut pixels: Vec<u8> = Vec::new();
    let mut y: u32 = 0;
    while y < dim
        invariant
            m.wf(),
            rows == m.rows(),
            total == m.width + 8,
            scale as nat == raster_scale(m.width as nat, size as nat),
            dim as nat == raster_dim(m.width as nat, size as nat),
            1 <= scale,
            dim <= 4281,
            y <= dim,
            pixels@.len() == y * dim,
            forall|j: int|
                0 <= j < y * dim ==> pixels@[j] == raster_pixel(rows, scale as int, j % (
                dim as int), j / (dim as int)),
        decreases dim - y,
    {
        let mut x: u32 = 0;
        while x < dim
            invariant
                m.wf(),
                rows == m.rows(),
                total == m.width + 8,
                scale as nat == raster_scale(m.width as nat, size as nat),
                dim as nat == raster_dim(m.width as nat, size as nat),
                1 <= scale,
                dim <= 4281,
                y < dim,
                x <= dim,
                pixels@.len() == y * dim + x,
                forall|j: int|
                    0 <= j < y * dim + x ==> pixels@[j] == raster_pixel(rows, scale as int, j % (
                    dim as int), j / (dim as int)),
            decreases dim - x,
        {
            let mx = x / scale;
            let my = y / scale;
            let v: u8 = if mx >= 4 && my >= 4 && mx - 4 < m.width as u32 && my - 4 < m.width as u32 {
                let col = (mx - 4) as usize;
                let row = (my - 4) as usize;
                proof {
                    assert(row * m.width + col < m.width * m.width <= 177 * 177)
                        by (nonlinear_arith)
                        requires
                            row < m.width,
                            col < m.width,
                            m.width <= 177,
                    ;
                    assert(rows[row as int][col as int] == m.modules@[row * m.width + col]);
                }
                if m.modules[row * m.width + col] {
                    0
                } else {
                    255
                }
            } else {
                255
            };
            proof {
                let j = y * (dim as int) + x;
                lemma_fundamental_div_mod_converse(j, dim as int, y as int, x as int);
                assert(v == raster_pixel(rows, scale as int, x as int, y as int));
            }
            pixels.push(v);
            x += 1;
        }
        proof {
            assert((y as int + 1) * (dim as int) == y as int * (dim as int) + dim as int)
                by (nonlinear_arith);
        }
        y += 1;
    }
    proof {
        assert(pixels@ =~= raster_pixels(rows, size as nat));
    }
    PixelBuffer { width: dim, height: dim, pixels }
}

} // verus!
