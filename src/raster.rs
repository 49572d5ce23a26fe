//! How samples lie on the raster: row by row, left to right, from the top.
use vstd::prelude::*;

verus! {

/// The sample shown at pixel `(x, y)` of a raster `width` pixels wide.
pub fn sample_index(x: usize, y: usize, width: usize, height: usize) -> (r: usize)
    requires
        x < width,
        y < height,
        width * height <= usize::MAX,
    ensures
        r == y * width + x,
{
    assert(y * width + x < width * height) by (nonlinear_arith)
        requires
            x < width,
            y < height,
    ;
    y * width + x
}

/// The pixel `(x, y)` that shows sample `index` on a raster `width` pixels
/// wide.
pub fn pixel_of(index: usize, width: usize) -> (r: (usize, usize))
    requires
        width > 0,
    ensures
        r.0 == index % width,
        r.1 == index / width,
{
    (index % width, index / width)
}

/// Every pixel shows a sample of its own: going from a pixel to its sample
/// and back gives the pixel.
pub proof fn lemma_pixel_round_trip(x: nat, y: nat, width: nat)
    requires
        x < width,
    ensures
        (y * width + x) % width == x,
        (y * width + x) / width == y,
{
    vstd::arithmetic::div_mod::lemma_fundamental_div_mod_converse(
        (y * width + x) as int,
        width as int,
        y as int,
        x as int,
    );
}

} // verus!
