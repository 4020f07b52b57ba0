use vstd::prelude::*;
use crate::camera::{Frac, ASPECT_HEIGHT, ASPECT_WIDTH};

verus! {

/// Number of steps into which a sample offset divides a pixel: an offset `k`
/// stands for the fraction `k / OFFSET_STEPS` of `[0, 1)`.
pub const OFFSET_STEPS: i64 = 0x1_0000_0000;

/// Largest image width or height for which sample points can be formed.
pub const MAX_EXTENT: usize = 0x1_0000;

/// The height of an image of the given width at the 16:9 aspect ratio, by
/// truncating division.
pub open spec fn image_height_spec(width: int) -> int {
    width * (ASPECT_HEIGHT as int) / (ASPECT_WIDTH as int)
}

/// The image-plane coordinate `(index + offset / OFFSET_STEPS) / (extent - 1)`
/// of a sample along an axis of `extent` pixels.
pub open spec fn coordinate_spec(index: int, offset: int, extent: int) -> Frac {
    Frac {
        num: (index * OFFSET_STEPS + offset) as i64,
        den: ((extent - 1) * OFFSET_STEPS) as i64,
    }
}

/// The linear index of a pixel in a row-major buffer.
pub open spec fn pixel_index_spec(row: int, col: int, width: int) -> int {
    row * width + col
}

/// Whether sample points can be formed on an image of this size: each side has
/// at least two pixels (the coordinates divide by `side - 1`) and at most `MAX_EXTENT`.
pub open spec fn sampleable(width: int, height: int) -> bool {
    2 <= width <= MAX_EXTENT && 2 <= height <= MAX_EXTENT
}

/// The image height for a width at the 16:9 aspect ratio, rounded down.
pub fn image_height(width: usize) -> (h: usize)
    ensures
        h == image_height_spec(width as int),
{
    let w = width as u128;
    let h = w * (ASPECT_HEIGHT as u128) / (ASPECT_WIDTH as u128);
    assert(w * 9 / 16 <= w) by (nonlinear_arith)
        requires
            w >= 0,
    ;
    h as usize
}

/// The index of the pixel at `row`, `col` in a row-major buffer of `width`
/// columns and `height` rows.
pub fn pixel_index(row: usize, col: usize, width: usize, height: usize) -> (i: usize)
    requires
        row < height,
        col < width,
        width * height <= usize::MAX,
    ensures
        i == pixel_index_spec(row as int, col as int, width as int),
        i < width * height,
{
    assert(row * width + col < width * height) by (nonlinear_arith)
        requires
            row < height,
            col < width,
    ;
    row * width + col
}

/// The image-plane point of one sample in the pixel at buffer position `row`,
/// `col`, jittered by the offsets `offset_u`, `offset_v` (in steps of
/// `1 / OFFSET_STEPS`). Rows run top to bottom in the buffer, and the top row lies
/// at `v = 1`: the image-plane row of buffer row `row` is `height - 1 - row`.
/// `None` where the image is not `sampleable`, or the pixel lies outside it.
pub fn sample_point(
    row: usize,
    col: usize,
    offset_u: u32,
    offset_v: u32,
    width: usize,
    height: usize,
) -> (p: Option<(Frac, Frac)>)
    ensures
        p is Some <==> sampleable(width as int, height as int) && row < height && col < width,
        p matches Some((u, v)) ==> {
            &&& u == coordinate_spec(col as int, offset_u as int, width as int)
            &&& v == coordinate_spec(height - 1 - row, offset_v as int, height as int)
            &&& u.wf()
            &&& v.wf()
        },
{
    if width < 2 || width > MAX_EXTENT || height < 2 || height > MAX_EXTENT || row >= height
        || col >= width {
        return None;
    }
    let u = sample_coordinate(col, offset_u, width);
    let v = sample_coordinate(height - 1 - row, offset_v, height);
    Some((u, v))
}

fn sample_coordinate(index: usize, offset: u32, extent: usize) -> (c: Frac)
    requires
        2 <= extent <= MAX_EXTENT,
        index < extent,
    ensures
        c == coordinate_spec(index as int, offset as int, extent as int),
        c.wf(),
{
    let (i, o, e) = (index as i64, offset as i64, extent as i64);
    assert(i * OFFSET_STEPS + o < 0x1_0000_0000_0000) by (nonlinear_arith)
        requires
            0 <= i < MAX_EXTENT,
            0 <= o < OFFSET_STEPS,
    ;
    assert((e - 1) * OFFSET_STEPS < 0x1_0000_0000_0000) by (nonlinear_arith)
        requires
            2 <= e <= MAX_EXTENT,
    ;
    Frac::new(i * OFFSET_STEPS + o, (e - 1) * OFFSET_STEPS)
}

} // verus!
