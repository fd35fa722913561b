//! Turning a packed RGB image upright according to its EXIF orientation.
//!
//! EXIF orientation values: 1 upright, 2 mirrored left-right, 3 turned 180
//! degrees, 4 mirrored top-bottom, 5 transposed, 6 to be turned 90 degrees
//! clockwise, 7 transversed, 8 to be turned 90 degrees counter-clockwise.
//! Any other value leaves the image as stored.

use vstd::arithmetic::div_mod::{lemma_fundamental_div_mod, lemma_fundamental_div_mod_converse};
use vstd::prelude::*;

verus! {

/// Orientations 5 to 8 exchange width and height.
pub open spec fn swaps_axes(o: u16) -> bool {
    5 <= o && o <= 8
}

/// Width of the upright image.
pub open spec fn oriented_width(o: u16, w: int, h: int) -> int {
    if swaps_axes(o) { h } else { w }
}

/// Height of the upright image.
pub open spec fn oriented_height(o: u16, w: int, h: int) -> int {
    if swaps_axes(o) { w } else { h }
}

/// Column of the stored image whose pixel is shown at column `x`, row `y`
/// of the upright image.
pub open spec fn source_column(o: u16, w: int, h: int, x: int, y: int) -> int {
    if o == 2 || o == 3 {
        w - 1 - x
    } else if o == 5 || o == 6 {
        y
    } else if o == 7 || o == 8 {
        w - 1 - y
    } else {
        x
    }
}

/// Row of the stored image whose pixel is shown at column `x`, row `y` of
/// the upright image.
pub open spec fn source_row(o: u16, w: int, h: int, x: int, y: int) -> int {
    if o == 3 || o == 4 {
        h - 1 - y
    } else if o == 5 || o == 8 {
        x
    } else if o == 6 || o == 7 {
        h - 1 - x
    } else {
        y
    }
}

/// Index, in the stored image, of the pixel shown at index `p` (row-major)
/// of the upright image.
pub open spec fn source_index(o: u16, w: int, h: int, p: int) -> int {
    let ow = oriented_width(o, w, h);
    source_row(o, w, h, p % ow, p / ow) * w + source_column(o, w, h, p % ow, p / ow)
}

/// The upright image: three bytes per pixel, each pixel copied from the
/// stored pixel that the orientation shows there.
pub open spec fn oriented_rgb(o: u16, w: int, h: int, rgb: Seq<u8>) -> Seq<u8> {
    Seq::new((3 * w * h) as nat, |i: int| rgb[3 * source_index(o, w, h, i / 3) + i % 3])
}

/// The stored position shown at a position of the upright image.
fn source_of(o: u16, w: usize, h: usize, x: usize, y: usize) -> (r: (usize, usize))
    requires
        x < oriented_width(o, w as int, h as int),
        y < oriented_height(o, w as int, h as int),
    ensures
        r.0 == source_column(o, w as int, h as int, x as int, y as int),
        r.1 == source_row(o, w as int, h as int, x as int, y as int),
        r.0 < w,
        r.1 < h,
{
    if o == 2 {
        (w - 1 - x, y)
    } else if o == 3 {
        (w - 1 - x, h - 1 - y)
    } else if o == 4 {
        (x, h - 1 - y)
    } else if o == 5 {
        (y, x)
    } else if o == 6 {
        (y, h - 1 - x)
    } else if o == 7 {
        (w - 1 - y, h - 1 - x)
    } else if o == 8 {
        (w - 1 - y, x)
    } else {
        (x, y)
    }
}

/// A pixel index within a `w` x `h` grid, from its column and row.
proof fn lemma_grid_index(col: int, row: int, w: int, h: int)
    requires
        0 <= col < w,
        0 <= row < h,
    ensures
        0 <= row * w + col,
        row * w + col < w * h,
        3 * (row * w + col) + 2 < 3 * w * h,
{
    assert(0 <= row * w) by (nonlinear_arith)
        requires
            0 <= row,
            0 <= w,
    ;
    assert(row * w + col < w * h) by (nonlinear_arith)
        requires
            0 <= col < w,
            0 <= row < h,
    ;
    assert(3 * (w * h) == 3 * w * h) by (nonlinear_arith);
}

/// Splitting a pixel index of a `w`-wide grid into column and row.
proof fn lemma_split_index(p: int, w: int, h: int)
    requires
        0 <= p < w * h,
        0 < w,
    ensures
        0 <= p % w < w,
        0 <= p / w < h,
        p == (p / w) * w + p % w,
{
    lemma_fundamental_div_mod(p, w);
    assert(p / w < h) by (nonlinear_arith)
        requires
            p == w * (p / w) + p % w,
            0 <= p % w < w,
            p < w * h,
            0 < w,
    ;
    assert(0 <= p / w) by (nonlinear_arith)
        requires
            p == w * (p / w) + p % w,
            0 <= p % w < w,
            0 <= p,
            0 < w,
    ;
    assert((p / w) * w == w * (p / w)) by (nonlinear_arith);
}

/// Each pixel of the upright image is the stored pixel that the orientation
/// shows there: bytes `3(y * ow + x) .. + 3` of the upright image are the
/// bytes of the stored pixel at (`source_column`, `source_row`).
pub proof fn lemma_upright_pixel(o: u16, w: int, h: int, rgb: Seq<u8>, x: int, y: int, c: int)
    requires
        0 <= w,
        0 <= h,
        rgb.len() == 3 * w * h,
        0 <= x < oriented_width(o, w, h),
        0 <= y < oriented_height(o, w, h),
        0 <= c < 3,
    ensures
        oriented_rgb(o, w, h, rgb)[3 * (y * oriented_width(o, w, h) + x) + c] == rgb[3 * (
        source_row(o, w, h, x, y) * w + source_column(o, w, h, x, y)) + c],
{
    let ow = oriented_width(o, w, h);
    let oh = oriented_height(o, w, h);
    let p = y * ow + x;
    lemma_grid_index(x, y, ow, oh);
    assert(ow * oh == w * h) by (nonlinear_arith)
        requires
            (ow == w && oh == h) || (ow == h && oh == w),
    ;
    assert(3 * w * h == 3 * (w * h)) by (nonlinear_arith);
    lemma_fundamental_div_mod_converse(p, ow, y, x);
    assert((3 * p + c) / 3 == p);
    assert((3 * p + c) % 3 == c);
}

/// An image whose orientation is upright (1) or not one of the eight EXIF
/// values is left exactly as stored.
pub proof fn lemma_upright_keeps_image(o: u16, w: int, h: int, rgb: Seq<u8>)
    requires
        !(2 <= o <= 8),
        0 <= w,
        0 <= h,
        rgb.len() == 3 * w * h,
    ensures
        oriented_rgb(o, w, h, rgb) == rgb,
{
    let out = oriented_rgb(o, w, h, rgb);
    assert forall|i: int| 0 <= i < rgb.len() implies #[trigger] out[i] == rgb[i] by {
        let p = i / 3;
        assert(3 * w * h == 3 * (w * h)) by (nonlinear_arith);
        assert(0 <= p < w * h);
        assert(0 < w) by (nonlinear_arith)
            requires
                0 <= p < w * h,
                0 <= h,
        ;
        lemma_split_index(p, w, h);
    }
    assert(out =~= rgb);
}

/// Turning an image 90 degrees clockwise (6) and then the result 90 degrees
/// counter-clockwise (8) gives back the stored image.
pub proof fn lemma_quarter_turns_cancel(w: int, h: int, rgb: Seq<u8>)
    requires
        0 <= w,
        0 <= h,
        rgb.len() == 3 * w * h,
    ensures
        oriented_rgb(8, h, w, oriented_rgb(6, w, h, rgb)) == rgb,
{
    let once = oriented_rgb(6, w, h, rgb);
    let twice = oriented_rgb(8, h, w, once);
    assert(3 * h * w == 3 * (w * h) && 3 * w * h == 3 * (w * h)) by (nonlinear_arith);
    assert forall|i: int| 0 <= i < rgb.len() implies #[trigger] twice[i] == rgb[i] by {
        let p = i / 3;
        let c = i % 3;
        assert(0 <= p < w * h);
        assert(0 < w && 0 < h) by (nonlinear_arith)
            requires
                0 <= p < w * h,
                0 <= h,
                0 <= w,
        ;
        lemma_split_index(p, w, h);
        let x = p % w;
        let y = p / w;
        // Turning back shows, at (x, y), the pixel of the turned image at
        // column h - 1 - y, row x.
        let q = x * h + (h - 1 - y);
        assert(q == source_index(8, h, w, p));
        lemma_grid_index(h - 1 - y, x, h, w);
        lemma_fundamental_div_mod_converse(q, h, x, h - 1 - y);
        // The turned image shows there the stored pixel at column x, row y.
        assert(source_index(6, w, h, q) == y * w + x);
        assert(twice[i] == once[3 * q + c]);
        assert((3 * q + c) / 3 == q);
        assert((3 * q + c) % 3 == c);
        assert(once[3 * q + c] == rgb[3 * (y * w + x) + c]);
        assert(3 * (y * w + x) + c == i);
    }
    assert(twice =~= rgb);
}

/// Turn a packed RGB image upright according to the EXIF orientation
/// `orientation`. Returns the upright width, height and pixels.
pub fn apply_orientation(orientation: u16, width: u32, height: u32, rgb: &Vec<u8>) -> (r: (u32, u32, Vec<u8>))
    requires
        rgb@.len() == 3 * width * height,
    ensures
        r.0 == oriented_width(orientation, width as int, height as int),
        r.1 == oriented_height(orientation, width as int, height as int),
        r.2@ == oriented_rgb(orientation, width as int, height as int, rgb@),
{
    let ghost wi = width as int;
    let ghost hi = height as int;
    let ghost spec_out = oriented_rgb(orientation, wi, hi, rgb@);
    let (ow, oh): (u32, u32) = if 5 <= orientation && orientation <= 8 {
        (height, width)
    } else {
        (width, height)
    };
    let w = width as usize;
    let h = height as usize;
    let owu = ow as usize;
    let ohu = oh as usize;
    assert(owu * ohu == wi * hi) by (nonlinear_arith)
        requires
            (owu == wi && ohu == hi) || (owu == hi && ohu == wi),
    ;
    let mut out: Vec<u8> = Vec::new();
    let mut y: usize = 0;
    while y < ohu
        invariant
            w == wi,
            h == hi,
            owu == oriented_width(orientation, wi, hi),
            ohu == oriented_height(orientation, wi, hi),
            owu * ohu == wi * hi,
            rgb@.len() == 3 * wi * hi,
            spec_out == oriented_rgb(orientation, wi, hi, rgb@),
            0 <= y <= ohu,
            out@.len() == 3 * (y * owu),
            forall|i: int| 0 <= i < out@.len() ==> out@[i] == #[trigger] spec_out[i],
        decreases ohu - y,
    {
        let mut x: usize = 0;
        while x < owu
            invariant
                w == wi,
                h == hi,
                owu == oriented_width(orientation, wi, hi),
                ohu == oriented_height(orientation, wi, hi),
                owu * ohu == wi * hi,
                rgb@.len() == 3 * wi * hi,
                spec_out == oriented_rgb(orientation, wi, hi, rgb@),
                0 <= y < ohu,
                0 <= x <= owu,
                out@.len() == 3 * (y * owu + x),
                forall|i: int| 0 <= i < out@.len() ==> out@[i] == #[trigger] spec_out[i],
            decreases owu - x,
        {
            let (sx, sy) = source_of(orientation, w, h, x, y);
            proof {
                lemma_grid_index(sx as int, sy as int, wi, hi);
                lemma_grid_index(x as int, y as int, owu as int, ohu as int);
                assert(3 * (sy * w + sx) + 2 < rgb.len());
                assert(0 <= sy * w <= sy * w + sx);
            }
            let base = 3 * (sy * w + sx);
            let ghost p = y * owu + x;
            proof {
                lemma_fundamental_div_mod_converse(p, owu as int, y as int, x as int);
                assert(source_index(orientation, wi, hi, p) == sy * w + sx);
                assert(3 * (y * owu + x + 1) == 3 * (y * owu + x) + 3);
                assert(3 * wi * hi == 3 * (wi * hi)) by (nonlinear_arith);
                assert(3 * p + 2 < spec_out.len());
                assert forall|c: int| 0 <= c < 3 implies #[trigger] spec_out[3 * p + c] == rgb@[base + c] by {
                    assert((3 * p + c) / 3 == p);
                    assert((3 * p + c) % 3 == c);
                }
            }
            let ghost before = out@;
            out.push(rgb[base]);
            out.push(rgb[base + 1]);
            out.push(rgb[base + 2]);
            proof {
                assert forall|i: int| 0 <= i < out@.len() implies out@[i] == #[trigger] spec_out[i] by {
                    if i < before.len() {
                        assert(out@[i] == before[i]);
                    } else {
                        assert(spec_out[3 * p + (i - 3 * p)] == rgb@[base + (i - 3 * p)]);
                    }
                }
            }
            x = x + 1;
        }
        proof {
            assert(3 * (y * owu + owu) == 3 * ((y + 1) * owu)) by (nonlinear_arith);
        }
        y = y + 1;
    }
    proof {
        assert(out@.len() == spec_out.len()) by (nonlinear_arith)
            requires
                out@.len() == 3 * (ohu * owu),
                spec_out.len() == 3 * wi * hi,
                owu * ohu == wi * hi,
        ;
        assert(out@ =~= spec_out);
    }
    (ow, oh, out)
}

} // verus!
