//! Packing developed RAW pixels into 8-bit RGB.
//!
//! A developed image comes in one of three layouts (one, three or four
//! channels per pixel). Each channel value here is already an 8-bit sample;
//! this module lays the samples out as packed `RGBRGB...` bytes.

use vstd::prelude::*;

verus! {

/// The 8-bit samples of a developed image, pixel by pixel, row-major.
pub enum Samples {
    /// One sample per pixel (grey).
    Monochrome(Vec<u8>),
    /// Red, green and blue per pixel.
    ThreeColor(Vec<[u8; 3]>),
    /// Four samples per pixel (e.g. RGBE); the first three are red, green, blue.
    FourColor(Vec<[u8; 4]>),
}

impl Samples {
    /// Number of pixels held.
    pub open spec fn count(&self) -> nat {
        match self {
            Samples::Monochrome(data) => data@.len(),
            Samples::ThreeColor(data) => data@.len(),
            Samples::FourColor(data) => data@.len(),
        }
    }

    /// Red (`c == 0`), green (`c == 1`) or blue (`c == 2`) sample of pixel `j`.
    /// A grey pixel gives its one sample on every channel; a four-channel
    /// pixel gives its first three.
    pub open spec fn rgb_sample(&self, j: int, c: int) -> u8 {
        match self {
            Samples::Monochrome(data) => data@[j],
            Samples::ThreeColor(data) => data@[j]@[c],
            Samples::FourColor(data) => data@[j]@[c],
        }
    }

    /// Number of pixels held.
    pub fn len(&self) -> (r: usize)
        ensures
            r == self.count(),
    {
        match self {
            Samples::Monochrome(data) => data.len(),
            Samples::ThreeColor(data) => data.len(),
            Samples::FourColor(data) => data.len(),
        }
    }
}

/// A developed image whose channel values are 8-bit samples, with one pixel
/// per position of its width x height grid.
pub struct DevelopedPixels {
    width: usize,
    height: usize,
    samples: Samples,
}

impl DevelopedPixels {
    /// One pixel per grid position, and both sides within `u32`.
    #[verifier::type_invariant]
    closed spec fn well_formed(self) -> bool {
        &&& self.samples.count() == self.width * self.height
        &&& self.width <= u32::MAX
        &&& self.height <= u32::MAX
    }

    /// Width in pixels.
    pub closed spec fn spec_width(&self) -> usize {
        self.width
    }

    /// Height in pixels.
    pub closed spec fn spec_height(&self) -> usize {
        self.height
    }

    /// The samples.
    pub closed spec fn spec_samples(&self) -> Samples {
        self.samples
    }

    /// Number of pixels held.
    pub open spec fn pixel_count(&self) -> nat {
        self.spec_samples().count()
    }

    /// Red (`c == 0`), green (`c == 1`) or blue (`c == 2`) sample of pixel `j`.
    pub open spec fn rgb_sample(&self, j: int, c: int) -> u8 {
        self.spec_samples().rgb_sample(j, c)
    }

    /// The packed RGB bytes: three per pixel, in pixel order, no padding.
    pub open spec fn packed_rgb(&self) -> Seq<u8> {
        Seq::new(3 * self.pixel_count(), |i: int| self.rgb_sample(i / 3, i % 3))
    }

    /// A developed image from its size and samples; `None` unless there is
    /// one sample set per position of the width x height grid and both
    /// sides fit in `u32`.
    pub fn new(width: usize, height: usize, samples: Samples) -> (r: Option<DevelopedPixels>)
        ensures
            r is Some <==> (samples.count() == width * height && width <= u32::MAX && height <= u32::MAX),
            r matches Some(p) ==> p.spec_width() == width && p.spec_height() == height && p.spec_samples()
                == samples,
    {
        if width > 0xffff_ffff || height > 0xffff_ffff {
            return None;
        }
        let held = samples.len();
        match width.checked_mul(height) {
            Some(n) => if held == n {
                Some(DevelopedPixels { width, height, samples })
            } else {
                None
            },
            None => None,
        }
    }
}

/// Three bytes per pixel: the packed image has three times as many bytes as
/// pixels, and its bytes `3j`, `3j + 1`, `3j + 2` are pixel `j`'s red, green
/// and blue.
pub proof fn lemma_three_bytes_per_pixel(pixels: DevelopedPixels)
    ensures
        pixels.packed_rgb().len() == 3 * pixels.pixel_count(),
        forall|j: int, c: int|
            0 <= j < pixels.pixel_count() && 0 <= c < 3 ==> #[trigger] pixels.packed_rgb()[3 * j + c]
                == pixels.rgb_sample(j, c),
{
    assert forall|j: int, c: int|
        0 <= j < pixels.pixel_count() && 0 <= c < 3 implies #[trigger] pixels.packed_rgb()[3 * j + c]
        == pixels.rgb_sample(j, c) by {
        assert((3 * j + c) / 3 == j);
        assert((3 * j + c) % 3 == c);
    }
}

/// A grey image packs to grey RGB: each pixel's sample is repeated on red,
/// green and blue.
pub proof fn lemma_monochrome_packs_to_grey(pixels: DevelopedPixels, j: int)
    requires
        pixels.spec_samples() is Monochrome,
        0 <= j < pixels.pixel_count(),
    ensures
        pixels.packed_rgb()[3 * j] == pixels.packed_rgb()[3 * j + 1],
        pixels.packed_rgb()[3 * j + 1] == pixels.packed_rgb()[3 * j + 2],
        pixels.packed_rgb()[3 * j] == pixels.spec_samples()->Monochrome_0@[j],
{
    lemma_three_bytes_per_pixel(pixels);
    assert(pixels.packed_rgb()[3 * j + 0] == pixels.rgb_sample(j, 0));
    assert(pixels.packed_rgb()[3 * j + 1] == pixels.rgb_sample(j, 1));
    assert(pixels.packed_rgb()[3 * j + 2] == pixels.rgb_sample(j, 2));
}

/// A four-channel image keeps its first three channels and drops the fourth.
pub proof fn lemma_four_color_drops_fourth_channel(pixels: DevelopedPixels, j: int, c: int)
    requires
        pixels.spec_samples() is FourColor,
        0 <= j < pixels.pixel_count(),
        0 <= c < 3,
    ensures
        pixels.packed_rgb()[3 * j + c] == pixels.spec_samples()->FourColor_0@[j]@[c],
{
    lemma_three_bytes_per_pixel(pixels);
}

/// Convert a developed image to packed 8-bit RGB bytes.
///
/// Returns `(width, height, rgb_bytes)`, with exactly three bytes per pixel
/// of the reported size.
pub fn intermediate_to_rgb8(pixels: DevelopedPixels) -> (r: (u32, u32, Vec<u8>))
    ensures
        r.0 == pixels.spec_width(),
        r.1 == pixels.spec_height(),
        r.2@ == pixels.packed_rgb(),
        r.2@.len() == 3 * r.0 * r.1,
{
    proof {
        use_type_invariant(&pixels);
    }
    let ghost p = pixels;
    let width = pixels.width;
    let height = pixels.height;
    let mut rgb: Vec<u8> = Vec::new();
    match pixels.samples {
        Samples::Monochrome(data) => {
            let mut j: usize = 0;
            while j < data.len()
                invariant
                    p.spec_samples() == Samples::Monochrome(data),
                    0 <= j <= data.len(),
                    rgb@ =~= Seq::new(3 * j as nat, |i: int| p.rgb_sample(i / 3, i % 3)),
                decreases data.len() - j,
            {
                let v = data[j];
                rgb.push(v);
                rgb.push(v);
                rgb.push(v);
                j = j + 1;
            }
        },
        Samples::ThreeColor(data) => {
            let mut j: usize = 0;
            while j < data.len()
                invariant
                    p.spec_samples() == Samples::ThreeColor(data),
                    0 <= j <= data.len(),
                    rgb@ =~= Seq::new(3 * j as nat, |i: int| p.rgb_sample(i / 3, i % 3)),
                decreases data.len() - j,
            {
                let px = data[j];
                rgb.push(px[0]);
                rgb.push(px[1]);
                rgb.push(px[2]);
                j = j + 1;
            }
        },
        Samples::FourColor(data) => {
            let mut j: usize = 0;
            while j < data.len()
                invariant
                    p.spec_samples() == Samples::FourColor(data),
                    0 <= j <= data.len(),
                    rgb@ =~= Seq::new(3 * j as nat, |i: int| p.rgb_sample(i / 3, i % 3)),
                decreases data.len() - j,
            {
                let px = data[j];
                rgb.push(px[0]);
                rgb.push(px[1]);
                rgb.push(px[2]);
                j = j + 1;
            }
        },
    }
    assert(3 * (width * height) == 3 * width * height) by (nonlinear_arith);
    (width as u32, height as u32, rgb)
}

} // verus!
