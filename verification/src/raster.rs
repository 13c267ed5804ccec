//! The static frame pipeline: a decoded raster buffer in, a two-tone canvas
//! out, one classification per pixel, dimensions preserved exactly.

use vstd::prelude::*;
use crate::color::{
    classify, luminance, spec_classify, spec_luma, lemma_rethreshold_idempotent, OutputColor,
    ThresholdConfig,
};

verus! {

/// The channel layout of a raw decoded raster buffer.
#[derive(Clone, Copy, Debug, PartialEq, Eq, Structural)]
pub enum ChannelLayout {
    /// Three bytes per pixel: red, green, blue.
    Rgb,
    /// Four bytes per pixel: red, green, blue, alpha. The alpha channel is
    /// ignored (fully opaque assumption).
    Rgba,
}

impl ChannelLayout {
    /// How many bytes one pixel occupies.
    pub open spec fn spec_bytes_per_pixel(self) -> usize {
        match self {
            ChannelLayout::Rgb => 3usize,
            ChannelLayout::Rgba => 4usize,
        }
    }

    /// How many bytes one pixel occupies.
    pub fn bytes_per_pixel(self) -> (n: usize)
        ensures
            n == self.spec_bytes_per_pixel(),
    {
        match self {
            ChannelLayout::Rgb => 3,
            ChannelLayout::Rgba => 4,
        }
    }
}

/// A raw decoded raster image: a width x height grid of pixels, row-major,
/// in the given channel layout.
#[derive(Clone, Debug)]
pub struct RasterImage {
    pub width: usize,
    pub height: usize,
    pub layout: ChannelLayout,
    /// Raw pixel bytes, `width * height * bytes_per_pixel` of them.
    pub data: Vec<u8>,
}

impl RasterImage {
    /// The buffer holds exactly one entry per pixel.
    pub open spec fn wf(self) -> bool {
        self.data@.len() == self.width * self.height * self.layout.spec_bytes_per_pixel()
    }

    /// The luminance of the pixel at flat position `i`.
    pub open spec fn spec_pixel_luma(self, i: int) -> u8 {
        let bpp = self.layout.spec_bytes_per_pixel() as int;
        spec_luma(self.data@[i * bpp], self.data@[i * bpp + 1], self.data@[i * bpp + 2])
    }
}

/// A rendered two-tone grid: one output color per pixel, row-major, origin
/// top-left, same dimensions as the input it was rendered from.
#[derive(Clone, Debug)]
pub struct Canvas {
    pub width: usize,
    pub height: usize,
    pub pixels: Vec<OutputColor>,
}

impl Canvas {
    /// The grid holds exactly one color per pixel.
    pub open spec fn wf(self) -> bool {
        self.pixels@.len() == self.width * self.height
    }
}

/// The two-tone rendering of a raster image: each pixel's luminance,
/// classified under the configuration.
pub open spec fn spec_two_tone(img: RasterImage, cfg: ThresholdConfig) -> Seq<OutputColor> {
    Seq::new((img.width * img.height) as nat, |i: int| spec_classify(img.spec_pixel_luma(i), cfg))
}

/// Renders a raster image into a two-tone canvas: every pixel is converted
/// to its luminance and classified; the canvas has exactly the input's
/// dimensions.
pub fn pazeify_image(img: &RasterImage, cfg: ThresholdConfig) -> (out: Canvas)
    requires
        img.wf(),
    ensures
        out.wf(),
        out.width == img.width,
        out.height == img.height,
        out.pixels@ == spec_two_tone(*img, cfg),
{
    let bpp = img.layout.bytes_per_pixel();
    let len = img.data.len();
    let n = len / bpp;
    proof {
        assert(n == img.width * img.height) by (nonlinear_arith)
            requires
                len == img.width * img.height * bpp,
                n == (len as int) / (bpp as int),
                bpp == 3 || bpp == 4,
        ;
    }
    let mut pixels: Vec<OutputColor> = Vec::new();
    let mut i: usize = 0;
    let mut base: usize = 0;
    while i < n
        invariant
            len == img.data@.len(),
            bpp == img.layout.spec_bytes_per_pixel(),
            n == (len as int) / (bpp as int),
            n == img.width * img.height,
            0 <= i <= n,
            base == i * bpp,
            pixels@.len() == i,
            forall|j: int| 0 <= j < i ==> pixels@[j] == spec_two_tone(*img, cfg)[j],
        decreases n - i,
    {
        proof {
            assert((n as int) * (bpp as int) <= len) by (nonlinear_arith)
                requires
                    n == (len as int) / (bpp as int),
                    bpp == 3 || bpp == 4,
                    0 <= len,
            ;
            assert((i as int) * bpp + bpp <= (n as int) * (bpp as int)) by (nonlinear_arith)
                requires
                    i < n,
                    bpp == 3 || bpp == 4,
            ;
        }
        let l = luminance(img.data[base], img.data[base + 1], img.data[base + 2]);
        pixels.push(classify(l, cfg));
        i += 1;
        base += bpp;
    }
    proof {
        assert(pixels@ =~= spec_two_tone(*img, cfg));
    }
    Canvas { width: img.width, height: img.height, pixels }
}

/// The flat RGB byte rendering of a sequence of output colors: three bytes
/// per pixel, in pixel order.
pub open spec fn spec_rgb_bytes(pixels: Seq<OutputColor>) -> Seq<u8> {
    Seq::new(
        3 * pixels.len(),
        |k: int|
            if k % 3 == 0 {
                pixels[k / 3].spec_rgb().0
            } else if k % 3 == 1 {
                pixels[k / 3].spec_rgb().1
            } else {
                pixels[k / 3].spec_rgb().2
            },
    )
}

impl Canvas {
    /// The canvas as a flat RGB buffer, three bytes per pixel, for handing
    /// to an output sink.
    pub fn rgb_bytes(&self) -> (bytes: Vec<u8>)
        ensures
            bytes@ == spec_rgb_bytes(self.pixels@),
    {
        let n = self.pixels.len();
        let mut bytes: Vec<u8> = Vec::new();
        let mut i: usize = 0;
        while i < n
            invariant
                n == self.pixels@.len(),
                0 <= i <= n,
                bytes@.len() == 3 * i,
                forall|k: int| 0 <= k < 3 * i ==> bytes@[k] == spec_rgb_bytes(self.pixels@)[k],
            decreases n - i,
        {
            let (r, g, b) = self.pixels[i].rgb();
            bytes.push(r);
            bytes.push(g);
            bytes.push(b);
            i += 1;
        }
        proof {
            assert(bytes@ =~= spec_rgb_bytes(self.pixels@));
        }
        bytes
    }

}

/// Rendering a two-tone canvas again at threshold 127 without inversion
/// reproduces it exactly: the pipeline is idempotent on its own output.
pub proof fn lemma_pipeline_idempotent(c: Canvas, img: RasterImage)
    requires
        c.wf(),
        img.width == c.width,
        img.height == c.height,
        img.layout == ChannelLayout::Rgb,
        img.data@ == spec_rgb_bytes(c.pixels@),
    ensures
        img.wf(),
        spec_two_tone(img, (ThresholdConfig { threshold: 127, inverted: false })) == c.pixels@,
{
    let cfg = ThresholdConfig { threshold: 127, inverted: false };
    assert(img.data@.len() == 3 * c.pixels@.len());
    assert(img.wf()) by (nonlinear_arith)
        requires
            img.data@.len() == 3 * (c.width * c.height),
            img.layout.spec_bytes_per_pixel() == 3,
            img.width == c.width,
            img.height == c.height,
    ;
    assert forall|i: int| 0 <= i < c.pixels@.len() implies spec_two_tone(img, cfg)[i]
        == c.pixels@[i] by {
        let p = c.pixels@[i];
        assert(img.data@[3 * i] == p.spec_rgb().0);
        assert(img.data@[3 * i + 1] == p.spec_rgb().1);
        assert(img.data@[3 * i + 2] == p.spec_rgb().2);
        lemma_rethreshold_idempotent(p);
    }
    assert(spec_two_tone(img, cfg) =~= c.pixels@);
}

} // verus!
