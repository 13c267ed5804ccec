//! Luminance conversion and the threshold classifier: the per-pixel core
//! shared by the static and the animated pipeline.

use vstd::prelude::*;

verus! {

/// One of the two fixed output colors. Every pixel of a pazeified image is
/// exactly one of these.
#[derive(Clone, Copy, Debug, PartialEq, Eq, Structural)]
pub enum OutputColor {
    /// `(0, 0, 0)`.
    Black,
    /// `(255, 192, 0)`.
    Yellow,
}

impl OutputColor {
    /// The RGB triple of this color.
    pub open spec fn spec_rgb(self) -> (u8, u8, u8) {
        match self {
            OutputColor::Black => (0u8, 0u8, 0u8),
            OutputColor::Yellow => (0xFFu8, 0xC0u8, 0u8),
        }
    }

    /// The RGB triple of this color.
    pub fn rgb(self) -> (t: (u8, u8, u8))
        ensures
            t == self.spec_rgb(),
    {
        match self {
            OutputColor::Black => (0, 0, 0),
            OutputColor::Yellow => (0xFF, 0xC0, 0x00),
        }
    }

    /// The position of this color in the fixed two-entry output palette
    /// `[black, yellow]`.
    pub open spec fn spec_palette_index(self) -> u8 {
        match self {
            OutputColor::Black => 0u8,
            OutputColor::Yellow => 1u8,
        }
    }

    /// The position of this color in the fixed two-entry output palette.
    pub fn palette_index(self) -> (i: u8)
        ensures
            i == self.spec_palette_index(),
    {
        match self {
            OutputColor::Black => 0,
            OutputColor::Yellow => 1,
        }
    }

    /// The other of the two output colors.
    pub open spec fn spec_swapped(self) -> OutputColor {
        match self {
            OutputColor::Black => OutputColor::Yellow,
            OutputColor::Yellow => OutputColor::Black,
        }
    }
}

/// The two tunables of a pipeline invocation: the luminance threshold and
/// the polarity flag.
#[derive(Clone, Copy, Debug, PartialEq, Eq, Structural)]
pub struct ThresholdConfig {
    /// Luminance values strictly above this bound fall in the bright bucket.
    pub threshold: u8,
    /// When set, the bright bucket maps to black and the dark one to yellow.
    pub inverted: bool,
}

impl Default for ThresholdConfig {
    /// The default configuration: threshold 128, not inverted.
    fn default() -> (c: ThresholdConfig)
        ensures
            c.threshold == 128,
            !c.inverted,
    {
        ThresholdConfig { threshold: 128, inverted: false }
    }
}

/// The 8-bit luminance of an RGB triple under the standard perceptual
/// weighting `(2126 r + 7152 g + 722 b) / 10000`.
pub open spec fn spec_luma(r: u8, g: u8, b: u8) -> u8 {
    ((2126 * (r as int) + 7152 * (g as int) + 722 * (b as int)) / 10000) as u8
}

/// Computes the 8-bit luminance of an RGB triple.
pub fn luminance(r: u8, g: u8, b: u8) -> (l: u8)
    ensures
        l == spec_luma(r, g, b),
{
    let weighted: u32 = 2126 * (r as u32) + 7152 * (g as u32) + 722 * (b as u32);
    (weighted / 10000) as u8
}

/// Maps a luminance to one of the two output colors: luminance strictly
/// above the threshold is bright, everything else dark; without inversion
/// bright is yellow and dark is black, with inversion the two are swapped.
pub open spec fn spec_classify(luma: u8, cfg: ThresholdConfig) -> OutputColor {
    if (luma > cfg.threshold) != cfg.inverted {
        OutputColor::Yellow
    } else {
        OutputColor::Black
    }
}

/// Maps a luminance to one of the two output colors.
pub fn classify(luma: u8, cfg: ThresholdConfig) -> (c: OutputColor)
    ensures
        c == spec_classify(luma, cfg),
{
    if (luma > cfg.threshold) != cfg.inverted {
        OutputColor::Yellow
    } else {
        OutputColor::Black
    }
}

/// Raising the threshold never turns a dark pixel bright: with inversion off,
/// a pixel that is yellow under the higher threshold is yellow under the
/// lower one as well.
pub proof fn lemma_threshold_monotone(luma: u8, lo: ThresholdConfig, hi: ThresholdConfig)
    requires
        !lo.inverted,
        !hi.inverted,
        lo.threshold <= hi.threshold,
    ensures
        spec_classify(luma, hi) == OutputColor::Yellow ==> spec_classify(luma, lo)
            == OutputColor::Yellow,
{
}

/// Inverting the polarity yields exactly the swapped color of the
/// non-inverted classification, for every luminance and threshold.
pub proof fn lemma_inversion_symmetry(luma: u8, threshold: u8)
    ensures
        spec_classify(luma, (ThresholdConfig { threshold, inverted: true })) == spec_classify(
            luma,
            (ThresholdConfig { threshold, inverted: false }),
        ).spec_swapped(),
{
}

/// A luminance exactly equal to the threshold falls in the dark bucket: with
/// inversion off it is classified black, for every threshold.
pub proof fn lemma_boundary_dark(threshold: u8)
    ensures
        spec_classify(threshold, (ThresholdConfig { threshold, inverted: false }))
            == OutputColor::Black,
{
}

/// Re-thresholding is idempotent at threshold 127 without inversion: the
/// luminance of either output color classifies back to that same color.
pub proof fn lemma_rethreshold_idempotent(c: OutputColor)
    ensures
        spec_classify(
            spec_luma(c.spec_rgb().0, c.spec_rgb().1, c.spec_rgb().2),
            (ThresholdConfig { threshold: 127, inverted: false }),
        ) == c,
{
}

} // verus!
