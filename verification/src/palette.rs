//! Palettes of indexed-color frames: decoding the raw byte table into RGB
//! triples, and classifying an index buffer against a palette.

use vstd::prelude::*;
use crate::color::{classify, luminance, spec_classify, spec_luma, ThresholdConfig};
use crate::error::PazeError;

verus! {

/// An RGB triple, one entry of a palette.
#[derive(Clone, Copy, Debug, PartialEq, Eq, Structural)]
pub struct Rgb {
    pub r: u8,
    pub g: u8,
    pub b: u8,
}

/// The palette described by a raw byte table: one entry per complete
/// `[r, g, b]` triple, trailing bytes ignored.
pub open spec fn spec_palette(bytes: Seq<u8>) -> Seq<Rgb> {
    Seq::new(
        bytes.len() / 3,
        |i: int| (Rgb { r: bytes[3 * i], g: bytes[3 * i + 1], b: bytes[3 * i + 2] }),
    )
}

/// Decodes a raw palette byte table into RGB triples.
pub fn palette_from_bytes(bytes: &Vec<u8>) -> (p: Vec<Rgb>)
    ensures
        p@ == spec_palette(bytes@),
{
    let len = bytes.len();
    let n = len / 3;
    let mut p: Vec<Rgb> = Vec::new();
    let mut i: usize = 0;
    let mut base: usize = 0;
    while i < n
        invariant
            len == bytes@.len(),
            n == len / 3,
            0 <= i <= n,
            base == 3 * i,
            p@.len() == i,
            forall|j: int| 0 <= j < i ==> p@[j] == spec_palette(bytes@)[j],
        decreases n - i,
    {
        proof {
            assert(3 * (n as int) <= len);
        }
        let entry = Rgb { r: bytes[base], g: bytes[base + 1], b: bytes[base + 2] };
        p.push(entry);
        i += 1;
        base += 3;
    }
    proof {
        assert(p@ =~= spec_palette(bytes@));
    }
    p
}

/// Whether every index of the buffer resolves inside a palette of the given
/// length.
pub open spec fn indices_in_range(indices: Seq<u8>, palette_len: nat) -> bool {
    forall|i: int| 0 <= i < indices.len() ==> (indices[i] as nat) < palette_len
}

/// The luminance of one palette entry.
pub open spec fn spec_entry_luma(entry: Rgb) -> u8 {
    spec_luma(entry.r, entry.g, entry.b)
}

/// The two-tone index buffer that classifying each palette-resolved pixel
/// produces: `0` for black, `1` for yellow, positions in the fixed output
/// palette `[black, yellow]`.
pub open spec fn spec_tone_indices(
    indices: Seq<u8>,
    palette: Seq<Rgb>,
    cfg: ThresholdConfig,
) -> Seq<u8> {
    indices.map_values(
        |ix: u8| spec_classify(spec_entry_luma(palette[ix as int]), cfg).spec_palette_index(),
    )
}

/// Whether `e` is exactly the error that classifying `indices` against a
/// palette of length `palette_len` raises: the first out-of-range index,
/// with the palette length it overran.
pub open spec fn spec_oob_error_is(indices: Seq<u8>, palette_len: nat, e: PazeError) -> bool {
    exists|j: int|
        0 <= j < indices.len() && (indices[j] as nat) >= palette_len && (forall|k: int|
            0 <= k < j ==> (indices[k] as nat) < palette_len) && e == (PazeError::PaletteIndexOutOfRange {
            index: indices[j],
            palette_len: palette_len as usize,
        })
}

/// Resolves every index of a frame's pixel buffer against the palette in
/// effect, classifies the resolved color, and returns the two-tone index
/// buffer. An index beyond the palette is fatal: the first such index is
/// reported and nothing is produced.
pub fn classify_indexed(indices: &Vec<u8>, palette: &Vec<Rgb>, cfg: ThresholdConfig) -> (r: Result<
    Vec<u8>,
    PazeError,
>)
    ensures
        r is Ok <==> indices_in_range(indices@, palette@.len()),
        r matches Ok(out) ==> out@ == spec_tone_indices(indices@, palette@, cfg),
        r matches Err(e) ==> spec_oob_error_is(indices@, palette@.len(), e),
{
    let mut out: Vec<u8> = Vec::new();
    let mut i: usize = 0;
    let n = indices.len();
    while i < n
        invariant
            n == indices@.len(),
            0 <= i <= n,
            out@.len() == i,
            forall|k: int| 0 <= k < i ==> (indices@[k] as nat) < palette@.len(),
            forall|k: int| 0 <= k < i ==> out@[k] == spec_tone_indices(indices@, palette@, cfg)[k],
        decreases n - i,
    {
        let ix = indices[i];
        if (ix as usize) >= palette.len() {
            return Err(PazeError::PaletteIndexOutOfRange { index: ix, palette_len: palette.len() });
        }
        let entry = palette[ix as usize];
        let tone = classify(luminance(entry.r, entry.g, entry.b), cfg).palette_index();
        out.push(tone);
        i += 1;
    }
    proof {
        assert(out@ =~= spec_tone_indices(indices@, palette@, cfg));
    }
    Ok(out)
}

} // verus!
