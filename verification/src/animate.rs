//! The animated frame pipeline: each frame of an indexed-palette animation
//! is resolved against the palette in effect, classified pixel by pixel, and
//! re-encoded under the fixed two-entry palette `[black, yellow]`, with its
//! delay copied unchanged and the output marked to loop forever.
//!
//! Frames stream through one at a time: only one decoded and one
//! transformed frame are ever live. The encoded output accumulates in an
//! in-memory buffer, though; persisting it is the caller's business.

use vstd::prelude::*;
use crate::codec::{
    dec_clean_end, dec_frames, dec_live, enc_model, finish_encoder, gif_bytes, gif_info,
    new_encoder,
    open_gif_source, opt_bytes_view, read_frame, set_loop_forever, write_out_frame, EncModel,
    FrameData, FrameModel, GifInfo,
};
use crate::color::ThresholdConfig;
use crate::error::PazeError;
use crate::palette::{
    classify_indexed, indices_in_range, palette_from_bytes, spec_oob_error_is, spec_palette,
    spec_tone_indices,
};

verus! {

/// The raw bytes of the fixed two-entry output palette: black then yellow.
pub open spec fn spec_output_palette() -> Seq<u8> {
    seq![0u8, 0u8, 0u8, 0xFFu8, 0xC0u8, 0u8]
}

/// Builds the fixed two-entry output palette, black then yellow.
pub fn output_palette() -> (p: Vec<u8>)
    ensures
        p@ == spec_output_palette(),
{
    let p: Vec<u8> = vec![0, 0, 0, 0xFF, 0xC0, 0];
    proof {
        assert(p@ =~= spec_output_palette());
    }
    p
}

/// The palette in effect for a frame: its own local palette if it carries
/// one, otherwise the animation's global palette.
pub open spec fn spec_effective_palette(f: FrameModel, global: Option<Seq<u8>>) -> Option<
    Seq<u8>,
> {
    if f.local_palette is Some {
        f.local_palette
    } else {
        global
    }
}

/// Whether a frame can be transformed: a palette is in effect and every
/// pixel index resolves inside it.
pub open spec fn spec_frame_ok(f: FrameModel, global: Option<Seq<u8>>) -> bool {
    match spec_effective_palette(f, global) {
        Some(bytes) => indices_in_range(f.indices, spec_palette(bytes).len()),
        None => false,
    }
}

/// Whether every frame of a sequence can be transformed.
pub open spec fn spec_all_frames_ok(frames: Seq<FrameModel>, global: Option<Seq<u8>>) -> bool {
    forall|i: int| 0 <= i < frames.len() ==> spec_frame_ok(frames[i], global)
}

/// The transformed frame: same geometry and delay, no local palette, and the
/// two-tone index buffer that classifying each resolved pixel produces.
pub open spec fn spec_pazeified_frame(
    f: FrameModel,
    global: Option<Seq<u8>>,
    cfg: ThresholdConfig,
) -> FrameModel {
    let pal = spec_palette(
        match spec_effective_palette(f, global) {
            Some(bytes) => bytes,
            None => Seq::empty(),
        },
    );
    FrameModel { indices: spec_tone_indices(f.indices, pal, cfg), local_palette: None, ..f }
}

/// The transformed frame sequence.
pub open spec fn spec_pazeified_frames(
    frames: Seq<FrameModel>,
    global: Option<Seq<u8>>,
    cfg: ThresholdConfig,
) -> Seq<FrameModel> {
    Seq::new(frames.len(), |i: int| spec_pazeified_frame(frames[i], global, cfg))
}

/// Whether `e` is exactly the error transforming frame `f` raises: a fatal
/// decode error when no palette is in effect, otherwise the first palette
/// index out of range, with the length of the palette it overran.
pub open spec fn spec_frame_error_is(f: FrameModel, global: Option<Seq<u8>>, e: PazeError) -> bool {
    match spec_effective_palette(f, global) {
        Some(bytes) => spec_oob_error_is(f.indices, spec_palette(bytes).len(), e),
        None => e == PazeError::DecodeFailure,
    }
}

/// The model of the output animation for an accepted input: same dimensions,
/// the fixed two-entry palette, looping forever, and every frame transformed
/// with its delay kept.
pub open spec fn spec_output_model(info: GifInfo, cfg: ThresholdConfig) -> EncModel {
    EncModel {
        width: info.width,
        height: info.height,
        palette: spec_output_palette(),
        loop_forever: true,
        frames: spec_pazeified_frames(info.frames, info.global_palette, cfg),
    }
}

/// Transforms one decoded frame: resolves the palette in effect, classifies
/// every pixel, and builds the output frame with the same geometry and the
/// same delay. Fails if no palette is in effect or an index overruns it; no
/// output is produced then.
pub fn pazeify_frame(f: &FrameData, global: &Option<Vec<u8>>, cfg: ThresholdConfig) -> (r: Result<
    FrameData,
    PazeError,
>)
    ensures
        r is Ok <==> spec_frame_ok(f.model(), opt_bytes_view(*global)),
        r matches Ok(out) ==> out.model() == spec_pazeified_frame(
            f.model(),
            opt_bytes_view(*global),
            cfg,
        ),
        r matches Err(e) ==> spec_frame_error_is(f.model(), opt_bytes_view(*global), e),
{
    let pal_bytes: &Vec<u8> = match &f.local_palette {
        Some(p) => p,
        None => match global {
            Some(g) => g,
            None => {
                return Err(PazeError::DecodeFailure);
            },
        },
    };
    let palette = palette_from_bytes(pal_bytes);
    let tones = match classify_indexed(&f.indices, &palette, cfg) {
        Ok(t) => t,
        Err(e) => {
            return Err(e);
        },
    };
    Ok(
        FrameData {
            width: f.width,
            height: f.height,
            left: f.left,
            top: f.top,
            delay: f.delay,
            indices: tones,
            local_palette: None,
        },
    )
}

/// A frame with a palette in effect whose index buffer overruns it is
/// rejected with a palette-index error — never a decode failure, never
/// silently clamped. Stated for frames with a palette in effect: a frame
/// with none is itself a fatal decode error and is rejected as one.
pub proof fn lemma_out_of_range_rejected(f: FrameModel, global: Option<Seq<u8>>, e: PazeError)
    requires
        spec_effective_palette(f, global) is Some,
        spec_frame_error_is(f, global, e),
    ensures
        e is PaletteIndexOutOfRange,
{
}

/// Transforming a frame never touches its delay: whenever the transform
/// succeeds, the output frame's delay equals the input frame's, and its
/// geometry is unchanged too.
pub proof fn lemma_delay_preserved(f: FrameModel, global: Option<Seq<u8>>, cfg: ThresholdConfig)
    ensures
        spec_pazeified_frame(f, global, cfg).delay == f.delay,
        spec_pazeified_frame(f, global, cfg).width == f.width,
        spec_pazeified_frame(f, global, cfg).height == f.height,
{
}

/// Pazeifies a whole animation: decodes the input bytes, transforms every
/// frame, and re-encodes under the fixed two-entry palette, looping forever.
/// Succeeds exactly on inputs whose header is accepted, whose stream ends
/// cleanly, and whose every frame resolves inside the palette in effect; any
/// failure yields an error and no output at all.
pub fn pazeify_gif(input: Vec<u8>, cfg: ThresholdConfig) -> (r: Result<Vec<u8>, PazeError>)
    ensures
        r is Ok <==> ({
            &&& gif_info(input@).accepted
            &&& gif_info(input@).clean_end
            &&& spec_all_frames_ok(gif_info(input@).frames, gif_info(input@).global_palette)
        }),
        r matches Ok(out) ==> out@ == gif_bytes(spec_output_model(gif_info(input@), cfg)),
        !gif_info(input@).accepted ==> r == Err::<Vec<u8>, PazeError>(PazeError::DecodeFailure),
        gif_info(input@).accepted && !spec_all_frames_ok(
            gif_info(input@).frames,
            gif_info(input@).global_palette,
        ) ==> ({
            let frames = gif_info(input@).frames;
            let g = gif_info(input@).global_palette;
            r matches Err(e) && exists|k: int|
                0 <= k < frames.len() && !spec_frame_ok(frames[k], g) && (forall|m: int|
                    0 <= m < k ==> spec_frame_ok(frames[m], g)) && spec_frame_error_is(
                    frames[k],
                    g,
                    e,
                )
        }),
        gif_info(input@).accepted && spec_all_frames_ok(
            gif_info(input@).frames,
            gif_info(input@).global_palette,
        ) && !gif_info(input@).clean_end ==> r == Err::<Vec<u8>, PazeError>(
            PazeError::DecodeFailure,
        ),
{
    let ghost info = gif_info(input@);
    let mut src = match open_gif_source(input) {
        Ok(s) => s,
        Err(_) => {
            return Err(PazeError::DecodeFailure);
        },
    };
    let out_palette = output_palette();
    let mut enc = match new_encoder(src.width, src.height, &out_palette) {
        Ok(e) => e,
        Err(_) => {
            return Err(PazeError::EncodeFailure);
        },
    };
    match set_loop_forever(&mut enc) {
        Ok(()) => (),
        Err(_) => {
            return Err(PazeError::EncodeFailure);
        },
    };
    let ghost g = info.global_palette;
    let ghost mut i: int = 0;
    proof {
        assert(spec_pazeified_frames(info.frames, g, cfg).take(0) =~= Seq::<FrameModel>::empty());
        assert(info.frames.skip(0) =~= info.frames);
    }
    loop
        invariant
            info == gif_info(input@),
            info.accepted,
            g == info.global_palette,
            0 <= i <= info.frames.len(),
            src.width == info.width,
            src.height == info.height,
            opt_bytes_view(src.global_palette) == g,
            dec_frames(src.dec) == info.frames.skip(i),
            dec_clean_end(src.dec) == info.clean_end,
            dec_live(src.dec),
            forall|m: int| 0 <= m < i ==> spec_frame_ok(info.frames[m], g),
            enc_model(enc) == (EncModel {
                width: info.width,
                height: info.height,
                palette: spec_output_palette(),
                loop_forever: true,
                frames: spec_pazeified_frames(info.frames, g, cfg).take(i),
            }),
        ensures
            info.clean_end,
            forall|m: int| 0 <= m < info.frames.len() ==> spec_frame_ok(info.frames[m], g),
            enc_model(enc) == spec_output_model(info, cfg),
        decreases info.frames.len() - i,
    {
        proof {
            assert(dec_frames(src.dec).len() == info.frames.len() - i);
        }
        let fr = match read_frame(&mut src) {
            Ok(Some(f)) => f,
            Ok(None) => {
                proof {
                    assert(i == info.frames.len());
                    assert(spec_pazeified_frames(info.frames, g, cfg).take(i)
                        =~= spec_pazeified_frames(info.frames, g, cfg));
                }
                break ;
            },
            Err(_) => {
                return Err(PazeError::DecodeFailure);
            },
        };
        proof {
            assert(i < info.frames.len());
            assert(fr.model() == info.frames.skip(i)[0]);
            assert(info.frames.skip(i)[0] == info.frames[i]);
            assert(info.frames.skip(i).drop_first() =~= info.frames.skip(i + 1));
        }
        let out = match pazeify_frame(&fr, &src.global_palette, cfg) {
            Ok(o) => o,
            Err(e) => {
                return Err(e);
            },
        };
        proof {
            let pf = spec_pazeified_frame(fr.model(), g, cfg);
            assert(out.model() == pf);
            assert(pf.indices.len() == fr.model().indices.len());
            assert forall|k: int| 0 <= k < out.indices@.len() implies 3 * (out.indices@[k] as int)
                < enc_model(enc).palette.len() by {
                let pal = spec_palette(
                    match spec_effective_palette(fr.model(), g) {
                        Some(bytes) => bytes,
                        None => Seq::empty(),
                    },
                );
                assert(pf.indices[k] == spec_tone_indices(fr.model().indices, pal, cfg)[k]);
                assert(pf.indices[k] == 0 || pf.indices[k] == 1);
            }
        }
        match write_out_frame(&mut enc, &out) {
            Ok(()) => (),
            Err(_) => {
                return Err(PazeError::EncodeFailure);
            },
        };
        proof {
            let all = spec_pazeified_frames(info.frames, g, cfg);
            assert(all.take(i).push(all[i]) =~= all.take(i + 1));
            assert(all[i] == spec_pazeified_frame(info.frames[i], g, cfg));
            i = i + 1;
        }
    }
    match finish_encoder(enc) {
        Ok(bytes) => Ok(bytes),
        Err(_) => Err(PazeError::EncodeFailure),
    }
}

} // verus!
