//! The indexed-palette animation codec, as a capability-bounded interface:
//! the container format itself is the gif crate's work, reached only through
//! the trusted declarations and wrappers of this module. Everything the
//! pipeline decides — palette resolution, classification, delay and repeat
//! handling — is verified code elsewhere, stated over the models here.

use vstd::prelude::*;

verus! {

#[verifier::external_type_specification]
#[verifier::external_body]
pub struct ExDecodingError(gif::DecodingError);

#[verifier::external_type_specification]
#[verifier::external_body]
pub struct ExEncodingError(gif::EncodingError);

#[verifier::external_type_specification]
#[verifier::external_body]
pub struct ExIoError(std::io::Error);

#[verifier::external_type_specification]
#[verifier::external_body]
pub struct ExDynamicImage(image::DynamicImage);

/// The gif crate's decoder over an in-memory buffer. Held opaquely: its
/// generic bounds name traits Verus does not know, so the type cannot be
/// declared directly.
#[verifier::external_body]
pub struct GifDecoder {
    inner: gif::Decoder<std::io::Cursor<Vec<u8>>>,
}

/// The gif crate's encoder into an in-memory buffer, held opaquely for the
/// same reason as [`GifDecoder`].
#[verifier::external_body]
pub struct GifSink {
    inner: gif::Encoder<Vec<u8>>,
}

/// The mathematical model of one frame of an indexed-palette animation: its
/// geometry, its display delay in hundredths of a second, its pixel index
/// buffer, and its local palette if it carries one.
pub ghost struct FrameModel {
    pub width: u16,
    pub height: u16,
    pub left: u16,
    pub top: u16,
    pub delay: u16,
    pub indices: Seq<u8>,
    pub local_palette: Option<Seq<u8>>,
}

/// The mathematical model of a decoded animation stream: whether the header
/// was accepted, the screen dimensions, the global palette if present, the
/// frames the decoder yields in order, and whether the stream ends cleanly
/// after them (rather than in a decode error).
pub ghost struct GifInfo {
    pub accepted: bool,
    pub width: u16,
    pub height: u16,
    pub global_palette: Option<Seq<u8>>,
    pub frames: Seq<FrameModel>,
    pub clean_end: bool,
}

/// The mathematical model of an output animation under construction: the
/// screen dimensions and global palette it was created with, whether it was
/// marked to loop forever, and the frames written so far, in order.
pub ghost struct EncModel {
    pub width: u16,
    pub height: u16,
    pub palette: Seq<u8>,
    pub loop_forever: bool,
    pub frames: Seq<FrameModel>,
}

/// What the gif crate's decoder makes of a byte stream. Decoding is a pure
/// function of the bytes.
pub uninterp spec fn gif_info(bytes: Seq<u8>) -> GifInfo;

/// The frames a decoder has not yet yielded.
pub uninterp spec fn dec_frames(d: GifDecoder) -> Seq<FrameModel>;

/// Whether a decoder's stream ends cleanly after its remaining frames.
pub uninterp spec fn dec_clean_end(d: GifDecoder) -> bool;

/// Whether a decoder is live: freshly opened, or only ever read with
/// success. The gif crate's read loop does not return once it has surfaced
/// a decode error, so a read is only admitted on a live decoder.
pub uninterp spec fn dec_live(d: GifDecoder) -> bool;

/// The model of an output animation under construction. The wrappers below
/// keep it exact: creation fixes the dimensions and palette, the repeat mark
/// is only written while no frame is, and each write appends one frame.
pub uninterp spec fn enc_model(e: GifSink) -> EncModel;

/// The byte stream the gif crate's encoder produces for a finished model.
/// The wrappers' requires pin the call sequence an encoder can have seen —
/// creation, the loop mark at most once and only before any frame, then
/// frame writes in order — so the bytes are a pure function of the model.
pub uninterp spec fn gif_bytes(m: EncModel) -> Seq<u8>;

/// The view of an optional byte buffer.
pub open spec fn opt_bytes_view(o: Option<Vec<u8>>) -> Option<Seq<u8>> {
    match o {
        Some(v) => Some(v@),
        None => None,
    }
}

/// An open animation source: the decoder, plus the screen dimensions and
/// global palette read from its header when it was opened.
pub struct GifSource {
    pub dec: GifDecoder,
    pub width: u16,
    pub height: u16,
    pub global_palette: Option<Vec<u8>>,
}

/// One decoded frame, as plain values.
#[derive(Debug)]
pub struct FrameData {
    pub width: u16,
    pub height: u16,
    pub left: u16,
    pub top: u16,
    pub delay: u16,
    pub indices: Vec<u8>,
    pub local_palette: Option<Vec<u8>>,
}

impl FrameData {
    /// The model of this frame.
    pub open spec fn model(self) -> FrameModel {
        FrameModel {
            width: self.width,
            height: self.height,
            left: self.left,
            top: self.top,
            delay: self.delay,
            indices: self.indices@,
            local_palette: opt_bytes_view(self.local_palette),
        }
    }
}

/// Relies on gif::Decoder::new (default options: indexed color output), and
/// on Decoder::width, Decoder::height and Decoder::global_palette, each read
/// once right after the header is parsed. Decoding an in-memory buffer is
/// deterministic, so success and the values read are functions of the bytes.
#[verifier::external_body]
pub(crate) fn open_gif_source(bytes: Vec<u8>) -> (r: Result<GifSource, gif::DecodingError>)
    ensures
        r is Ok <==> gif_info(bytes@).accepted,
        r matches Ok(s) ==> ({
            &&& s.width == gif_info(bytes@).width
            &&& s.height == gif_info(bytes@).height
            &&& opt_bytes_view(s.global_palette) == gif_info(bytes@).global_palette
            &&& dec_frames(s.dec) == gif_info(bytes@).frames
            &&& dec_clean_end(s.dec) == gif_info(bytes@).clean_end
            &&& dec_live(s.dec)
        }),
{
    let dec = gif::Decoder::new(std::io::Cursor::new(bytes))?;
    let width = dec.width();
    let height = dec.height();
    let global_palette = dec.global_palette().map(|p| p.to_vec());
    Ok(GifSource { dec: GifDecoder { inner: dec }, width, height, global_palette })
}

/// Relies on gif::Decoder::read_next_frame: yields the next frame — index
/// buffer of exactly width * height bytes under indexed output, delay,
/// offsets, local palette — or None at the clean end of the stream, or an
/// error on malformed data. Only a live decoder may be read: after an error
/// the crate's read loop no longer returns, so an erred decoder stays dead.
#[verifier::external_body]
pub(crate) fn read_frame(s: &mut GifSource) -> (r: Result<
    Option<FrameData>,
    gif::DecodingError,
>)
    requires
        dec_live(old(s).dec),
    ensures
        r is Ok ==> dec_live(final(s).dec),
        final(s).width == old(s).width,
        final(s).height == old(s).height,
        final(s).global_palette == old(s).global_palette,
        dec_clean_end(final(s).dec) == dec_clean_end(old(s).dec),
        dec_frames(old(s).dec).len() > 0 ==> ({
            &&& r matches Ok(Some(f)) && f.model() == dec_frames(old(s).dec)[0]
            &&& dec_frames(final(s).dec) == dec_frames(old(s).dec).drop_first()
        }),
        dec_frames(old(s).dec).len() == 0 ==> dec_frames(final(s).dec) == dec_frames(old(s).dec),
        dec_frames(old(s).dec).len() == 0 && dec_clean_end(old(s).dec) ==> r matches Ok(None),
        dec_frames(old(s).dec).len() == 0 && !dec_clean_end(old(s).dec) ==> r is Err,
        r matches Ok(Some(f)) ==> f.indices@.len() == f.width * f.height,
{
    match s.dec.inner.read_next_frame()? {
        None => Ok(None),
        Some(fr) => Ok(Some(FrameData {
            width: fr.width,
            height: fr.height,
            left: fr.left,
            top: fr.top,
            delay: fr.delay,
            indices: fr.buffer.to_vec(),
            local_palette: fr.palette.clone(),
        })),
    }
}

/// Relies on gif::Encoder::new: writes the screen descriptor and the given
/// global palette into a fresh in-memory buffer. With at most 256 palette
/// entries it cannot fail: the only other error source is the underlying
/// writer, and writes to a Vec never fail.
#[verifier::external_body]
pub(crate) fn new_encoder(width: u16, height: u16, palette: &Vec<u8>) -> (r: Result<
    GifSink,
    gif::EncodingError,
>)
    requires
        palette@.len() % 3 == 0,
        palette@.len() <= 768,
    ensures
        r is Ok,
        r matches Ok(e) ==> enc_model(e) == (EncModel {
            width,
            height,
            palette: palette@,
            loop_forever: false,
            frames: Seq::<FrameModel>::empty(),
        }),
{
    let inner = gif::Encoder::new(Vec::new(), width, height, palette.as_slice())?;
    Ok(GifSink { inner })
}

/// Relies on gif::Encoder::set_repeat with Repeat::Infinite: writes the
/// extension that makes the animation loop forever. Restricted to a fresh,
/// not yet marked encoder — at most one extension, before any frame — so
/// that the final bytes stay a function of the model. Cannot fail: writes
/// to a Vec never fail.
#[verifier::external_body]
pub(crate) fn set_loop_forever(e: &mut GifSink) -> (r: Result<(), gif::EncodingError>)
    requires
        enc_model(*old(e)).frames.len() == 0,
        !enc_model(*old(e)).loop_forever,
    ensures
        r is Ok,
        enc_model(*final(e)) == (EncModel { loop_forever: true, ..enc_model(*old(e)) }),
{
    e.inner.set_repeat(gif::Repeat::Infinite)
}

/// Relies on gif::Encoder::write_frame: appends one frame, with its delay,
/// geometry and index buffer, drawn against the global palette. With no
/// local palette, a full index buffer and indices inside the global palette
/// it cannot fail: the encoder always has a global palette here, and writes
/// to a Vec never fail.
#[verifier::external_body]
pub(crate) fn write_out_frame(e: &mut GifSink, f: &FrameData) -> (r: Result<
    (),
    gif::EncodingError,
>)
    requires
        f.indices@.len() == f.width * f.height,
        f.local_palette is None,
        forall|i: int| 0 <= i < f.indices@.len() ==> 3 * (f.indices@[i] as int) < enc_model(
            *old(e),
        ).palette.len(),
    ensures
        r is Ok,
        enc_model(*final(e)) == (EncModel {
            frames: enc_model(*old(e)).frames.push(f.model()),
            ..enc_model(*old(e))
        }),
{
    let frame = gif::Frame {
        width: f.width,
        height: f.height,
        left: f.left,
        top: f.top,
        delay: f.delay,
        buffer: std::borrow::Cow::Borrowed(f.indices.as_slice()),
        ..gif::Frame::default()
    };
    e.inner.write_frame(&frame)
}

/// Relies on gif::Encoder::into_inner: writes the trailer and hands back the
/// finished byte buffer. Cannot fail: the only error source is the
/// underlying writer, and writes to a Vec never fail.
#[verifier::external_body]
pub(crate) fn finish_encoder(e: GifSink) -> (r: Result<Vec<u8>, std::io::Error>)
    ensures
        r is Ok,
        r matches Ok(bytes) ==> bytes@ == gif_bytes(enc_model(e)),
{
    e.inner.into_inner()
}

} // verus!
