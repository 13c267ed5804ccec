//! Input format selection: which pipeline a file extension routes to, and
//! the open input a caller carries into it.

use vstd::prelude::*;
use crate::codec::GifDecoder;
use crate::error::CommandError;

verus! {

/// An opened input, ready for one of the two pipelines.
pub enum PazeifierType {
    /// An indexed-palette animation, routed to the animated pipeline.
    Gif(GifDecoder),
    /// A static raster image, routed to the static pipeline.
    Image(image::DynamicImage),
}

/// Which pipeline an input belongs to.
#[derive(Clone, Copy, Debug, PartialEq, Eq, Structural)]
pub enum InputFormat {
    /// The animated indexed-palette pipeline.
    Gif,
    /// The static raster pipeline.
    Image,
}

/// Compares two string slices character by character.
pub fn str_eq(a: &str, b: &str) -> (r: bool)
    ensures
        r == (a@ == b@),
{
    let n = a.unicode_len();
    if n != b.unicode_len() {
        return false;
    }
    let mut i: usize = 0;
    while i < n
        invariant
            n == a@.len(),
            n == b@.len(),
            0 <= i <= n,
            forall|j: int| 0 <= j < i ==> a@[j] == b@[j],
        decreases n - i,
    {
        if a.get_char(i) != b.get_char(i) {
            return false;
        }
        i += 1;
    }
    proof {
        assert(a@ =~= b@);
    }
    true
}

/// The extensions the static raster pipeline accepts.
pub open spec fn spec_is_image_ext(ext: Seq<char>) -> bool {
    ||| ext == "png"@
    ||| ext == "jpg"@
    ||| ext == "jpeg"@
    ||| ext == "webp"@
    ||| ext == "avif"@
}

/// Routes a file extension to a pipeline: `gif` to the animated one, the
/// known raster extensions to the static one; anything else is rejected,
/// with the extension echoed back.
pub fn input_format(ext: &str) -> (r: Result<InputFormat, CommandError>)
    ensures
        r == Ok::<InputFormat, CommandError>(InputFormat::Gif) <==> ext@ == "gif"@,
        r == Ok::<InputFormat, CommandError>(InputFormat::Image) <==> spec_is_image_ext(ext@),
        r matches Err(e) ==> ({
            &&& ext@ != "gif"@
            &&& !spec_is_image_ext(ext@)
            &&& e matches CommandError::InvalidExtension(s) && s@ == ext@
        }),
{
    proof {
        reveal_strlit("gif");
        reveal_strlit("png");
        reveal_strlit("jpg");
        reveal_strlit("jpeg");
        reveal_strlit("webp");
        reveal_strlit("avif");
        assert("gif"@[0] == 'g' && "png"@[0] == 'p' && "jpg"@[0] == 'j');
    }
    if str_eq(ext, "gif") {
        Ok(InputFormat::Gif)
    } else if str_eq(ext, "png") || str_eq(ext, "jpg") || str_eq(ext, "jpeg") || str_eq(ext, "webp")
        || str_eq(ext, "avif") {
        Ok(InputFormat::Image)
    } else {
        Err(CommandError::InvalidExtension(String::from_str(ext)))
    }
}

} // verus!
