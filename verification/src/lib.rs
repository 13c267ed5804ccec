//! Two-tone ("pazeified") rendering of raster images and indexed-palette
//! animations: every pixel is classified as one of two fixed colors by a
//! luminance threshold, and animations are re-encoded under a fixed
//! two-entry palette with per-frame delays preserved and the repeat policy
//! forced to looping forever.

pub mod animate;
pub mod codec;
pub mod color;
pub mod error;
pub mod format;
pub mod palette;
pub mod raster;
