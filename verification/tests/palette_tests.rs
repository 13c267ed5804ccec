use pazeify::color::ThresholdConfig;
use pazeify::error::PazeError;
use pazeify::format::{input_format, str_eq, InputFormat};
use pazeify::palette::{classify_indexed, palette_from_bytes, Rgb};

#[test]
fn palette_from_bytes_chunks_triples() {
    let p = palette_from_bytes(&vec![1, 2, 3, 4, 5, 6, 7]);
    assert_eq!(p, vec![Rgb { r: 1, g: 2, b: 3 }, Rgb { r: 4, g: 5, b: 6 }]);
    assert_eq!(palette_from_bytes(&vec![]), vec![]);
}

#[test]
fn classify_indexed_resolves_and_classifies() {
    let palette = vec![
        Rgb { r: 0, g: 0, b: 0 },
        Rgb { r: 255, g: 255, b: 255 },
        Rgb { r: 255, g: 192, b: 0 },
    ];
    let cfg = ThresholdConfig { threshold: 128, inverted: false };
    let out = classify_indexed(&vec![0, 1, 2, 1, 0], &palette, cfg).unwrap();
    assert_eq!(out, vec![0, 1, 1, 1, 0]);
}

#[test]
fn out_of_range_index_is_rejected_with_first_offender() {
    let palette = vec![Rgb { r: 0, g: 0, b: 0 }, Rgb { r: 255, g: 255, b: 255 }];
    let cfg = ThresholdConfig::default();
    let err = classify_indexed(&vec![0, 1, 9, 4], &palette, cfg).unwrap_err();
    assert_eq!(err, PazeError::PaletteIndexOutOfRange { index: 9, palette_len: 2 });
}

#[test]
fn str_eq_compares_contents() {
    assert!(str_eq("gif", "gif"));
    assert!(!str_eq("gif", "png"));
    assert!(!str_eq("gif", "gifs"));
    assert!(str_eq("", ""));
}

#[test]
fn extension_routing() {
    assert_eq!(input_format("gif").unwrap(), InputFormat::Gif);
    for ext in ["png", "jpg", "jpeg", "webp", "avif"] {
        assert_eq!(input_format(ext).unwrap(), InputFormat::Image);
    }
}

#[test]
fn unknown_extension_is_rejected_and_echoed() {
    for ext in ["bmp", "GIF", "tiff", "unknown", ""] {
        let err = input_format(ext).unwrap_err();
        let pazeify::error::CommandError::InvalidExtension(s) = err;
        assert_eq!(s, ext);
    }
}
