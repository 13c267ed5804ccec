use pazeify::color::{OutputColor, ThresholdConfig};
use pazeify::raster::{pazeify_image, ChannelLayout, RasterImage};

fn cfg(threshold: u8, inverted: bool) -> ThresholdConfig {
    ThresholdConfig { threshold, inverted }
}

#[test]
fn static_pipeline_classifies_rgb_pixels() {
    // 2x2 RGB image: white, black, yellow-ish, dark gray.
    let img = RasterImage {
        width: 2,
        height: 2,
        layout: ChannelLayout::Rgb,
        data: vec![
            255, 255, 255, // luma 255 -> yellow
            0, 0, 0, // luma 0 -> black
            255, 192, 0, // luma 191 -> yellow
            40, 40, 40, // luma 40 -> black
        ],
    };
    let canvas = pazeify_image(&img, cfg(128, false));
    assert_eq!(canvas.width, 2);
    assert_eq!(canvas.height, 2);
    assert_eq!(
        canvas.pixels,
        vec![OutputColor::Yellow, OutputColor::Black, OutputColor::Yellow, OutputColor::Black]
    );
}

#[test]
fn static_pipeline_ignores_alpha() {
    let img = RasterImage {
        width: 2,
        height: 1,
        layout: ChannelLayout::Rgba,
        data: vec![255, 255, 255, 0, 10, 10, 10, 255],
    };
    let canvas = pazeify_image(&img, cfg(128, false));
    assert_eq!(canvas.pixels, vec![OutputColor::Yellow, OutputColor::Black]);
}

#[test]
fn static_pipeline_inverted_swaps_output() {
    let img = RasterImage {
        width: 2,
        height: 1,
        layout: ChannelLayout::Rgb,
        data: vec![255, 255, 255, 0, 0, 0],
    };
    let canvas = pazeify_image(&img, cfg(128, true));
    assert_eq!(canvas.pixels, vec![OutputColor::Black, OutputColor::Yellow]);
}

#[test]
fn dimension_preservation_static() {
    for (w, h) in [(1usize, 1usize), (3, 5), (7, 2), (16, 16)] {
        let img = RasterImage {
            width: w,
            height: h,
            layout: ChannelLayout::Rgb,
            data: vec![100; w * h * 3],
        };
        let canvas = pazeify_image(&img, ThresholdConfig::default());
        assert_eq!(canvas.width, w);
        assert_eq!(canvas.height, h);
        assert_eq!(canvas.pixels.len(), w * h);
    }
}

#[test]
fn rethresholding_two_tone_canvas_is_idempotent() {
    // Render an arbitrary image, feed the canvas bytes back in at 127,
    // not inverted: the result must be the same canvas.
    let img = RasterImage {
        width: 3,
        height: 2,
        layout: ChannelLayout::Rgb,
        data: vec![
            1, 2, 3, 200, 200, 200, 90, 14, 200, 255, 255, 0, 128, 128, 128, 129, 129, 129,
        ],
    };
    let first = pazeify_image(&img, ThresholdConfig::default());
    let reread = RasterImage {
        width: first.width,
        height: first.height,
        layout: ChannelLayout::Rgb,
        data: first.rgb_bytes(),
    };
    let second = pazeify_image(&reread, cfg(127, false));
    assert_eq!(second.width, first.width);
    assert_eq!(second.height, first.height);
    assert_eq!(second.pixels, first.pixels);
}

#[test]
fn canvas_rgb_bytes_layout() {
    let img = RasterImage {
        width: 2,
        height: 1,
        layout: ChannelLayout::Rgb,
        data: vec![255, 255, 255, 0, 0, 0],
    };
    let canvas = pazeify_image(&img, cfg(128, false));
    assert_eq!(canvas.rgb_bytes(), vec![0xFF, 0xC0, 0x00, 0, 0, 0]);
}
