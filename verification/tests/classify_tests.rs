use pazeify::color::{classify, luminance, OutputColor, ThresholdConfig};

fn cfg(threshold: u8, inverted: bool) -> ThresholdConfig {
    ThresholdConfig { threshold, inverted }
}

#[test]
fn default_config_is_128_not_inverted() {
    let c = ThresholdConfig::default();
    assert_eq!(c.threshold, 128);
    assert!(!c.inverted);
}

#[test]
fn luminance_exact_values() {
    // 2126*255 / 10000 = 54.2 -> weights sum to 10000, white stays white.
    assert_eq!(luminance(255, 255, 255), 255);
    assert_eq!(luminance(0, 0, 0), 0);
    // The yellow output color: (2126*255 + 7152*192) / 10000 = 191.
    assert_eq!(luminance(255, 192, 0), 191);
    // A mixed value: (2126*10 + 7152*20 + 722*30) / 10000 = 18.
    assert_eq!(luminance(10, 20, 30), 18);
    // Pure channels: 2126*255/10000 = 54, 7152*255/10000 = 182, 722*255/10000 = 18.
    assert_eq!(luminance(255, 0, 0), 54);
    assert_eq!(luminance(0, 255, 0), 182);
    assert_eq!(luminance(0, 0, 255), 18);
}

#[test]
fn classify_strictly_above_threshold_is_bright() {
    assert_eq!(classify(129, cfg(128, false)), OutputColor::Yellow);
    assert_eq!(classify(128, cfg(128, false)), OutputColor::Black);
    assert_eq!(classify(127, cfg(128, false)), OutputColor::Black);
    assert_eq!(classify(255, cfg(0, false)), OutputColor::Yellow);
    assert_eq!(classify(0, cfg(255, false)), OutputColor::Black);
}

#[test]
fn boundary_luma_equal_threshold_is_dark_for_every_threshold() {
    for t in 0..=255u8 {
        assert_eq!(classify(t, cfg(t, false)), OutputColor::Black);
        // And with inversion the dark bucket maps to yellow.
        assert_eq!(classify(t, cfg(t, true)), OutputColor::Yellow);
    }
}

#[test]
fn threshold_monotone_concrete() {
    // For fixed luma, raising the threshold can only move yellow -> black.
    for luma in [0u8, 50, 127, 128, 200, 255] {
        let mut was_yellow = true;
        for t in 0..=255u8 {
            let yellow = classify(luma, cfg(t, false)) == OutputColor::Yellow;
            assert!(!(yellow && !was_yellow), "brightness must be non-increasing");
            was_yellow = yellow;
        }
    }
}

#[test]
fn inversion_swaps_colors_for_all_inputs() {
    for luma in [0u8, 1, 127, 128, 129, 254, 255] {
        for t in [0u8, 1, 127, 128, 200, 255] {
            let plain = classify(luma, cfg(t, false));
            let inverted = classify(luma, cfg(t, true));
            let swapped = match plain {
                OutputColor::Black => OutputColor::Yellow,
                OutputColor::Yellow => OutputColor::Black,
            };
            assert_eq!(inverted, swapped);
        }
    }
}

#[test]
fn rethreshold_of_output_colors_is_identity() {
    for c in [OutputColor::Black, OutputColor::Yellow] {
        let (r, g, b) = c.rgb();
        assert_eq!(classify(luminance(r, g, b), cfg(127, false)), c);
    }
}

#[test]
fn output_color_palette_positions() {
    assert_eq!(OutputColor::Black.palette_index(), 0);
    assert_eq!(OutputColor::Yellow.palette_index(), 1);
    assert_eq!(OutputColor::Black.rgb(), (0, 0, 0));
    assert_eq!(OutputColor::Yellow.rgb(), (0xFF, 0xC0, 0x00));
}
