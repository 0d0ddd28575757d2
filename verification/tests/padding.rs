use offscreen_frame::padding::{frame_fits, pad, staging_size, BYTES_PER_PIXEL, ROW_ALIGNMENT};

#[test]
fn constants_are_those_of_an_rgba_row() {
    assert_eq!(ROW_ALIGNMENT, 256);
    assert_eq!(BYTES_PER_PIXEL, 4);
}

#[test]
fn pad_keeps_aligned_lengths() {
    assert_eq!(pad(0), 0);
    assert_eq!(pad(256), 256);
    assert_eq!(pad(512), 512);
    assert_eq!(pad(65_536), 65_536);
    assert_eq!(pad(4_294_967_040), 4_294_967_040);
}

#[test]
fn pad_rounds_other_lengths_up() {
    assert_eq!(pad(1), 256);
    assert_eq!(pad(100), 256);
    assert_eq!(pad(200), 256);
    assert_eq!(pad(255), 256);
    assert_eq!(pad(257), 512);
    assert_eq!(pad(300), 512);
    assert_eq!(pad(511), 512);
    assert_eq!(pad(513), 768);
}

#[test]
fn pad_follows_the_remainder_formula() {
    for w in [0u32, 1, 2, 17, 128, 255, 256, 257, 300, 1000, 1023, 1024, 1025, 70_000, 1_000_003] {
        let expected = if w % 256 == 0 { u64::from(w) } else { u64::from(w) + u64::from(256 - w % 256) };
        assert_eq!(pad(w), expected, "pad({w})");
    }
}

#[test]
fn pad_of_the_largest_length_needs_more_than_32_bits() {
    assert_eq!(pad(u32::MAX), 4_294_967_296);
    assert_eq!(pad(4_294_967_041), 4_294_967_296);
}

#[test]
fn pad_is_idempotent() {
    for w in [0u32, 1, 99, 255, 256, 257, 300, 511, 512, 8191, 8192, 123_456_789] {
        let once = pad(w);
        let again = pad(u32::try_from(once).unwrap());
        assert_eq!(again, once, "pad(pad({w}))");
    }
}

#[test]
fn pad_gives_the_least_aligned_length_not_below() {
    for w in [0u32, 1, 255, 256, 257, 1000, 65_535, 65_537] {
        let p = pad(w);
        assert_eq!(p % 256, 0);
        assert!(p >= u64::from(w));
        assert!(p < u64::from(w) + 256);
    }
}

#[test]
fn staging_size_of_100_by_100() {
    assert_eq!(pad(100), 256);
    assert_eq!(staging_size(100, 100), 262_144);
}

#[test]
fn staging_size_of_300_by_200() {
    assert_eq!(pad(300), 512);
    assert_eq!(pad(200), 256);
    assert_eq!(staging_size(300, 200), 524_288);
}

#[test]
fn staging_size_is_four_bytes_per_padded_pixel() {
    for (w, h) in [(0u32, 0u32), (1, 1), (256, 256), (257, 1), (1, 257), (640, 480), (1920, 1080)] {
        assert_eq!(staging_size(w, h), 4 * pad(w) * pad(h), "{w} x {h}");
    }
    assert_eq!(staging_size(0, 0), 0);
    assert_eq!(staging_size(0, 100), 0);
    assert_eq!(staging_size(1, 1), 262_144);
    assert_eq!(staging_size(640, 480), 4 * 768 * 512);
    assert_eq!(staging_size(1920, 1080), 4 * 2048 * 1280);
}

#[test]
fn staging_size_of_the_largest_frame_that_fits() {
    assert!(frame_fits(1_073_741_568, 4_294_967_040));
    assert_eq!(staging_size(1_073_741_568, 4_294_967_040), 4 * 1_073_741_568u64 * 4_294_967_040u64);
}

#[test]
fn frame_fits_ordinary_sizes() {
    assert!(frame_fits(0, 0));
    assert!(frame_fits(1, 1));
    assert!(frame_fits(100, 100));
    assert!(frame_fits(300, 200));
    assert!(frame_fits(8192, 8192));
}

#[test]
fn frame_fits_up_to_a_row_stride_of_32_bits() {
    assert!(frame_fits(1_073_741_568, 1));
    assert!(frame_fits(1_073_741_567, 1));
    assert!(!frame_fits(1_073_741_569, 1));
    assert!(!frame_fits(u32::MAX, 1));
}

#[test]
fn frame_fits_up_to_a_row_count_of_32_bits() {
    assert!(frame_fits(1, 4_294_967_040));
    assert!(!frame_fits(1, 4_294_967_041));
    assert!(!frame_fits(1, u32::MAX));
    assert!(!frame_fits(u32::MAX, u32::MAX));
}
