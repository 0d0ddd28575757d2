use offscreen_frame::frame::{FrameRenderer, ImageFormat, InterpolationMode, MapSignal, Presentation};
use offscreen_frame::image::decode;

fn shown(image_width: u32, image_height: u32, format: ImageFormat) -> Presentation {
    Presentation {
        format,
        image_width,
        image_height,
        byte_len: 4 * u64::from(image_width) * u64::from(image_height),
        clip_width: image_width,
        clip_height: image_height,
        interpolation: InterpolationMode::NearestNeighbor,
    }
}

#[test]
fn decoded_image_holds_the_bytes_read_back() {
    let bytes: Vec<u8> = (0..24u8).collect();
    let image = decode(&shown(3, 2, ImageFormat::RgbaPremul), &bytes);
    assert_eq!(image.raw_pixels(), &bytes[..]);
    assert_eq!(image.width(), 3);
    assert_eq!(image.height(), 2);
    assert_eq!(image.format(), piet::ImageFormat::RgbaPremul);
}

#[test]
fn decoded_image_keeps_the_format_of_the_presentation() {
    let bytes = [10u8, 20, 30, 255];
    let image = decode(&shown(1, 1, ImageFormat::RgbaSeparate), &bytes);
    assert_eq!(image.format(), piet::ImageFormat::RgbaSeparate);
    assert_eq!(image.raw_pixels(), &bytes[..]);
    let image = decode(&shown(1, 1, ImageFormat::RgbaPremul), &bytes);
    assert_eq!(image.format(), piet::ImageFormat::RgbaPremul);
}

#[test]
fn decoded_image_of_an_empty_frame_is_empty() {
    let image = decode(&shown(0, 0, ImageFormat::RgbaPremul), &[]);
    assert_eq!(image.raw_pixels().len(), 0);
    assert_eq!(image.width(), 0);
    assert_eq!(image.height(), 0);
}

#[test]
fn decoded_image_of_a_paint_has_the_padded_size() {
    let mut renderer = FrameRenderer::new(3);
    renderer.begin_paint(300, 200);
    let shown = renderer.map_resolved(MapSignal::Ready).unwrap();
    let mut bytes = vec![0u8; 524_288];
    for (at, byte) in bytes.iter_mut().enumerate() {
        *byte = (at % 251) as u8;
    }
    assert_eq!(bytes.len() as u64, shown.byte_len);
    let image = decode(&shown, &bytes);
    renderer.end_paint();
    assert_eq!(image.width(), 512);
    assert_eq!(image.height(), 256);
    assert_eq!(image.raw_pixels().len(), 524_288);
    assert_eq!(image.raw_pixels(), &bytes[..]);
    assert_eq!(image.format(), piet::ImageFormat::RgbaPremul);
    let (drawn_width, drawn_height) = shown.drawn_size();
    assert_eq!((drawn_width, drawn_height), (300, 200));
    assert!(drawn_width as usize <= image.width());
    assert!(drawn_height as usize <= image.height());
}
