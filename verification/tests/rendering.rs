use miniaturo::bitmap::Bitmap;
use miniaturo::bitmap::ThumbnailFormat;
use miniaturo::decoder::to_image;
use miniaturo::error::ThumbError;
use miniaturo::orientation::ExifOrientation;
use miniaturo::writer::fits_resize_limits;
use miniaturo::writer::render_thumbnail;

/// A 2 x 1 source bitmap whose left pixel is red and right pixel is blue.
fn red_blue_row() -> Bitmap {
    let data = vec![255u8, 0, 0, 0, 0, 255];
    to_image(data, ThumbnailFormat::Rgb8Pixmap, 2, 1).unwrap()
}

/// A black source bitmap of the given dimensions, from a full raw buffer.
fn black_bitmap(width: u32, height: u32) -> Bitmap {
    let data = vec![0u8; (width * height * 3) as usize];
    to_image(data, ThumbnailFormat::Rgb8Pixmap, width, height).unwrap()
}

fn decode_png(bytes: &[u8]) -> image::DynamicImage {
    image::load_from_memory_with_format(bytes, image::ImageFormat::Png).unwrap()
}

#[test]
fn output_is_always_png() {
    let b = black_bitmap(4, 4);
    let o = ExifOrientation::from_exif(1).unwrap();
    let png = render_thumbnail(&b, o, 4).unwrap();
    assert_eq!(&png.bytes[0..8], &[0x89, 0x50, 0x4e, 0x47, 0x0d, 0x0a, 0x1a, 0x0a]);
}

#[test]
fn rotation_for_tag_6_turns_clockwise() {
    // Tag 6: rotate 90 degrees clockwise, no mirror. The red-blue row
    // becomes a column with red on top.
    let b = red_blue_row();
    let o = ExifOrientation::from_exif(6).unwrap();
    let png = render_thumbnail(&b, o, 2).unwrap();
    assert_eq!((png.width, png.height), (1, 2));
    let rgb = decode_png(&png.bytes).to_rgb8();
    assert_eq!((rgb.width(), rgb.height()), (1, 2));
    assert_eq!(rgb.get_pixel(0, 0).0, [255u8, 0, 0]);
    assert_eq!(rgb.get_pixel(0, 1).0, [0u8, 0, 255]);
}

#[test]
fn mirror_happens_before_rotation() {
    // Tag 5: mirror horizontally, then rotate 90 degrees clockwise. The
    // red-blue row mirrors to blue-red, and the column then has blue on
    // top. Rotating first and mirroring afterwards would leave red on top,
    // since a one-pixel-wide column is unchanged by a horizontal mirror.
    let b = red_blue_row();
    let o = ExifOrientation::from_exif(5).unwrap();
    let png = render_thumbnail(&b, o, 2).unwrap();
    let rgb = decode_png(&png.bytes).to_rgb8();
    assert_eq!((rgb.width(), rgb.height()), (1, 2));
    assert_eq!(rgb.get_pixel(0, 0).0, [0u8, 0, 255]);
    assert_eq!(rgb.get_pixel(0, 1).0, [255u8, 0, 0]);
}

#[test]
fn mirror_for_tag_2_flips_horizontally() {
    let b = red_blue_row();
    let o = ExifOrientation::from_exif(2).unwrap();
    let png = render_thumbnail(&b, o, 2).unwrap();
    let rgb = decode_png(&png.bytes).to_rgb8();
    assert_eq!((rgb.width(), rgb.height()), (2, 1));
    assert_eq!(rgb.get_pixel(0, 0).0, [0u8, 0, 255]);
    assert_eq!(rgb.get_pixel(1, 0).0, [255u8, 0, 0]);
}

#[test]
fn rotation_for_tag_3_turns_half() {
    let b = red_blue_row();
    let o = ExifOrientation::from_exif(3).unwrap();
    let png = render_thumbnail(&b, o, 2).unwrap();
    let rgb = decode_png(&png.bytes).to_rgb8();
    assert_eq!((rgb.width(), rgb.height()), (2, 1));
    assert_eq!(rgb.get_pixel(0, 0).0, [0u8, 0, 255]);
    assert_eq!(rgb.get_pixel(1, 0).0, [255u8, 0, 0]);
}

#[test]
fn requested_sizes_bound_the_longer_dimension() {
    // A source larger than the request is scaled down so that its longer
    // dimension equals the requested size, preserving the aspect ratio.
    let o = ExifOrientation::from_exif(1).unwrap();
    for size in [128u32, 256, 512] {
        let b = black_bitmap(1024, 512);
        let png = render_thumbnail(&b, o, size).unwrap();
        let decoded = decode_png(&png.bytes);
        assert_eq!((decoded.width(), decoded.height()), (png.width, png.height));
        assert_eq!(decoded.width(), size);
        assert!(decoded.height() <= size);
    }
}

#[test]
fn small_sources_are_not_scaled_up() {
    // A source that already fits within the requested size keeps its native
    // dimensions, whatever the request.
    let o = ExifOrientation::from_exif(1).unwrap();
    for size in [64u32, 128, 256, 512] {
        let b = black_bitmap(64, 32);
        let png = render_thumbnail(&b, o, size).unwrap();
        let decoded = decode_png(&png.bytes);
        assert_eq!((decoded.width(), decoded.height()), (64, 32));
    }
}

#[test]
fn zero_sized_bitmap_is_an_encode_error() {
    // An empty pixmap is representable, but PNG cannot encode a zero
    // dimension.
    let b = to_image(Vec::new(), ThumbnailFormat::Rgb8Pixmap, 0, 0).unwrap();
    let o = ExifOrientation::from_exif(1).unwrap();
    let r = render_thumbnail(&b, o, 4);
    assert_eq!(r.err(), Some(ThumbError::EncodeError));
}

#[test]
fn size_zero_yields_a_minimal_image() {
    let b = black_bitmap(4, 4);
    let o = ExifOrientation::from_exif(1).unwrap();
    let png = render_thumbnail(&b, o, 0).unwrap();
    let decoded = decode_png(&png.bytes);
    assert_eq!((decoded.width(), decoded.height()), (1, 1));
}

#[test]
fn resize_limit_check_reflects_the_machine() {
    assert!(fits_resize_limits(4, 4, 128));
    assert!(fits_resize_limits(u32::MAX, 1, 128));
    // A source that needs no resize needs nothing of the machine.
    assert!(fits_resize_limits(u32::MAX, u32::MAX, u32::MAX));
    // One that does, at an absurd requested size, exceeds what is addressable.
    assert!(!fits_resize_limits(u32::MAX, 1, 0x8000_0000));
}
