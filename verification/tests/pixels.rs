use imgconv::codec::{decode_generic, drop_alpha, jpeg_request, Encoded, SourceData};
use imgconv::error::ConvertError;
use imgconv::format::ImageFormat;
use imgconv::orient::{apply_orientation, normalize_orientation};
use imgconv::preview::{fit_preview, preview_dimensions, PreviewSource, PreviewStep};
use imgconv::raster::{strip_stride, PixelBuffer, StridedPlane};
use imgconv::ImageProcessor;

/// A `width` by `height` buffer whose pixel at (x, y) is [x, y, x + 10 * y, 255].
fn numbered(width: u32, height: u32) -> PixelBuffer {
    let mut data = Vec::new();
    for y in 0..height {
        for x in 0..width {
            data.push(x as u8);
            data.push(y as u8);
            data.push((x + 10 * y) as u8);
            data.push(255);
        }
    }
    PixelBuffer::from_raw(width, height, data).unwrap()
}

fn source_pixel(x: u32, y: u32) -> [u8; 4] {
    [x as u8, y as u8, (x + 10 * y) as u8, 255]
}

/// Checks that `out` holds at every (x, y) the source pixel at `origin(x, y)`.
fn assert_mapping(out: &PixelBuffer, width: u32, height: u32, origin: fn(u32, u32) -> (u32, u32)) {
    assert_eq!((out.width, out.height), (width, height));
    assert_eq!(out.data.len(), (width * height * 4) as usize);
    for y in 0..height {
        for x in 0..width {
            let (sx, sy) = origin(x, y);
            assert_eq!(out.get_pixel(x, y), source_pixel(sx, sy), "at ({}, {})", x, y);
        }
    }
}

const W: u32 = 3;
const H: u32 = 2;

#[test]
fn from_raw_accepts_only_the_exact_length() {
    assert!(PixelBuffer::from_raw(2, 2, vec![0; 16]).is_some());
    assert!(PixelBuffer::from_raw(2, 2, vec![0; 15]).is_none());
    assert!(PixelBuffer::from_raw(2, 2, vec![0; 17]).is_none());
    assert!(PixelBuffer::from_raw(0, 7, Vec::new()).is_some());
}

#[test]
fn get_pixel_reads_row_major() {
    let buf = numbered(W, H);
    assert_eq!(buf.get_pixel(2, 1), [2, 1, 12, 255]);
    assert_eq!(buf.get_pixel(0, 0), [0, 0, 0, 255]);
}

#[test]
fn orientation_1_is_identity() {
    let out = apply_orientation(numbered(W, H), 1);
    assert_mapping(&out, W, H, |x, y| (x, y));
}

#[test]
fn orientation_2_flips_horizontally() {
    let out = apply_orientation(numbered(W, H), 2);
    assert_mapping(&out, W, H, |x, y| (W - 1 - x, y));
}

#[test]
fn orientation_3_rotates_180() {
    let out = apply_orientation(numbered(W, H), 3);
    assert_mapping(&out, W, H, |x, y| (W - 1 - x, H - 1 - y));
}

#[test]
fn orientation_4_flips_vertically() {
    let out = apply_orientation(numbered(W, H), 4);
    assert_mapping(&out, W, H, |x, y| (x, H - 1 - y));
}

#[test]
fn orientation_5_rotates_90_then_mirrors() {
    let out = apply_orientation(numbered(W, H), 5);
    assert_mapping(&out, H, W, |x, y| (y, x));
}

#[test]
fn orientation_6_rotates_90() {
    let out = apply_orientation(numbered(W, H), 6);
    assert_mapping(&out, H, W, |x, y| (y, H - 1 - x));
}

#[test]
fn orientation_7_rotates_270_then_mirrors() {
    let out = apply_orientation(numbered(W, H), 7);
    assert_mapping(&out, H, W, |x, y| (W - 1 - y, H - 1 - x));
}

#[test]
fn orientation_8_rotates_270() {
    let out = apply_orientation(numbered(W, H), 8);
    assert_mapping(&out, H, W, |x, y| (W - 1 - y, x));
}

#[test]
fn orientation_other_values_are_identity() {
    for tag in [0u32, 9, 100, u32::MAX] {
        let out = apply_orientation(numbered(W, H), tag);
        assert_mapping(&out, W, H, |x, y| (x, y));
    }
}

/// A TIFF container whose only field is the orientation.
fn tiff_with_orientation(tag: u8) -> Vec<u8> {
    vec![
        0x49, 0x49, 0x2A, 0x00, 0x08, 0x00, 0x00, 0x00, 0x01, 0x00, 0x12, 0x01, 0x03, 0x00, 0x01,
        0x00, 0x00, 0x00, tag, 0x00, 0x00, 0x00, 0x00, 0x00, 0x00, 0x00,
    ]
}

#[test]
fn normalizer_follows_the_stored_tag() {
    let out = normalize_orientation(&tiff_with_orientation(6), numbered(W, H));
    assert_mapping(&out, H, W, |x, y| (y, H - 1 - x));
    let out = normalize_orientation(&tiff_with_orientation(3), numbered(W, H));
    assert_mapping(&out, W, H, |x, y| (W - 1 - x, H - 1 - y));
}

#[test]
fn normalizer_without_metadata_changes_nothing() {
    let out = normalize_orientation(&[1, 2, 3, 4], numbered(W, H));
    assert_mapping(&out, W, H, |x, y| (x, y));
    let out = normalize_orientation(&[], numbered(W, H));
    assert_mapping(&out, W, H, |x, y| (x, y));
}

fn padded_plane(width: u32, height: u32, stride: usize) -> StridedPlane {
    let mut data = Vec::new();
    for y in 0..height {
        for k in 0..stride {
            if k < (width * 4) as usize {
                data.push((y as usize * 16 + k) as u8 % 0xE0);
            } else {
                data.push(0xEE);
            }
        }
    }
    StridedPlane { width, height, stride, data }
}

#[test]
fn stride_stripping_drops_the_padding() {
    let plane = padded_plane(2, 3, 13);
    let packed = strip_stride(&plane).unwrap();
    assert_eq!((packed.width, packed.height), (2, 3));
    assert_eq!(packed.data.len(), 2 * 3 * 4);
    assert!(packed.data.iter().all(|b| *b != 0xEE));
    for y in 0..3usize {
        for k in 0..8usize {
            assert_eq!(packed.data[y * 8 + k], plane.data[y * 13 + k]);
        }
    }
}

#[test]
fn stride_stripping_accepts_a_short_last_row() {
    let mut plane = padded_plane(2, 2, 12);
    plane.data.truncate(12 + 8);
    let packed = strip_stride(&plane).unwrap();
    assert_eq!(packed.data.len(), 16);
}

#[test]
fn stride_stripping_refuses_malformed_planes() {
    let mut short = padded_plane(2, 2, 12);
    short.data.truncate(12 + 7);
    assert!(strip_stride(&short).is_none());
    let narrow = StridedPlane { width: 2, height: 1, stride: 7, data: vec![0; 64] };
    assert!(strip_stride(&narrow).is_none());
    let empty = StridedPlane { width: 2, height: 0, stride: 8, data: Vec::new() };
    assert_eq!(strip_stride(&empty).unwrap().data.len(), 0);
}

#[test]
fn heic_plane_loads_without_orientation_change() {
    let plane = padded_plane(2, 3, 16);
    let img = ImageProcessor::load_image("IMG_0001.HEIC", &SourceData::HeicPlane(plane)).unwrap();
    assert_eq!((img.width, img.height), (2, 3));
    assert!(img.data.iter().all(|b| *b != 0xEE));
}

#[test]
fn heic_plane_that_is_malformed_is_a_decode_error() {
    let plane = StridedPlane { width: 4, height: 4, stride: 16, data: vec![0; 10] };
    let err = ImageProcessor::load_heic("/in/a.heic", &plane).unwrap_err();
    match &err {
        ConvertError::Decode { path, cause } => {
            assert_eq!(path, "/in/a.heic");
            assert_eq!(cause, "Failed to create RGBA image from HEIC data");
        }
        other => panic!("expected a decode error, got {:?}", other),
    }
    assert_eq!(err.message(), "/in/a.heic: Failed to create RGBA image from HEIC data");
}

#[test]
fn source_that_does_not_fit_the_decoder_is_a_decode_error() {
    let err = ImageProcessor::load_image("a.heif", &SourceData::Encoded(vec![1, 2, 3])).unwrap_err();
    assert!(matches!(err, ConvertError::Decode { .. }));
    assert_eq!(err.message(), "a.heif: Failed to read HEIC file");
    let plane = padded_plane(1, 1, 4);
    let err = ImageProcessor::load_image("a.png", &SourceData::HeicPlane(plane)).unwrap_err();
    assert!(matches!(err, ConvertError::Decode { .. }));
    assert_eq!(err.message(), "a.png: Failed to open image");
}

#[test]
fn garbage_is_a_decode_error() {
    let err = decode_generic("/in/noise.png", &[0, 1, 2, 3, 4, 5]).unwrap_err();
    match &err {
        ConvertError::Decode { path, cause } => {
            assert_eq!(path, "/in/noise.png");
            assert!(!cause.is_empty());
            assert_eq!(err.message(), format!("/in/noise.png: {}", cause));
        }
        other => panic!("expected a decode error, got {:?}", other),
    }
    let err = ImageProcessor::load_image("/in/noise.png", &SourceData::Encoded(vec![9; 40]))
        .unwrap_err();
    assert!(matches!(&err, ConvertError::Decode { path, .. } if path == "/in/noise.png"));
}

fn png_of(img: &PixelBuffer) -> Vec<u8> {
    match ImageProcessor::save_image(img, ImageFormat::Png, 0).unwrap() {
        Encoded::File(bytes) => bytes,
        Encoded::Jpeg(_) => panic!("PNG gives a finished file"),
    }
}

#[test]
fn png_round_trip_is_pixel_identical() {
    let img = numbered(5, 4);
    let file = png_of(&img);
    assert_eq!(&file[1..4], b"PNG");
    let back = ImageProcessor::load_image("out.png", &SourceData::Encoded(file)).unwrap();
    assert_eq!((back.width, back.height), (5, 4));
    assert_eq!(back.data, img.data);
}

#[test]
fn png_ignores_the_quality() {
    let img = numbered(3, 3);
    let a = ImageProcessor::save_image(&img, ImageFormat::Png, 1).unwrap();
    let b = ImageProcessor::save_image(&img, ImageFormat::Png, 100).unwrap();
    match (a, b) {
        (Encoded::File(a), Encoded::File(b)) => assert_eq!(a, b),
        _ => panic!("PNG gives a finished file"),
    }
}

#[test]
fn jpeg_request_drops_alpha() {
    let img = PixelBuffer::from_raw(2, 1, vec![1, 2, 3, 4, 5, 6, 7, 8]).unwrap();
    assert_eq!(drop_alpha(&img), vec![1, 2, 3, 5, 6, 7]);
    let req = jpeg_request(&img, 90);
    assert_eq!((req.width, req.height, req.quality, req.chroma_2x2), (2, 1, 90, true));
    assert_eq!(req.rgb, vec![1, 2, 3, 5, 6, 7]);
    match ImageProcessor::save_image(&img, ImageFormat::Jpeg, 75).unwrap() {
        Encoded::Jpeg(req) => {
            assert_eq!(req.rgb, vec![1, 2, 3, 5, 6, 7]);
            assert_eq!(req.quality, 75);
        }
        Encoded::File(_) => panic!("JPEG gives a request for the compressor"),
    }
}

#[test]
fn jpeg_round_trip_keeps_the_dimensions() {
    let img = numbered(16, 8);
    let req = jpeg_request(&img, 80);
    let mut file = Vec::new();
    let encoder = image::codecs::jpeg::JpegEncoder::new_with_quality(&mut file, req.quality);
    image::ImageEncoder::write_image(
        encoder,
        &req.rgb,
        req.width,
        req.height,
        image::ExtendedColorType::Rgb8,
    )
    .unwrap();
    let back = ImageProcessor::load_image("out.jpg", &SourceData::Encoded(file)).unwrap();
    assert_eq!((back.width, back.height), (16, 8));
    assert_eq!(back.data.len(), 16 * 8 * 4);
}

#[test]
fn other_output_formats_are_refused() {
    let img = numbered(2, 2);
    for format in [ImageFormat::Gif, ImageFormat::Bmp, ImageFormat::Tiff, ImageFormat::WebP] {
        let err = ImageProcessor::save_image(&img, format, 80).unwrap_err();
        assert!(matches!(err, ConvertError::UnsupportedFormat));
    }
}

#[test]
fn preview_dimensions_scale_the_longer_side_to_the_bound() {
    assert_eq!(preview_dimensions(4000, 3000, 800), (800, 600));
    assert_eq!(preview_dimensions(3000, 4000, 800), (600, 800));
    assert_eq!(preview_dimensions(801, 1, 800), (800, 0));
    assert_eq!(preview_dimensions(800, 800, 800), (800, 800));
    assert_eq!(preview_dimensions(640, 480, 800), (640, 480));
    assert_eq!(preview_dimensions(1000, 333, 100), (100, 33));
    assert_eq!(preview_dimensions(0, 5000, 800), (0, 5000));
}

#[test]
fn fallback_preview_fits_the_bound() {
    let out = fit_preview(numbered(40, 30), 8);
    assert_eq!((out.width, out.height), (8, 6));
    assert_eq!(out.data.len(), 8 * 6 * 4);
    let out = fit_preview(numbered(30, 40), 8);
    assert_eq!((out.width, out.height), (6, 8));
}

#[test]
fn fallback_preview_leaves_small_images_alone() {
    let out = fit_preview(numbered(8, 6), 8);
    assert_eq!((out.width, out.height), (8, 6));
    assert_eq!(out.data, numbered(8, 6).data);
}

#[test]
fn thumbnail_beyond_the_bound_is_scaled() {
    let thumb = padded_plane(32, 16, 32 * 4);
    match ImageProcessor::load_heic_thumbnail("/in/a.heic", &PreviewSource::Thumbnail(thumb), 8) {
        PreviewStep::Ready(img) => assert_eq!((img.width, img.height), (8, 4)),
        other => panic!("expected a preview, got {:?}", other),
    }
}

#[test]
fn thumbnail_is_used_as_it_is() {
    let thumb = padded_plane(800, 600, 800 * 4 + 32);
    match ImageProcessor::load_heic_thumbnail("/in/a.heic", &PreviewSource::Thumbnail(thumb), 800) {
        PreviewStep::Ready(img) => {
            assert_eq!((img.width, img.height), (800, 600));
            assert_eq!(img.width.max(img.height), 800);
        }
        other => panic!("expected a preview, got {:?}", other),
    }
}

#[test]
fn unusable_thumbnail_asks_for_the_full_image() {
    let thumb = StridedPlane { width: 8, height: 8, stride: 32, data: vec![0; 31] };
    let step = ImageProcessor::load_heic_thumbnail("/in/a.heic", &PreviewSource::Thumbnail(thumb), 800);
    assert!(matches!(step, PreviewStep::NeedFullDecode));
}

#[test]
fn full_image_is_scaled_for_the_preview() {
    let full = padded_plane(40, 20, 40 * 4 + 8);
    match ImageProcessor::load_heic_thumbnail("/in/a.heic", &PreviewSource::Full(full), 10) {
        PreviewStep::Ready(img) => assert_eq!((img.width, img.height), (10, 5)),
        other => panic!("expected a preview, got {:?}", other),
    }
    let small = padded_plane(4, 2, 16);
    match ImageProcessor::load_heic_thumbnail("/in/a.heic", &PreviewSource::Full(small), 10) {
        PreviewStep::Ready(img) => assert_eq!((img.width, img.height), (4, 2)),
        other => panic!("expected a preview, got {:?}", other),
    }
}

#[test]
fn malformed_full_image_fails_the_preview() {
    let full = StridedPlane { width: 8, height: 8, stride: 32, data: vec![0; 31] };
    let step = ImageProcessor::load_heic_thumbnail("/in/a.heic", &PreviewSource::Full(full), 800);
    match step {
        PreviewStep::Failed(ConvertError::Decode { path, cause }) => {
            assert_eq!(path, "/in/a.heic");
            assert_eq!(cause, "Failed to create RGBA image from HEIC data");
        }
        other => panic!("expected a decode error, got {:?}", other),
    }
}

#[test]
fn preview_of_a_plane_without_pixels_stays_within_the_bound() {
    let tall = StridedPlane { width: 0, height: 5000, stride: 0, data: Vec::new() };
    for source in [PreviewSource::Thumbnail(StridedPlane { width: 0, height: 5000, stride: 0, data: Vec::new() }), PreviewSource::Full(tall)] {
        match ImageProcessor::load_heic_thumbnail("/in/a.heic", &source, 800) {
            PreviewStep::Ready(img) => {
                assert_eq!((img.width, img.height), (0, 800));
                assert!(img.data.is_empty());
            }
            other => panic!("expected a preview, got {:?}", other),
        }
    }
    let wide = PixelBuffer::from_raw(900, 0, Vec::new()).unwrap();
    let out = fit_preview(wide, 800);
    assert_eq!((out.width, out.height, out.data.len()), (800, 0, 0));
    let small = PixelBuffer::from_raw(0, 7, Vec::new()).unwrap();
    let out = fit_preview(small, 800);
    assert_eq!((out.width, out.height), (0, 7));
}

#[test]
fn scaled_preview_keeps_the_proportions() {
    for (w, h, max) in [(40u32, 30u32, 8u32), (30, 40, 8), (100, 1, 10), (1, 100, 10), (37, 23, 5)] {
        let out = fit_preview(numbered(w, h), max);
        assert!(out.width >= 1 && out.height >= 1);
        assert!(out.width <= max && out.height <= max);
        let skew = (out.width as i64 * h as i64 - out.height as i64 * w as i64).abs();
        assert!(skew <= (w + h) as i64, "{}x{} -> {}x{}", w, h, out.width, out.height);
        assert_eq!(out.data.len(), (out.width * out.height * 4) as usize);
    }
}

#[test]
fn container_is_named_by_the_extension() {
    let file = png_of(&numbered(2, 2));
    assert!(ImageProcessor::load_image("pic.PNG", &SourceData::Encoded(file.clone())).is_ok());
    for path in ["pic.jpg", "pic", "pic.xyz"] {
        let err = ImageProcessor::load_image(path, &SourceData::Encoded(file.clone())).unwrap_err();
        assert!(matches!(&err, ConvertError::Decode { path: p, .. } if p == path));
    }
}
