use raster::{decode_png, encode_png, image_from_png_frame, Image, ImageFormat, PngFrame, RasterError, SourceColorLayout};

fn png_of(width: u32, height: u32, color: png::ColorType, palette: Option<Vec<u8>>, data: &[u8]) -> Vec<u8> {
    let mut out: Vec<u8> = Vec::new();
    {
        let mut encoder = png::Encoder::new(&mut out, width, height);
        encoder.set_color(color);
        encoder.set_depth(png::BitDepth::Eight);
        if let Some(p) = palette {
            encoder.set_palette(p);
        }
        let mut writer = encoder.write_header().unwrap();
        writer.write_image_data(data).unwrap();
        writer.finish().unwrap();
    }
    out
}

#[test]
fn png_round_trip_keeps_every_byte() {
    let bytes: Vec<u8> = (0..24).map(|i| (i * 10) as u8).collect();
    let image = Image { width: 3, height: 2, bytes: bytes.clone() };
    let encoded = encode_png(&image).unwrap();
    let decoded = decode_png(&encoded).unwrap();
    assert_eq!(decoded.width, 3);
    assert_eq!(decoded.height, 2);
    assert_eq!(decoded.bytes, bytes);
}

#[test]
fn png_encoding_starts_with_the_signature() {
    let image = Image { width: 1, height: 1, bytes: vec![1, 2, 3, 4] };
    let encoded = encode_png(&image).unwrap();
    assert_eq!(&encoded[..8], &[137, 80, 78, 71, 13, 10, 26, 10]);
}

#[test]
fn png_of_zero_width_is_an_encode_error() {
    let image = Image { width: 0, height: 3, bytes: vec![] };
    let r = encode_png(&image);
    assert!(matches!(r, Err(RasterError::Encode(ImageFormat::Png, _))));
}

#[test]
fn png_grayscale_file_is_expanded() {
    let data = png_of(2, 1, png::ColorType::Grayscale, None, &[200, 7]);
    let image = decode_png(&data).unwrap();
    assert_eq!((image.width, image.height), (2, 1));
    assert_eq!(image.bytes, vec![200, 200, 200, 255, 7, 7, 7, 255]);
}

#[test]
fn png_rgb_file_is_expanded() {
    let data = png_of(1, 1, png::ColorType::Rgb, None, &[10, 20, 30]);
    let image = decode_png(&data).unwrap();
    assert_eq!(image.bytes, vec![10, 20, 30, 255]);
}

#[test]
fn png_gray_alpha_file_is_expanded() {
    let data = png_of(1, 1, png::ColorType::GrayscaleAlpha, None, &[100, 50]);
    let image = decode_png(&data).unwrap();
    assert_eq!(image.bytes, vec![100, 100, 100, 50]);
}

#[test]
fn png_indexed_file_is_expanded() {
    let data = png_of(2, 1, png::ColorType::Indexed, Some(vec![1, 2, 3, 4, 5, 6]), &[1, 0]);
    let image = decode_png(&data).unwrap();
    assert_eq!(image.bytes, vec![4, 5, 6, 255, 1, 2, 3, 255]);
}

#[test]
fn png_decoded_length_matches_dimensions() {
    let data = png_of(5, 3, png::ColorType::Rgb, None, &[9u8; 45]);
    let image = decode_png(&data).unwrap();
    assert_eq!(image.bytes.len(), (image.width * image.height * 4) as usize);
}

#[test]
fn png_garbage_is_a_decode_error() {
    let r = decode_png(&[1, 2, 3, 4, 5]);
    assert!(matches!(r, Err(RasterError::Decode(ImageFormat::Png, _))));
}

#[test]
fn png_frame_without_palette_is_a_decode_error() {
    let frame = PngFrame { width: 1, height: 1, bit_depth: 8, layout: SourceColorLayout::Indexed8(None), pixels: vec![0] };
    let r = image_from_png_frame(frame);
    match r {
        Err(RasterError::Decode(ImageFormat::Png, msg)) => assert_eq!(msg, "missing palette for indexed image"),
        other => panic!("unexpected result {:?}", other),
    }
}

#[test]
fn png_missing_palette_is_reported_before_other_faults() {
    let frame = PngFrame { width: 4, height: 4, bit_depth: 2, layout: SourceColorLayout::Indexed8(None), pixels: vec![] };
    let r = image_from_png_frame(frame);
    match r {
        Err(RasterError::Decode(ImageFormat::Png, msg)) => assert_eq!(msg, "missing palette for indexed image"),
        other => panic!("unexpected result {:?}", other),
    }
}

#[test]
fn png_of_one_opaque_gray_pixel_is_written_as_rgba() {
    let image = Image { width: 1, height: 1, bytes: vec![7, 7, 7, 255] };
    let encoded = encode_png(&image).unwrap();
    let mut reader = png::Decoder::new(encoded.as_slice()).read_info().unwrap();
    let mut buf = vec![0u8; reader.output_buffer_size()];
    reader.next_frame(&mut buf).unwrap();
    assert_eq!(reader.info().color_type, png::ColorType::Rgba);
    assert_eq!(reader.info().bit_depth, png::BitDepth::Eight);
    assert_eq!(buf, vec![7, 7, 7, 255]);
}

#[test]
fn png_of_zero_height_is_an_encode_error() {
    let image = Image { width: 3, height: 0, bytes: vec![] };
    let r = encode_png(&image);
    assert!(matches!(r, Err(RasterError::Encode(ImageFormat::Png, _))));
}

#[test]
fn png_frame_with_sixteen_bit_samples_is_refused() {
    let frame = PngFrame { width: 1, height: 1, bit_depth: 16, layout: SourceColorLayout::Rgba8, pixels: vec![0; 8] };
    let r = image_from_png_frame(frame);
    assert!(matches!(r, Err(RasterError::Decode(ImageFormat::Png, _))));
}

#[test]
fn png_frame_with_too_few_samples_is_refused() {
    let frame = PngFrame { width: 2, height: 2, bit_depth: 8, layout: SourceColorLayout::Rgb8, pixels: vec![0; 11] };
    let r = image_from_png_frame(frame);
    assert!(matches!(r, Err(RasterError::Decode(ImageFormat::Png, _))));
}

#[test]
fn png_frame_too_wide_for_the_container_is_refused() {
    let frame = PngFrame { width: 1 << 31, height: 0, bit_depth: 8, layout: SourceColorLayout::Gray8, pixels: vec![] };
    let r = image_from_png_frame(frame);
    assert!(matches!(r, Err(RasterError::Decode(ImageFormat::Png, _))));
}

#[test]
fn png_frame_is_expanded_into_an_image() {
    let frame = PngFrame { width: 1, height: 2, bit_depth: 8, layout: SourceColorLayout::GrayAlpha8, pixels: vec![1, 2, 3, 4] };
    let image = image_from_png_frame(frame).unwrap();
    assert_eq!((image.width, image.height), (1, 2));
    assert_eq!(image.bytes, vec![1, 1, 1, 2, 3, 3, 3, 4]);
}
