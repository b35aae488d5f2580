//! PNG: the png crate parses and writes the file; this module turns its
//! first frame into an `Image` and hands it RGBA data to write.

use vstd::prelude::*;
use crate::image::{Image, ImageFormat, RasterError};
use crate::normalize::{
    bytes_per_pixel, missing_palette_error, missing_palette_text, normalize, rgba_of, LayoutModel,
    SourceColorLayout,
};

verus! {

#[verifier::external_type_specification]
#[verifier::external_body]
pub struct ExPngDecodingError(png::DecodingError);

#[verifier::external_type_specification]
#[verifier::external_body]
pub struct ExPngEncodingError(png::EncodingError);

/// The first frame of a PNG stream as the decoder reports it, before any
/// expansion: dimensions, bit depth, sample layout and the raw samples.
#[derive(Clone, Debug)]
pub struct PngFrame {
    pub width: u32,
    pub height: u32,
    pub bit_depth: u8,
    pub layout: SourceColorLayout,
    pub pixels: Vec<u8>,
}

/// The mathematical model of a `PngFrame`.
pub struct PngFrameModel {
    pub width: u32,
    pub height: u32,
    pub bit_depth: u8,
    pub layout: LayoutModel,
    pub pixels: Seq<u8>,
}

impl View for PngFrame {
    type V = PngFrameModel;

    open spec fn view(&self) -> PngFrameModel {
        PngFrameModel {
            width: self.width,
            height: self.height,
            bit_depth: self.bit_depth,
            layout: self.layout@,
            pixels: self.pixels@,
        }
    }
}

/// Number of pixels of a frame.
pub open spec fn frame_pixels(f: PngFrameModel) -> nat {
    f.width as nat * f.height as nat
}

/// A frame that becomes an `Image`: eight bits per sample, dimensions that
/// fit the container, enough raw samples, and a palette where one is needed.
pub open spec fn png_frame_accepted(f: PngFrameModel) -> bool {
    &&& f.bit_depth == 8
    &&& f.width <= i32::MAX
    &&& f.height <= i32::MAX
    &&& frame_pixels(f) * 4 <= usize::MAX
    &&& f.pixels.len() >= frame_pixels(f) * bytes_per_pixel(f.layout)
    &&& f.layout != LayoutModel::Indexed8(None)
}

/// `img` is the RGBA expansion of frame `f`.
pub open spec fn image_of_frame(img: Image, f: PngFrameModel) -> bool {
    &&& img.width == f.width as int
    &&& img.height == f.height as int
    &&& img.bytes@ == rgba_of(f.layout, f.pixels, frame_pixels(f))
}

/// What the png crate decodes from a byte stream: its first frame, or
/// `None` where it reports an error.
pub uninterp spec fn png_decoded(data: Seq<u8>) -> Option<PngFrameModel>;

/// What the png crate writes for an 8-bit RGBA image of the given size and
/// samples, where it writes anything.
pub uninterp spec fn png_rgba8_encoded(width: u32, height: u32, pixels: Seq<u8>) -> Seq<u8>;

/// Relies on png's `Decoder::new(..).read_info()`, `Reader::output_buffer_size`,
/// `Reader::next_frame` and `Reader::info`: with no transformations set, the
/// first frame's samples come back as stored, with the header's width,
/// height, bit depth, color type and palette.  The outcome depends on the
/// bytes alone.
#[verifier::external_body]
fn png_read_first_frame(data: &[u8]) -> (r: Result<PngFrame, png::DecodingError>)
    ensures
        r is Ok <==> png_decoded(data@) is Some,
        r is Ok ==> png_decoded(data@) == Some(r->Ok_0@),
{
    let mut reader = png::Decoder::new(data).read_info()?;
    let mut pixels = vec![0u8; reader.output_buffer_size()];
    reader.next_frame(&mut pixels)?;
    let info = reader.info();
    let layout = match info.color_type {
        png::ColorType::Rgb => SourceColorLayout::Rgb8,
        png::ColorType::Grayscale => SourceColorLayout::Gray8,
        png::ColorType::GrayscaleAlpha => SourceColorLayout::GrayAlpha8,
        png::ColorType::Indexed => SourceColorLayout::Indexed8(info.palette.as_ref().map(|p| p.to_vec())),
        png::ColorType::Rgba => SourceColorLayout::Rgba8,
    };
    Ok(PngFrame { width: info.width, height: info.height, bit_depth: info.bit_depth as u8, layout, pixels })
}

/// Relies on png's `Encoder` with color type RGBA and bit depth eight:
/// `write_header`, `Writer::write_image_data` and `Writer::finish` write a
/// complete PNG stream into memory.  The bytes depend on the arguments alone.
/// Writing into a `Vec` cannot fail, so the encoder fails only on a zero
/// width or height (`Writer::init`) or on a buffer of the wrong length
/// (`write_image_data`).
#[verifier::external_body]
fn png_encode_rgba8(width: u32, height: u32, pixels: &[u8]) -> (r: Result<Vec<u8>, png::EncodingError>)
    ensures
        r is Ok ==> r->Ok_0@ == png_rgba8_encoded(width, height, pixels@),
        (width == 0 || height == 0) ==> r is Err,
        (width > 0 && height > 0 && pixels@.len() == width as int * height as int * 4) ==> r is Ok,
{
    let mut out: Vec<u8> = Vec::new();
    let mut encoder = png::Encoder::new(&mut out, width, height);
    encoder.set_color(png::ColorType::Rgba);
    encoder.set_depth(png::BitDepth::Eight);
    let mut writer = encoder.write_header()?;
    writer.write_image_data(pixels)?;
    writer.finish()?;
    Ok(out)
}

/// Builds the `Image` of a decoded PNG frame, expanding its samples to RGBA.
/// Fails with a PNG decode error exactly when the frame is not accepted; an
/// indexed frame without a palette always gives the missing-palette error.
pub fn image_from_png_frame(frame: PngFrame) -> (r: Result<Image, RasterError>)
    ensures
        r is Ok <==> png_frame_accepted(frame@),
        r is Ok ==> r->Ok_0.wf() && image_of_frame(r->Ok_0, frame@),
        r is Err ==> r->Err_0.is_decode_of(ImageFormat::Png),
        frame@.layout == LayoutModel::Indexed8(None) ==> r is Err && r->Err_0.is_decode_with(
            ImageFormat::Png,
            missing_palette_text(),
        ),
{
    if let SourceColorLayout::Indexed8(None) = frame.layout {
        return Err(missing_palette_error());
    }
    if frame.bit_depth != 8 {
        return Err(RasterError::Decode(ImageFormat::Png, "Unsupported bit depth".to_owned()));
    }
    if frame.width > i32::MAX as u32 || frame.height > i32::MAX as u32 {
        return Err(RasterError::Decode(ImageFormat::Png, "Image dimensions too large".to_owned()));
    }
    let n: Option<usize> = (frame.width as usize).checked_mul(frame.height as usize);
    let n: usize = match n {
        Some(n) if n <= usize::MAX / 4 => n,
        _ => {
            proof {
                assert(frame_pixels(frame@) * 4 > usize::MAX) by (nonlinear_arith)
                    requires
                        frame_pixels(frame@) > usize::MAX || frame_pixels(frame@) > usize::MAX / 4,
                        frame_pixels(frame@) == frame.width as nat * frame.height as nat;
            }
            return Err(RasterError::Decode(ImageFormat::Png, "Image dimensions too large".to_owned()));
        },
    };
    let per_pixel: usize = frame.layout.bytes_per_pixel();
    if frame.pixels.len() / per_pixel < n {
        proof {
            assert(frame.pixels@.len() < n * per_pixel) by (nonlinear_arith)
                requires
                    (frame.pixels@.len() as int) / (per_pixel as int) < n,
                    1 <= per_pixel,
                    per_pixel <= 4;
        }
        return Err(RasterError::Decode(ImageFormat::Png, "Frame data too short for its dimensions".to_owned()));
    }
    proof {
        assert(frame.pixels@.len() >= n * per_pixel) by (nonlinear_arith)
            requires
                (frame.pixels@.len() as int) / (per_pixel as int) >= n,
                1 <= per_pixel,
                per_pixel <= 4;
    }
    let width = frame.width;
    let height = frame.height;
    match normalize(width, height, frame.pixels, frame.layout) {
        Ok(bytes) => Ok(Image { width: width as i32, height: height as i32, bytes }),
        Err(e) => Err(e),
    }
}

/// An 8-bit RGBA frame that carries the dimensions and the bytes of a
/// well-formed image is accepted, and its expansion is that same image:
/// reading such a frame back loses nothing.
pub proof fn lemma_rgba8_frame_restores_image(img: Image, f: PngFrameModel)
    requires
        img.wf(),
        f.width == img.width as u32,
        f.height == img.height as u32,
        f.bit_depth == 8,
        f.layout == LayoutModel::Rgba8,
        f.pixels == img.bytes@,
    ensures
        png_frame_accepted(f),
        image_of_frame(img, f),
{
    assert(img.bytes@.len() == img.bytes.len());
    assert(img.bytes@ =~= rgba_of(f.layout, f.pixels, frame_pixels(f)));
}

/// Decodes the first frame of a PNG stream into an `Image`.  A stream the
/// png crate rejects, or whose frame is not accepted, gives a PNG decode
/// error; every image returned satisfies the container invariant.
pub fn decode_png(data: &[u8]) -> (r: Result<Image, RasterError>)
    ensures
        png_decoded(data@) is None ==> r is Err,
        png_decoded(data@) is Some ==> (r is Ok <==> png_frame_accepted(png_decoded(data@)->Some_0)),
        r is Ok ==> r->Ok_0.wf() && image_of_frame(r->Ok_0, png_decoded(data@)->Some_0),
        r is Err ==> r->Err_0.is_decode_of(ImageFormat::Png),
        (png_decoded(data@) is Some && png_decoded(data@)->Some_0.layout == LayoutModel::Indexed8(
            None,
        )) ==> r is Err && r->Err_0.is_decode_with(ImageFormat::Png, missing_palette_text()),
{
    match png_read_first_frame(data) {
        Ok(frame) => image_from_png_frame(frame),
        Err(e) => Err(RasterError::Decode(ImageFormat::Png, e.to_string())),
    }
}

/// Writes `image` as an 8-bit RGBA PNG stream.  Every image with a positive
/// width and height is written; an empty one is a PNG encode error.
pub fn encode_png(image: &Image) -> (r: Result<Vec<u8>, RasterError>)
    requires
        image.wf(),
    ensures
        r is Ok <==> (image.width > 0 && image.height > 0),
        r is Ok ==> r->Ok_0@ == png_rgba8_encoded(image.width as u32, image.height as u32, image.bytes@),
        r is Err ==> r->Err_0.is_encode_of(ImageFormat::Png),
{
    match png_encode_rgba8(image.width as u32, image.height as u32, image.bytes.as_slice()) {
        Ok(bytes) => Ok(bytes),
        Err(e) => Err(RasterError::Encode(ImageFormat::Png, e.to_string())),
    }
}

} // verus!
