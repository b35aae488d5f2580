//! GIF: the gif crate parses the stream, expands the first frame to RGBA and
//! quantizes colors when writing; this module adapts its buffers to `Image`.

use vstd::prelude::*;
use crate::image::{Image, ImageFormat, RasterError};

verus! {

#[verifier::external_type_specification]
#[verifier::external_body]
pub struct ExGifDecodingError(gif::DecodingError);

#[verifier::external_type_specification]
#[verifier::external_body]
pub struct ExIoError(std::io::Error);

/// The first frame of a GIF stream, expanded by the decoder to four bytes
/// per pixel, with the frame's own width and height.
#[derive(Clone, Debug)]
pub struct GifFrame {
    pub width: u16,
    pub height: u16,
    pub pixels: Vec<u8>,
}

/// The mathematical model of a `GifFrame`.
pub struct GifFrameModel {
    pub width: u16,
    pub height: u16,
    pub pixels: Seq<u8>,
}

impl View for GifFrame {
    type V = GifFrameModel;

    open spec fn view(&self) -> GifFrameModel {
        GifFrameModel { width: self.width, height: self.height, pixels: self.pixels@ }
    }
}

/// The message of the error for a stream without a frame.
pub open spec fn missing_frame_text() -> Seq<char> {
    "error getting frame info"@
}

/// A frame whose buffer holds exactly four bytes per pixel.
pub open spec fn gif_frame_complete(f: GifFrameModel) -> bool {
    f.pixels.len() == f.width as int * f.height as int * 4
}

/// What the gif crate reads from a byte stream: `None` where it reports an
/// error, `Some(None)` where the stream holds no frame, else its first frame.
pub uninterp spec fn gif_decoded(data: Seq<u8>) -> Option<Option<GifFrameModel>>;

/// What the gif crate writes for one RGBA frame of the given size, where it
/// writes anything.
pub uninterp spec fn gif_rgba_encoded(width: u16, height: u16, pixels: Seq<u8>) -> Seq<u8>;

/// Relies on gif's `Decoder` set to `ColorOutput::RGBA`: `read_info`,
/// `Reader::next_frame_info`, `Reader::buffer_size` and
/// `Reader::read_into_buffer` give the first frame, if any, expanded to
/// RGBA.  The outcome depends on the bytes alone.  The buffer is
/// `Reader::buffer_size` long, which in RGBA output is four bytes for each
/// pixel of the frame that `next_frame_info` describes.
#[verifier::external_body]
fn gif_read_first_frame(data: &[u8]) -> (r: Result<Option<GifFrame>, gif::DecodingError>)
    ensures
        r is Ok <==> gif_decoded(data@) is Some,
        r is Ok ==> gif_decoded(data@) == Some(
            match r->Ok_0 {
                Some(f) => Some(f@),
                None => None,
            },
        ),
        (r is Ok && r->Ok_0 is Some) ==> gif_frame_complete(r->Ok_0->Some_0@),
{
    let mut decoder = gif::Decoder::new(data);
    gif::SetParameter::set(&mut decoder, gif::ColorOutput::RGBA);
    let mut reader = decoder.read_info()?;
    let (width, height) = match reader.next_frame_info()? {
        Some(frame) => (frame.width, frame.height),
        None => return Ok(None),
    };
    let mut pixels = vec![0u8; reader.buffer_size()];
    reader.read_into_buffer(&mut pixels)?;
    Ok(Some(GifFrame { width, height, pixels }))
}

/// Relies on gif's `Frame::from_rgba`, which panics unless there are four
/// bytes per pixel, and on `Encoder::new` with no global palette and
/// `Encoder::write_frame`, writing one frame into memory.  The bytes depend
/// on the arguments alone.  Writing into a `Vec` cannot fail, and the only
/// error the encoder raises itself, "Too many colors", cannot come: the
/// frame's palette from `NeuQuant` has exactly 256 entries and the global
/// palette is empty.
#[verifier::external_body]
fn gif_encode_rgba(width: u16, height: u16, pixels: Vec<u8>) -> (r: Result<Vec<u8>, std::io::Error>)
    requires
        pixels@.len() == width as int * height as int * 4,
    ensures
        r is Ok,
        r is Ok ==> r->Ok_0@ == gif_rgba_encoded(width, height, pixels@),
{
    let mut pixels = pixels;
    let frame = gif::Frame::from_rgba(width, height, &mut pixels);
    let mut out: Vec<u8> = Vec::new();
    let mut encoder = gif::Encoder::new(&mut out, frame.width, frame.height, &[])?;
    encoder.write_frame(&frame)?;
    drop(encoder);
    Ok(out)
}

/// Builds the `Image` of the first frame of a GIF stream.  A stream without
/// a frame, or a frame whose buffer does not hold four bytes per pixel,
/// gives a GIF decode error.
pub fn image_from_gif_frame(frame: Option<GifFrame>) -> (r: Result<Image, RasterError>)
    ensures
        frame is None ==> r is Err && r->Err_0.is_decode_with(ImageFormat::Gif, missing_frame_text()),
        frame is Some ==> (r is Ok <==> gif_frame_complete(frame->Some_0@)),
        r is Ok ==> r->Ok_0.wf() && r->Ok_0.width == frame->Some_0.width as int
            && r->Ok_0.height == frame->Some_0.height as int
            && r->Ok_0.bytes@ == frame->Some_0.pixels@,
        r is Err ==> r->Err_0.is_decode_of(ImageFormat::Gif),
{
    match frame {
        None => Err(RasterError::Decode(ImageFormat::Gif, "error getting frame info".to_owned())),
        Some(f) => {
            proof {
                assert(f.width as int * f.height as int <= 65535 * 65535) by (nonlinear_arith)
                    requires
                        0 <= f.width <= 65535,
                        0 <= f.height <= 65535;
            }
            let n: u64 = f.width as u64 * f.height as u64;
            let len: usize = f.pixels.len();
            if len as u64 / 4 == n && len % 4 == 0 {
                Ok(Image { width: f.width as i32, height: f.height as i32, bytes: f.pixels })
            } else {
                Err(RasterError::Decode(ImageFormat::Gif, "Frame data does not match its dimensions".to_owned()))
            }
        },
    }
}

/// Decodes the first frame of a GIF stream into an `Image`; later frames
/// are not read.  Every image returned satisfies the container invariant.
pub fn decode_gif(data: &[u8]) -> (r: Result<Image, RasterError>)
    ensures
        gif_decoded(data@) is None ==> r is Err,
        gif_decoded(data@) == Some(None::<GifFrameModel>) ==> r is Err
            && r->Err_0.is_decode_with(ImageFormat::Gif, missing_frame_text()),
        (gif_decoded(data@) is Some && gif_decoded(data@)->Some_0 is Some) ==> r is Ok,
        r is Ok ==> ({
            let f = gif_decoded(data@)->Some_0->Some_0;
            &&& r->Ok_0.wf()
            &&& r->Ok_0.width == f.width as int
            &&& r->Ok_0.height == f.height as int
            &&& r->Ok_0.bytes@ == f.pixels
        }),
        r is Err ==> r->Err_0.is_decode_of(ImageFormat::Gif),
{
    match gif_read_first_frame(data) {
        Ok(frame) => image_from_gif_frame(frame),
        Err(e) => Err(RasterError::Decode(ImageFormat::Gif, e.to_string())),
    }
}

/// Writes `image` as a GIF stream of one frame.  Exactly an image wider or
/// taller than a GIF can describe gives a GIF encode error.
pub fn encode_gif(image: &Image) -> (r: Result<Vec<u8>, RasterError>)
    requires
        image.wf(),
    ensures
        r is Ok <==> (image.width <= u16::MAX && image.height <= u16::MAX),
        r is Ok ==> r->Ok_0@ == gif_rgba_encoded(image.width as u16, image.height as u16, image.bytes@),
        r is Err ==> r->Err_0.is_encode_of(ImageFormat::Gif),
{
    if image.width > u16::MAX as i32 || image.height > u16::MAX as i32 {
        return Err(RasterError::Encode(ImageFormat::Gif, "Image dimensions exceed the GIF limit".to_owned()));
    }
    match gif_encode_rgba(image.width as u16, image.height as u16, image.bytes.clone()) {
        Ok(bytes) => Ok(bytes),
        Err(e) => Err(RasterError::Encode(ImageFormat::Gif, e.to_string())),
    }
}

} // verus!
