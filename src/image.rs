//! The canonical image container and the error type of the codecs.

use vstd::prelude::*;

verus! {

/// The two file formats this library reads and writes.
#[derive(Clone, Copy, Debug, PartialEq, Eq, Structural)]
pub enum ImageFormat {
    Gif,
    Png,
}

/// Why a decode or an encode did not complete.
#[derive(Clone, Debug)]
pub enum RasterError {
    /// Reading or writing the underlying file failed.
    Io(String),
    /// The data could not be read as an image of the given format.
    Decode(ImageFormat, String),
    /// The image could not be written in the given format.
    Encode(ImageFormat, String),
}

impl RasterError {
    /// A decoding failure attributed to `format`.
    pub open spec fn is_decode_of(&self, format: ImageFormat) -> bool {
        match self {
            RasterError::Decode(f, _) => *f == format,
            _ => false,
        }
    }

    /// A decoding failure attributed to `format`, with message `msg`.
    pub open spec fn is_decode_with(&self, format: ImageFormat, msg: Seq<char>) -> bool {
        match self {
            RasterError::Decode(f, m) => *f == format && m@ == msg,
            _ => false,
        }
    }

    /// An encoding failure attributed to `format`.
    pub open spec fn is_encode_of(&self, format: ImageFormat) -> bool {
        match self {
            RasterError::Encode(f, _) => *f == format,
            _ => false,
        }
    }
}

/// A raster image: `width` by `height` pixels, row-major, four bytes
/// `[R, G, B, A]` per pixel.
#[derive(Clone, Debug)]
pub struct Image {
    pub width: i32,
    pub height: i32,
    pub bytes: Vec<u8>,
}

impl Image {
    /// The container invariant: non-negative dimensions and exactly four
    /// bytes per pixel.
    pub open spec fn wf(&self) -> bool {
        &&& self.width >= 0
        &&& self.height >= 0
        &&& self.bytes@.len() == self.width as int * self.height as int * 4
    }
}

} // verus!
