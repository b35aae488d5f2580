//! Decoding and encoding of GIF and PNG images into one canonical RGBA
//! container.  The codecs' bitstream work is done by the gif and png crates;
//! this library expands every decoded pixel layout to 8-bit RGBA and adapts
//! the codecs' buffers to and from `Image`.

pub mod gif_codec;
pub mod image;
pub mod normalize;
pub mod png_codec;

pub use crate::gif_codec::{decode_gif, encode_gif, image_from_gif_frame, GifFrame};
pub use crate::image::{Image, ImageFormat, RasterError};
pub use crate::normalize::{normalize, SourceColorLayout};
pub use crate::png_codec::{decode_png, encode_png, image_from_png_frame, PngFrame};
