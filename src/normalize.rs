//! Expansion of a decoder's raw pixel data into 8-bit RGBA.

use vstd::prelude::*;
use crate::image::{ImageFormat, RasterError};

verus! {

/// How a decoder laid out its raw pixel bytes, one byte per sample.
#[derive(Clone, Debug)]
pub enum SourceColorLayout {
    /// Three bytes per pixel: red, green, blue.
    Rgb8,
    /// One intensity byte per pixel.
    Gray8,
    /// Two bytes per pixel: intensity, then alpha.
    GrayAlpha8,
    /// One palette index per pixel; the palette, when the source has one,
    /// holds three bytes (red, green, blue) per entry.
    Indexed8(Option<Vec<u8>>),
    /// Four bytes per pixel, already in the canonical order.
    Rgba8,
}

/// The mathematical model of a `SourceColorLayout`.
pub enum LayoutModel {
    Rgb8,
    Gray8,
    GrayAlpha8,
    Indexed8(Option<Seq<u8>>),
    Rgba8,
}

impl View for SourceColorLayout {
    type V = LayoutModel;

    open spec fn view(&self) -> LayoutModel {
        match self {
            SourceColorLayout::Rgb8 => LayoutModel::Rgb8,
            SourceColorLayout::Gray8 => LayoutModel::Gray8,
            SourceColorLayout::GrayAlpha8 => LayoutModel::GrayAlpha8,
            SourceColorLayout::Indexed8(p) => LayoutModel::Indexed8(
                match p {
                    Some(v) => Some(v@),
                    None => None,
                },
            ),
            SourceColorLayout::Rgba8 => LayoutModel::Rgba8,
        }
    }
}

/// The message of the error for an indexed image without a palette.
pub open spec fn missing_palette_text() -> Seq<char> {
    "missing palette for indexed image"@
}

/// The error for an indexed image without a palette.
pub fn missing_palette_error() -> (e: RasterError)
    ensures
        e.is_decode_with(ImageFormat::Png, missing_palette_text()),
{
    RasterError::Decode(ImageFormat::Png, "missing palette for indexed image".to_owned())
}

/// Raw bytes that one pixel takes in `layout`.
pub open spec fn bytes_per_pixel(layout: LayoutModel) -> nat {
    match layout {
        LayoutModel::Rgb8 => 3,
        LayoutModel::Gray8 => 1,
        LayoutModel::GrayAlpha8 => 2,
        LayoutModel::Indexed8(_) => 1,
        LayoutModel::Rgba8 => 4,
    }
}

impl SourceColorLayout {
    /// Raw bytes that one pixel takes in this layout.
    pub fn bytes_per_pixel(&self) -> (r: usize)
        ensures
            r == bytes_per_pixel(self@),
            1 <= r <= 4,
    {
        match self {
            SourceColorLayout::Rgb8 => 3,
            SourceColorLayout::Gray8 => 1,
            SourceColorLayout::GrayAlpha8 => 2,
            SourceColorLayout::Indexed8(_) => 1,
            SourceColorLayout::Rgba8 => 4,
        }
    }
}

/// Channel `c` (0 red, 1 green, 2 blue, 3 alpha) of pixel `p` once the raw
/// bytes `raw`, laid out as `layout`, are expanded to RGBA.  An index whose
/// palette entry does not fit in the palette gives opaque black.
pub open spec fn rgba_channel(layout: LayoutModel, raw: Seq<u8>, p: int, c: int) -> u8 {
    match layout {
        LayoutModel::Rgb8 => if c < 3 { raw[3 * p + c] } else { 255 },
        LayoutModel::Gray8 => if c < 3 { raw[p] } else { 255 },
        LayoutModel::GrayAlpha8 => if c < 3 { raw[2 * p] } else { raw[2 * p + 1] },
        LayoutModel::Indexed8(Some(palette)) => {
            let offset = raw[p] as int * 3;
            if c == 3 {
                255
            } else if offset + 2 < palette.len() {
                palette[offset + c]
            } else {
                0
            }
        },
        LayoutModel::Indexed8(None) => 0,
        LayoutModel::Rgba8 => raw[4 * p + c],
    }
}

/// The RGBA bytes of the first `n` pixels of `raw`.
pub open spec fn rgba_of(layout: LayoutModel, raw: Seq<u8>, n: nat) -> Seq<u8> {
    Seq::new(n * 4, |i: int| rgba_channel(layout, raw, i / 4, i % 4))
}

/// Expands the raw data of a `width` by `height` image laid out as `layout`
/// into four bytes per pixel.  Only an indexed layout without a palette
/// fails.
pub fn normalize(width: u32, height: u32, raw: Vec<u8>, layout: SourceColorLayout) -> (r: Result<
    Vec<u8>,
    RasterError,
>)
    requires
        width as nat * height as nat * 4 <= usize::MAX,
        raw@.len() >= width as nat * height as nat * bytes_per_pixel(layout@),
    ensures
        r is Err <==> layout@ == LayoutModel::Indexed8(None),
        r is Err ==> r->Err_0.is_decode_with(ImageFormat::Png, missing_palette_text()),
        r is Ok ==> r->Ok_0@ == rgba_of(layout@, raw@, width as nat * height as nat),
{
    proof {
        assert(width as nat * height as nat <= usize::MAX) by (nonlinear_arith)
            requires width as nat * height as nat * 4 <= usize::MAX;
    }
    let n: usize = width as usize * height as usize;
    match layout {
        SourceColorLayout::Indexed8(None) => Err(missing_palette_error()),
        SourceColorLayout::Rgba8 => {
            let mut out = raw;
            out.truncate(4 * n);
            assert(out@ =~= rgba_of(layout@, raw@, n as nat));
            Ok(out)
        },
        _ => Ok(expand(&layout, &raw, n)),
    }
}

/// One pixel of `raw` as red, green, blue and alpha.
fn pixel_rgba(layout: &SourceColorLayout, raw: &Vec<u8>, p: usize) -> (px: (u8, u8, u8, u8))
    requires
        (p + 1) * bytes_per_pixel(layout@) <= raw.len(),
    ensures
        px.0 == rgba_channel(layout@, raw@, p as int, 0),
        px.1 == rgba_channel(layout@, raw@, p as int, 1),
        px.2 == rgba_channel(layout@, raw@, p as int, 2),
        px.3 == rgba_channel(layout@, raw@, p as int, 3),
{
    match layout {
        SourceColorLayout::Rgb8 => {
            assert(bytes_per_pixel(layout@) == 3);
            (raw[3 * p], raw[3 * p + 1], raw[3 * p + 2], 255)
        },
        SourceColorLayout::Gray8 => (raw[p], raw[p], raw[p], 255),
        SourceColorLayout::GrayAlpha8 => {
            assert(bytes_per_pixel(layout@) == 2);
            (raw[2 * p], raw[2 * p], raw[2 * p], raw[2 * p + 1])
        },
        SourceColorLayout::Indexed8(Some(palette)) => {
            let offset: usize = raw[p] as usize * 3;
            if offset + 2 < palette.len() {
                (palette[offset], palette[offset + 1], palette[offset + 2], 255)
            } else {
                (0, 0, 0, 255)
            }
        },
        SourceColorLayout::Indexed8(None) => (0, 0, 0, 0),
        SourceColorLayout::Rgba8 => {
            assert(bytes_per_pixel(layout@) == 4);
            (raw[4 * p], raw[4 * p + 1], raw[4 * p + 2], raw[4 * p + 3])
        },
    }
}

/// The RGBA bytes of the first `n` pixels of `raw`, in a new buffer.
fn expand(layout: &SourceColorLayout, raw: &Vec<u8>, n: usize) -> (out: Vec<u8>)
    requires
        n * 4 <= usize::MAX,
        raw@.len() >= n * bytes_per_pixel(layout@),
    ensures
        out@ == rgba_of(layout@, raw@, n as nat),
{
    let mut out: Vec<u8> = Vec::with_capacity(n * 4);
    let mut p: usize = 0;
    while p < n
        invariant
            p <= n,
            n * 4 <= usize::MAX,
            raw@.len() >= n * bytes_per_pixel(layout@),
            out@.len() == p * 4,
            forall|i: int| 0 <= i < p * 4 ==> out@[i] == rgba_channel(layout@, raw@, i / 4, i % 4),
        decreases n - p,
    {
        proof {
            assert((p + 1) * bytes_per_pixel(layout@) <= n * bytes_per_pixel(layout@))
                by (nonlinear_arith)
                requires p + 1 <= n;
        }
        let px = pixel_rgba(layout, raw, p);
        out.push(px.0);
        out.push(px.1);
        out.push(px.2);
        out.push(px.3);
        p = p + 1;
    }
    assert(out@ =~= rgba_of(layout@, raw@, n as nat));
    out
}

} // verus!
