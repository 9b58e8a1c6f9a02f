//! Pictures the interface shows from PNG bytes it carries: the banner behind
//! Help ▸ About and the opening scene.
//!
//! Decoding is the `png` crate's. What is decided here is which of its
//! outputs the interface can show: RGBA and RGB frames are kept, every other
//! colour type is refused rather than shown wrong.

use vstd::prelude::*;

verus! {

/// What `png` makes of `bytes`, read as one frame with no transformations:
/// its width, its height, its colour type by the number the PNG standard
/// gives it (0 grey, 2 RGB, 3 indexed, 4 grey and alpha, 6 RGBA) and the
/// frame's bytes; `None` where the bytes are not a PNG it can decode.
pub uninterp spec fn png_frame_of(bytes: Seq<u8>) -> Option<(u32, u32, u8, Seq<u8>)>;

/// `png::Decoder::new(..).read_info()`, then `Reader::next_frame` into a
/// buffer of `Reader::output_buffer_size`, cut to the frame's
/// `OutputInfo::buffer_size`. The colour type is the frame's
/// `OutputInfo::color_type`, by its number.
///
/// Trusted: the result is [`png_frame_of`] of the bytes, and `None` exactly
/// where any of those steps fails. Decoding depends on the bytes alone (the
/// decoder's default limits are fixed), so the same bytes give the same
/// result; what it gives for given bytes is not stated here.
#[verifier::external_body]
fn read_png(bytes: &[u8]) -> (r: Option<(u32, u32, u8, Vec<u8>)>)
    ensures
        match r {
            Some((width, height, colour, pixels)) => png_frame_of(bytes@) == Some(
                (width, height, colour, pixels@),
            ),
            None => png_frame_of(bytes@) is None,
        },
{
    let mut reader = png::Decoder::new(std::io::Cursor::new(bytes)).read_info().ok()?;
    let mut pixels = vec![0u8; reader.output_buffer_size()?];
    let info = reader.next_frame(&mut pixels).ok()?;
    pixels.truncate(info.buffer_size());
    Some((info.width, info.height, info.color_type as u8, pixels))
}

/// How a decoded picture's bytes are laid out, pixel by pixel.
#[derive(Debug, Clone, Copy, PartialEq, Eq, Structural)]
pub enum PixelLayout {
    /// Red, green, blue and (unmultiplied) alpha.
    Rgba,
    /// Red, green and blue.
    Rgb,
}

/// A decoded picture the interface can show.
#[derive(Debug, Clone, PartialEq, Eq)]
pub struct Picture {
    pub width: u32,
    pub height: u32,
    pub layout: PixelLayout,
    /// The rows, top first, each pixel as `layout` says.
    pub pixels: Vec<u8>,
}

impl View for Picture {
    type V = (u32, u32, PixelLayout, Seq<u8>);

    open spec fn view(&self) -> (u32, u32, PixelLayout, Seq<u8>) {
        (self.width, self.height, self.layout, self.pixels@)
    }
}

/// The layout of a PNG colour type the interface can show: RGBA (6) and
/// RGB (2); grey, indexed and grey-with-alpha have none.
pub open spec fn layout_of(colour: u8) -> Option<PixelLayout> {
    if colour == 6 {
        Some(PixelLayout::Rgba)
    } else if colour == 2 {
        Some(PixelLayout::Rgb)
    } else {
        None
    }
}

/// The picture a decoded frame gives: the frame as it is, where its colour
/// type has a layout; nothing where it has none or there is no frame.
pub open spec fn picture_of(frame: Option<(u32, u32, u8, Seq<u8>)>) -> Option<(u32, u32, PixelLayout, Seq<u8>)> {
    match frame {
        Some((width, height, colour, pixels)) => match layout_of(colour) {
            Some(layout) => Some((width, height, layout, pixels)),
            None => None,
        },
        None => None,
    }
}

/// The picture for a decoded frame, as [`picture_of`] says.
pub fn picture_from_frame(width: u32, height: u32, colour: u8, pixels: Vec<u8>) -> (r: Option<Picture>)
    ensures
        match r {
            Some(p) => picture_of(Some((width, height, colour, pixels@))) == Some(p@),
            None => picture_of(Some((width, height, colour, pixels@))) is None,
        },
{
    let layout = if colour == 6 {
        PixelLayout::Rgba
    } else if colour == 2 {
        PixelLayout::Rgb
    } else {
        return None;
    };
    Some(Picture { width, height, layout, pixels })
}

/// Decode PNG `bytes` into a picture the interface can show: `None` for
/// bytes that are not a PNG, and for a PNG whose colour type is neither RGBA
/// nor RGB.
pub fn decode_picture(bytes: &[u8]) -> (r: Option<Picture>)
    ensures
        match r {
            Some(p) => picture_of(png_frame_of(bytes@)) == Some(p@),
            None => picture_of(png_frame_of(bytes@)) is None,
        },
{
    match read_png(bytes) {
        Some((width, height, colour, pixels)) => picture_from_frame(width, height, colour, pixels),
        None => None,
    }
}

} // verus!
