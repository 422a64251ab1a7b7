//! Still images as the encoder takes them: 8-bit RGBA pixels, row by row.
//!
//! The `image` crate decodes the frame files. What it hands back is checked
//! here before anything else relies on it.

use crate::error::ConversionError;
use vstd::prelude::*;
use vstd::string::StringExecFns;

verus! {

#[verifier::external_type_specification]
#[verifier::external_body]
pub struct ExImageError(image::ImageError);

/// Number of bytes that one pixel takes.
pub const BYTES_PER_PIXEL: usize = 4;

/// What the error says when pixel data and image size do not fit together.
pub open spec fn size_mismatch_text() -> Seq<char> {
    "pixel data does not match the image size"@
}

/// A decoded frame: its size and four bytes (red, green, blue, alpha) for each
/// pixel. The pixel data always has the length that the size asks for.
pub struct RgbaFrame {
    width: u32,
    height: u32,
    pixels: Vec<u8>,
}

impl RgbaFrame {
    #[verifier::type_invariant]
    spec fn sized(self) -> bool {
        self.pixels@.len() == BYTES_PER_PIXEL * self.width * self.height
    }

    /// Width in pixels.
    pub closed spec fn pixel_width(self) -> u32 {
        self.width
    }

    /// Height in pixels.
    pub closed spec fn pixel_height(self) -> u32 {
        self.height
    }

    /// The bytes of all pixels.
    pub closed spec fn pixel_data(self) -> Seq<u8> {
        self.pixels@
    }

    /// Makes a frame of the given size from its pixel data. Pixel data of any
    /// other length than four bytes for each pixel is refused.
    pub fn new(width: u32, height: u32, pixels: Vec<u8>) -> (result: Result<
        RgbaFrame,
        ConversionError,
    >)
        ensures
            result is Ok <==> pixels@.len() == BYTES_PER_PIXEL * width * height,
            result matches Ok(frame) ==> {
                &&& frame.pixel_width() == width
                &&& frame.pixel_height() == height
                &&& frame.pixel_data() == pixels@
            },
            result matches Err(error) ==> (error matches ConversionError::ImageDecode { cause }
                && cause@ == size_mismatch_text()),
    {
        assert(width as int * height as int <= 0xFFFF_FFFF * 0xFFFF_FFFF) by (nonlinear_arith)
            requires
                0 <= width <= 0xFFFF_FFFF,
                0 <= height <= 0xFFFF_FFFF,
        ;
        let area: u128 = (width as u128) * (height as u128);
        let wanted: u128 = 4 * area;
        assert(wanted == BYTES_PER_PIXEL * width * height) by (nonlinear_arith)
            requires
                wanted == 4 * (width as int * height as int),
        ;
        if pixels.len() as u128 == wanted {
            Ok(RgbaFrame { width, height, pixels })
        } else {
            Err(
                ConversionError::ImageDecode {
                    cause: String::from_str("pixel data does not match the image size"),
                },
            )
        }
    }

    /// Width in pixels.
    pub fn width(&self) -> (width: u32)
        ensures
            width == self.pixel_width(),
    {
        self.width
    }

    /// Height in pixels.
    pub fn height(&self) -> (height: u32)
        ensures
            height == self.pixel_height(),
    {
        self.height
    }

    /// Gives up the frame for its pixel data.
    pub fn into_pixels(self) -> (pixels: Vec<u8>)
        ensures
            pixels@ == self.pixel_data(),
            pixels@.len() == BYTES_PER_PIXEL * self.pixel_width() * self.pixel_height(),
    {
        proof {
            use_type_invariant(&self);
        }
        self.pixels
    }
}

/// What `image::load_from_memory_with_format` makes of the bytes of a PNG
/// file, seen as 8-bit RGBA: width, height and the bytes of all pixels; or
/// nothing, where the bytes are refused.
pub uninterp spec fn png_image(bytes: Seq<u8>) -> Option<(u32, u32, Seq<u8>)>;

/// Whether the bytes of a frame file hold an image whose pixel data fits its
/// size.
pub open spec fn usable(bytes: Seq<u8>) -> bool {
    png_image(bytes) matches Some((width, height, pixels)) && pixels.len() == BYTES_PER_PIXEL
        * width * height
}

/// `image::load_from_memory_with_format` with the PNG format, followed by
/// `dimensions` and `to_rgba8` on the image that it returns: decodes the bytes
/// of a PNG file to a size and 8-bit RGBA pixels. The outcome depends on the
/// bytes alone.
#[verifier::external_body]
fn decode_png(bytes: &[u8]) -> (decoded: Result<(u32, u32, Vec<u8>), image::ImageError>)
    ensures
        match decoded {
            Ok((width, height, pixels)) => png_image(bytes@) == Some((width, height, pixels@)),
            Err(_) => png_image(bytes@) is None,
        },
{
    let picture = image::load_from_memory_with_format(bytes, image::ImageFormat::Png)?;
    let (width, height) = image::GenericImageView::dimensions(&picture);
    Ok((width, height, picture.to_rgba8().into_raw()))
}

/// The text of an error of the `image` crate, as its `Display` gives it.
#[verifier::external_body]
fn describe(error: &image::ImageError) -> (text: String) {
    format!("{}", error)
}

/// Decodes the bytes of a frame file into RGBA pixels. Bytes that are no PNG
/// image, and an image whose pixel data does not fit its size, fail with
/// [`ConversionError::ImageDecode`].
pub fn decode_frame(bytes: &[u8]) -> (result: Result<RgbaFrame, ConversionError>)
    ensures
        result is Ok <==> usable(bytes@),
        result matches Ok(frame) ==> png_image(bytes@) == Some(
            (frame.pixel_width(), frame.pixel_height(), frame.pixel_data()),
        ),
        result matches Err(error) ==> error is ImageDecode,
        result matches Err(ConversionError::ImageDecode { cause }) ==> (png_image(bytes@) is Some
            ==> cause@ == size_mismatch_text()),
{
    match decode_png(bytes) {
        Ok((width, height, pixels)) => RgbaFrame::new(width, height, pixels),
        Err(error) => Err(ConversionError::ImageDecode { cause: describe(&error) }),
    }
}

} // verus!
