//! The animation as a stream of bytes.
//!
//! The `gif` crate produces the bytes. Its encoder writes into a byte vector
//! that this module drains chunk by chunk, so that the caller can append each
//! chunk to the output as soon as it exists.

use crate::error::{ConversionError, WriteTarget};
use crate::picture::RgbaFrame;
use vstd::prelude::*;
use vstd::string::StringExecFns;

verus! {

/// Trade-off between speed and quality of the colour reduction, from 1 (best)
/// to 30 (fastest).
pub const QUANTIZER_SPEED: i32 = 10;

/// Largest width and height that an animation can have.
pub const MAX_DIMENSION: u32 = 0xFFFF;

/// Largest number of bytes in the palette of a frame: 256 colours of three
/// bytes each.
pub const MAX_PALETTE_BYTES: usize = 768;

/// An encoder of the `gif` crate (`gif::Encoder`) with a byte vector as its
/// writer. The verifier sees nothing inside it: what it holds is spoken of
/// through [`pending`] alone.
#[verifier::external_body]
pub struct ByteEncoder {
    inner: gif::Encoder<Vec<u8>>,
}

#[verifier::external_type_specification]
#[verifier::external_body]
pub struct ExGifEncodingError(gif::EncodingError);

/// A frame reduced to at most 256 colours: a palette of RGB triples and one
/// palette index for each pixel.
struct IndexedFrame {
    width: u16,
    height: u16,
    palette: Option<Vec<u8>>,
    indices: Vec<u8>,
    transparent: Option<u8>,
}

impl IndexedFrame {
    /// The palette as plain bytes.
    spec fn palette_bytes(self) -> Option<Seq<u8>> {
        match self.palette {
            Some(palette) => Some(palette@),
            None => None,
        }
    }
}

/// The bytes that an encoder has produced and that have not been taken out of
/// it yet.
pub uninterp spec fn pending(encoder: ByteEncoder) -> Seq<u8>;

/// What `gif::Frame::from_rgba_speed` makes of RGBA pixels: the palette, the
/// palette index of each pixel, and the index that stands for transparency.
pub uninterp spec fn quantized(width: u16, height: u16, pixels: Seq<u8>, speed: i32) -> (
    Option<Seq<u8>>,
    Seq<u8>,
    Option<u8>,
);

/// What `gif::Encoder::write_frame` writes for a frame behind the frame's
/// colour table: the palette indices, compressed and cut into blocks.
pub uninterp spec fn image_data(indices: Seq<u8>) -> Seq<u8>;

/// The two bytes of a 16-bit number, low byte first.
pub open spec fn little_endian(value: u16) -> Seq<u8> {
    seq![(value % 256) as u8, (value / 256) as u8]
}

/// The signature `GIF89a` and the logical screen descriptor of an animation of
/// the given size, followed by the smallest global colour table (two black
/// entries).
pub open spec fn screen_block(width: u16, height: u16) -> Seq<u8> {
    seq![0x47u8, 0x49, 0x46, 0x38, 0x39, 0x61] + little_endian(width) + little_endian(height)
        + seq![0x80u8, 0, 0] + seq![0u8, 0, 0, 0, 0, 0]
}

/// The application extension `NETSCAPE2.0` with a repetition count of zero,
/// which makes players repeat the animation without end.
pub open spec fn loop_block() -> Seq<u8> {
    seq![
        0x21u8,
        0xFF,
        0x0B,
        0x4E,
        0x45,
        0x54,
        0x53,
        0x43,
        0x41,
        0x50,
        0x45,
        0x32,
        0x2E,
        0x30,
        0x03,
        0x01,
        0x00,
        0x00,
        0x00,
    ]
}

/// The graphic control extension of a frame: the frame is kept when the next
/// one is drawn, is shown for `delay` centiseconds, and may name a
/// transparent palette index.
pub open spec fn control_block(delay: u16, transparent: Option<u8>) -> Seq<u8> {
    seq![
        0x21u8,
        0xF9,
        0x04,
        if transparent is Some {
            0x05u8
        } else {
            0x04u8
        },
    ] + little_endian(delay) + seq![
        match transparent {
            Some(index) => index,
            None => 0u8,
        },
        0x00u8,
    ]
}

/// The byte that ends an animation.
pub open spec fn trailer() -> Seq<u8> {
    seq![0x3Bu8]
}

/// Everything that stands in front of the first frame of an endlessly
/// repeating animation of the given size.
pub open spec fn prologue(width: u16, height: u16) -> Seq<u8> {
    screen_block(width, height) + loop_block()
}

/// Number of entries in the colour table of a frame with the given number
/// of colours: the smallest power of two, from 2 to 256, that holds them.
pub open spec fn table_entries(colours: int) -> int {
    if colours <= 2 {
        2
    } else if colours <= 4 {
        4
    } else if colours <= 8 {
        8
    } else if colours <= 16 {
        16
    } else if colours <= 32 {
        32
    } else if colours <= 64 {
        64
    } else if colours <= 128 {
        128
    } else {
        256
    }
}

/// The size of that colour table as the image descriptor gives it: the
/// exponent of the number of entries, less one.
pub open spec fn table_size(colours: int) -> int {
    if colours <= 2 {
        0
    } else if colours <= 4 {
        1
    } else if colours <= 8 {
        2
    } else if colours <= 16 {
        3
    } else if colours <= 32 {
        4
    } else if colours <= 64 {
        5
    } else if colours <= 128 {
        6
    } else {
        7
    }
}

/// The palette of a frame as plain bytes, empty where the frame has none.
pub open spec fn colours_of(palette: Option<Seq<u8>>) -> Seq<u8> {
    match palette {
        Some(palette) => palette,
        None => Seq::empty(),
    }
}

/// The image descriptor and the colour table of a frame that fills the
/// animation: the frame stands at the top left corner, is not interlaced, and
/// brings a colour table of its own, which holds the palette and is filled up
/// with black to a power of two.
pub open spec fn frame_header(width: u16, height: u16, palette: Seq<u8>) -> Seq<u8> {
    let colours = palette.len() as int / 3;
    seq![0x2Cu8, 0, 0, 0, 0] + little_endian(width) + little_endian(height) + seq![
        (0x80 + table_size(colours)) as u8,
    ] + palette.subrange(0, 3 * colours) + Seq::new(
        (3 * (table_entries(colours) - colours)) as nat,
        |i: int| 0u8,
    )
}

/// The bytes with which a frame of the given size and pixels begins when it
/// is shown for `delay` centiseconds: its control block, its image descriptor
/// and its colour table. They are written before the pixels are compressed.
pub open spec fn frame_start(width: u16, height: u16, pixels: Seq<u8>, delay: u16) -> Seq<u8> {
    let reduced = quantized(width, height, pixels, QUANTIZER_SPEED);
    control_block(delay, reduced.2) + frame_header(width, height, colours_of(reduced.0))
}

/// The bytes of one frame of the given size with the given pixels, shown for
/// `delay` centiseconds: its beginning and its compressed pixels.
pub open spec fn frame_chunk(width: u16, height: u16, pixels: Seq<u8>, delay: u16) -> Seq<u8> {
    let reduced = quantized(width, height, pixels, QUANTIZER_SPEED);
    frame_start(width, height, pixels, delay) + image_data(reduced.1)
}

/// What the error says when a frame is larger than the format allows.
pub open spec fn oversize_text() -> Seq<char> {
    "frames are larger than an animation can be"@
}

/// What the error says when a frame differs in size from the first one.
pub open spec fn uneven_text() -> Seq<char> {
    "frame size differs from the first frame"@
}

/// `gif::Encoder::new` over an empty byte vector and with an empty global
/// palette. The encoder then holds the signature, the screen descriptor with
/// the given size and the padded, two-entry global colour table. The outside
/// function refuses only a palette of more than 256 colours and fails only
/// where its writer does, and a byte vector takes every write.
#[verifier::external_body]
fn encoder_new(width: u16, height: u16) -> (result: Result<ByteEncoder, gif::EncodingError>)
    ensures
        result is Ok,
        result matches Ok(encoder) ==> pending(encoder) == screen_block(width, height),
{
    Ok(ByteEncoder { inner: gif::Encoder::new(Vec::new(), width, height, &[])? })
}

/// `gif::Encoder::set_repeat` with `gif::Repeat::Infinite`. The encoder
/// then has written the `NETSCAPE2.0` extension with a count of zero. The
/// outside function fails only where its writer does, and a byte vector takes
/// every write.
#[verifier::external_body]
fn encoder_repeat_forever(encoder: &mut ByteEncoder) -> (result: Result<(), gif::EncodingError>)
    ensures
        result is Ok,
        pending(*final(encoder)) == pending(*old(encoder)) + loop_block(),
{
    encoder.inner.set_repeat(gif::Repeat::Infinite)
}

/// `gif::Frame::from_rgba_speed`: reduces RGBA pixels to a palette of at most
/// 256 colours. The outside function panics on pixel data of another length
/// than four bytes for each pixel and on a speed outside 1 to 30. The frame
/// that it returns has the size that it was given, one palette index for
/// each pixel, and a palette of at most 256 colours of three bytes each.
#[verifier::external_body]
fn quantize(width: u16, height: u16, pixels: Vec<u8>, speed: i32) -> (frame: IndexedFrame)
    requires
        pixels@.len() == width as int * height as int * 4,
        1 <= speed <= 30,
    ensures
        frame.width == width,
        frame.height == height,
        frame.indices@.len() == width as int * height as int,
        frame.palette_bytes() is Some,
        frame.palette_bytes() matches Some(palette) ==> palette.len() <= MAX_PALETTE_BYTES,
        (frame.palette_bytes(), frame.indices@, frame.transparent) == quantized(
            width,
            height,
            pixels@,
            speed,
        ),
{
    let mut pixels = pixels;
    let frame = gif::Frame::from_rgba_speed(width, height, &mut pixels, speed);
    IndexedFrame {
        width: frame.width,
        height: frame.height,
        palette: frame.palette,
        indices: frame.buffer.into_owned(),
        transparent: frame.transparent,
    }
}

/// `gif::Encoder::write_frame` for a frame at the top left corner that is
/// kept when the next one is drawn.
///
/// The outside function refuses a frame with fewer indices than pixels, with
/// a palette of more than 256 colours or with none, and in a debug build it
/// panics on a frame without pixels that has indices: such frames are not
/// accepted here. On the frames that are left it writes the control block,
/// with the delay and the transparent index, then the image descriptor and
/// the colour table, which it fills up with black entries to the next power
/// of two. Before it compresses the indices it reserves memory for
/// the result (`try_reserve`), and it returns an error where the allocator
/// refuses that: this is its one failure on such a frame, it depends on the
/// machine, and what was written before stays written. A byte vector takes
/// every write.
#[verifier::external_body]
fn encoder_write_frame(
    encoder: &mut ByteEncoder,
    frame: &IndexedFrame,
    delay: u16,
) -> (result: Result<(), gif::EncodingError>)
    requires
        frame.indices@.len() == frame.width as int * frame.height as int,
        frame.palette_bytes() matches Some(palette) && palette.len() <= MAX_PALETTE_BYTES,
    ensures
        match result {
            Ok(()) => pending(*final(encoder)) == pending(*old(encoder)) + control_block(
                delay,
                frame.transparent,
            ) + frame_header(frame.width, frame.height, colours_of(frame.palette_bytes()))
                + image_data(frame.indices@),
            Err(_) => pending(*final(encoder)) == pending(*old(encoder)) + control_block(
                delay,
                frame.transparent,
            ) + frame_header(frame.width, frame.height, colours_of(frame.palette_bytes())),
        },
{
    let shaped = gif::Frame {
        delay,
        width: frame.width,
        height: frame.height,
        palette: frame.palette.clone(),
        buffer: std::borrow::Cow::Borrowed(&frame.indices),
        transparent: frame.transparent,
        ..gif::Frame::default()
    };
    encoder.inner.write_frame(&shaped)
}

/// `gif::Encoder::get_mut`, whose byte vector is taken and left empty: hands
/// out the bytes that the encoder has produced so far.
#[verifier::external_body]
fn encoder_take(encoder: &mut ByteEncoder) -> (bytes: Vec<u8>)
    ensures
        bytes@ == pending(*old(encoder)),
        pending(*final(encoder)) == Seq::<u8>::empty(),
{
    std::mem::take(encoder.inner.get_mut())
}

/// `gif::Encoder::into_inner`: writes the trailer and hands out the byte
/// vector, which then ends with the trailer. The outside function fails only
/// where its writer does, and a byte vector takes every write.
#[verifier::external_body]
fn encoder_finish(encoder: ByteEncoder) -> (bytes: Option<Vec<u8>>)
    ensures
        bytes is Some,
        bytes matches Some(bytes) ==> bytes@ == pending(encoder) + trailer(),
{
    encoder.inner.into_inner().ok()
}

/// The text of an error of the `gif` crate, as its `Display` gives it.
#[verifier::external_body]
fn describe(error: &gif::EncodingError) -> (text: String) {
    format!("{}", error)
}

/// An animation that is being written: frames go in, bytes for the output
/// come out.
pub struct AnimationStream {
    encoder: ByteEncoder,
    width: u16,
    height: u16,
}

impl AnimationStream {
    /// Width of every frame.
    pub closed spec fn frame_width(self) -> u16 {
        self.width
    }

    /// Height of every frame.
    pub closed spec fn frame_height(self) -> u16 {
        self.height
    }

    /// The bytes that were produced and not handed out yet.
    pub closed spec fn unsent(self) -> Seq<u8> {
        pending(self.encoder)
    }

    /// Starts an endlessly repeating animation whose frames have the given
    /// size, and hands out the bytes that open it.
    ///
    /// A size that the format cannot hold is refused, and nothing else is.
    pub fn open(width: u32, height: u32) -> (result: Result<
        (AnimationStream, Vec<u8>),
        ConversionError,
    >)
        ensures
            result is Ok <==> width <= MAX_DIMENSION && height <= MAX_DIMENSION,
            result matches Ok((stream, bytes)) ==> {
                &&& stream.frame_width() == width
                &&& stream.frame_height() == height
                &&& stream.unsent() == Seq::<u8>::empty()
                &&& bytes@ == prologue(width as u16, height as u16)
            },
            result matches Err(error) ==> (error matches ConversionError::EncoderInit { cause }
                && cause@ == oversize_text()),
    {
        if width > MAX_DIMENSION || height > MAX_DIMENSION {
            return Err(
                ConversionError::EncoderInit {
                    cause: String::from_str("frames are larger than an animation can be"),
                },
            );
        }
        let width = width as u16;
        let height = height as u16;
        match encoder_new(width, height) {
            Ok(encoder) => {
                let mut encoder = encoder;
                match encoder_repeat_forever(&mut encoder) {
                    Ok(()) => {
                        let bytes = encoder_take(&mut encoder);
                        Ok((AnimationStream { encoder, width, height }, bytes))
                    },
                    Err(error) => Err(ConversionError::EncoderInit { cause: describe(&error) }),
                }
            },
            Err(error) => Err(ConversionError::EncoderInit { cause: describe(&error) }),
        }
    }

    /// Adds a frame that is shown for `delay` centiseconds, and hands out the
    /// bytes that it adds to the output.
    ///
    /// A frame of another size than the animation is refused before the
    /// encoder sees it, and nothing is produced for it. A frame of the right
    /// size fails only where the encoder gets no memory to compress it; the
    /// beginning of the frame is then produced and not handed out.
    pub fn push_frame(&mut self, frame: RgbaFrame, delay: u16) -> (result: Result<
        Vec<u8>,
        ConversionError,
    >)
        ensures
            final(self).frame_width() == old(self).frame_width(),
            final(self).frame_height() == old(self).frame_height(),
            fits(*old(self), frame) ==> match result {
                Ok(bytes) => {
                    &&& bytes@ == old(self).unsent() + frame_chunk(
                        old(self).frame_width(),
                        old(self).frame_height(),
                        frame.pixel_data(),
                        delay,
                    )
                    &&& final(self).unsent() == Seq::<u8>::empty()
                },
                Err(error) => {
                    &&& error matches ConversionError::Write { target: WriteTarget::Frame, .. }
                    &&& final(self).unsent() == old(self).unsent() + frame_start(
                        old(self).frame_width(),
                        old(self).frame_height(),
                        frame.pixel_data(),
                        delay,
                    )
                },
            },
            !fits(*old(self), frame) ==> {
                &&& (result matches Err(ConversionError::ImageDecode { cause }) && cause@
                    == uneven_text())
                &&& final(self).unsent() == old(self).unsent()
            },
    {
        if frame.width() != self.width as u32 || frame.height() != self.height as u32 {
            return Err(
                ConversionError::ImageDecode {
                    cause: String::from_str("frame size differs from the first frame"),
                },
            );
        }
        let pixels = frame.into_pixels();
        assert(pixels@.len() == self.width as int * self.height as int * 4) by (nonlinear_arith)
            requires
                pixels@.len() == 4 * frame.pixel_width() * frame.pixel_height(),
                frame.pixel_width() == self.width,
                frame.pixel_height() == self.height,
        ;
        let reduced = quantize(self.width, self.height, pixels, QUANTIZER_SPEED);
        match encoder_write_frame(&mut self.encoder, &reduced, delay) {
            Ok(()) => Ok(encoder_take(&mut self.encoder)),
            Err(error) => Err(
                ConversionError::Write { target: WriteTarget::Frame, cause: describe(&error) },
            ),
        }
    }

    /// Ends the animation and hands out its last bytes: what was not handed
    /// out before, and the trailer.
    pub fn close(self) -> (bytes: Vec<u8>)
        ensures
            bytes@ == self.unsent() + trailer(),
    {
        encoder_finish(self.encoder).unwrap()
    }
}

/// Whether a frame has the size of the animation that it is meant for.
pub open spec fn fits(stream: AnimationStream, frame: RgbaFrame) -> bool {
    frame.pixel_width() == stream.frame_width() && frame.pixel_height() == stream.frame_height()
}

} // verus!
