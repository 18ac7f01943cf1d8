//! The wire format of an image-tile datagram, and its decoder.
//!
//! A datagram is a ten-byte header followed by raw pixel data. All header
//! fields are little-endian 16-bit integers:
//!
//! | offset | field  |
//! |--------|--------|
//! | 0      | marker, always `0xAA55` |
//! | 2      | x, the destination column |
//! | 4      | y, the destination row |
//! | 6      | width in pixels |
//! | 8      | height in pixels |
//! | 10     | `width * height * 3` bytes of row-major RGB888 |

use byteorder::{ByteOrder, LittleEndian};
use vstd::prelude::*;
use vstd::slice::slice_subrange;

verus! {

/// Number of bytes in the fixed header.
pub const HEADER_LEN: usize = 10;

/// The sentinel that opens every datagram of this protocol.
pub const MARKER: u16 = 0xAA55;

/// Bytes that one pixel takes on the wire.
pub const BYTES_PER_PIXEL: u64 = 3;

/// The pixel bytes of the largest tile that a header can announce.
pub const MAX_PIXEL_LEN: u64 = 12_884_508_675;

/// The value of the little-endian 16-bit field whose first byte is at `at`.
pub open spec fn le16_at(bytes: Seq<u8>, at: int) -> int
    recommends
        0 <= at,
        at + 2 <= bytes.len(),
{
    bytes[at] as int + 256 * (bytes[at + 1] as int)
}

/// The number of pixel bytes of a tile of the given size.
pub open spec fn pixel_len(width: int, height: int) -> int {
    width * height * 3
}

/// Why a datagram was rejected.
#[derive(Clone, Copy, Debug, PartialEq, Eq, Structural)]
pub enum DecodeError {
    /// The buffer ends before the header, or before the pixel data that the
    /// header announces.
    TooShort,
    /// The first two bytes are not the protocol marker.
    BadMarker,
}

/// The geometry fields of a datagram header.
#[derive(Clone, Copy, Debug, PartialEq, Eq, Structural)]
pub struct DatagramHeader {
    /// Destination column of the tile's top-left corner.
    pub x: u16,
    /// Destination row of the tile's top-left corner.
    pub y: u16,
    /// Tile width in pixels.
    pub width: u16,
    /// Tile height in pixels.
    pub height: u16,
}

/// The header that `bytes` starts with, or the reason why it has none.
pub open spec fn header_spec(bytes: Seq<u8>) -> Result<DatagramHeader, DecodeError> {
    if bytes.len() < HEADER_LEN {
        Err(DecodeError::TooShort)
    } else if le16_at(bytes, 0) != MARKER {
        Err(DecodeError::BadMarker)
    } else {
        Ok(
            DatagramHeader {
                x: le16_at(bytes, 2) as u16,
                y: le16_at(bytes, 4) as u16,
                width: le16_at(bytes, 6) as u16,
                height: le16_at(bytes, 8) as u16,
            },
        )
    }
}

/// Reads one little-endian 16-bit integer with
/// `byteorder::LittleEndian::read_u16`, which takes the first two bytes of
/// the slice and panics on a shorter one. The result is the first byte plus
/// 256 times the second.
#[verifier::external_body]
fn read_u16_le(pair: &[u8]) -> (value: u16)
    requires
        pair@.len() >= 2,
    ensures
        value as int == le16_at(pair@, 0),
{
    LittleEndian::read_u16(pair)
}

/// Reads the 16-bit field of `buffer` that starts at `at`.
fn field_at(buffer: &[u8], at: usize) -> (value: u16)
    requires
        at + 2 <= buffer.len(),
    ensures
        value as int == le16_at(buffer@, at as int),
{
    let pair = slice_subrange(buffer, at, at + 2);
    read_u16_le(pair)
}

impl DatagramHeader {
    /// The number of pixel bytes that this header announces.
    pub open spec fn spec_pixel_len(self) -> int {
        pixel_len(self.width as int, self.height as int)
    }

    /// The length of the whole frame: header and pixel data.
    pub open spec fn spec_required_len(self) -> int {
        HEADER_LEN + self.spec_pixel_len()
    }

    /// Reads the header at the start of `buffer`.
    ///
    /// Fails with `TooShort` on fewer than ten bytes, and with `BadMarker`
    /// when the first field is not the marker. The geometry fields are taken
    /// as they come: any 16-bit value is accepted.
    pub fn parse(buffer: &[u8]) -> (result: Result<DatagramHeader, DecodeError>)
        ensures
            result == header_spec(buffer@),
    {
        if buffer.len() < HEADER_LEN {
            return Err(DecodeError::TooShort);
        }
        let marker = field_at(buffer, 0);
        if marker != MARKER {
            return Err(DecodeError::BadMarker);
        }
        let x = field_at(buffer, 2);
        let y = field_at(buffer, 4);
        let width = field_at(buffer, 6);
        let height = field_at(buffer, 8);
        Ok(DatagramHeader { x, y, width, height })
    }

    /// The number of pixel bytes that this header announces, in a width that
    /// holds it for every header.
    pub fn pixel_len(&self) -> (n: u64)
        ensures
            n == self.spec_pixel_len(),
            n <= MAX_PIXEL_LEN,
    {
        let width = self.width as u64;
        let height = self.height as u64;
        assert(width * height <= 65535 * 65535) by (nonlinear_arith)
            requires
                width <= 65535,
                height <= 65535,
        ;
        width * height * BYTES_PER_PIXEL
    }

    /// The length of the whole frame: header and pixel data.
    pub fn required_len(&self) -> (n: u64)
        ensures
            n == self.spec_required_len(),
    {
        HEADER_LEN as u64 + self.pixel_len()
    }
}

/// What an [`ImageBlit`] stands for: a rectangle on the display and the
/// bytes that fill it.
pub struct BlitView {
    /// Destination column of the top-left corner.
    pub x: int,
    /// Destination row of the top-left corner.
    pub y: int,
    /// Width in pixels.
    pub width: int,
    /// Height in pixels.
    pub height: int,
    /// Row-major RGB888 data, three bytes per pixel, no padding.
    pub pixels: Seq<u8>,
}

impl BlitView {
    /// The geometry fits in 16 bits each, and the pixel data fills the
    /// rectangle exactly.
    pub open spec fn wf(self) -> bool {
        &&& 0 <= self.x <= u16::MAX
        &&& 0 <= self.y <= u16::MAX
        &&& 0 <= self.width <= u16::MAX
        &&& 0 <= self.height <= u16::MAX
        &&& self.pixels.len() == pixel_len(self.width, self.height)
    }

    /// The rectangle covers no pixel.
    pub open spec fn is_empty(self) -> bool {
        self.width == 0 || self.height == 0
    }
}

/// A validated command to copy a rectangle of pixels onto the display.
///
/// The pixel data is borrowed from the datagram that it was decoded from,
/// and always holds exactly `width * height * 3` bytes.
#[derive(Clone, Copy, Debug)]
pub struct ImageBlit<'a> {
    x: u16,
    y: u16,
    width: u16,
    height: u16,
    pixels: &'a [u8],
}

impl<'a> View for ImageBlit<'a> {
    type V = BlitView;

    closed spec fn view(&self) -> BlitView {
        BlitView {
            x: self.x as int,
            y: self.y as int,
            width: self.width as int,
            height: self.height as int,
            pixels: self.pixels@,
        }
    }
}

/// What decoding owes on `bytes`: the blit that the datagram describes, or
/// the reason why it is rejected.
///
/// Bytes behind the announced pixel data are ignored.
pub open spec fn decode_spec(bytes: Seq<u8>) -> Result<BlitView, DecodeError> {
    match header_spec(bytes) {
        Err(e) => Err(e),
        Ok(header) => if bytes.len() < header.spec_required_len() {
            Err(DecodeError::TooShort)
        } else {
            Ok(
                BlitView {
                    x: header.x as int,
                    y: header.y as int,
                    width: header.width as int,
                    height: header.height as int,
                    pixels: bytes.subrange(HEADER_LEN as int, header.spec_required_len()),
                },
            )
        },
    }
}

/// The outcome of a decoding, with the blit taken by its view.
pub open spec fn outcome<'a>(result: Result<ImageBlit<'a>, DecodeError>) -> Result<
    BlitView,
    DecodeError,
> {
    match result {
        Ok(blit) => Ok(blit@),
        Err(e) => Err(e),
    }
}

impl<'a> ImageBlit<'a> {
    #[verifier::type_invariant]
    spec fn inv(self) -> bool {
        self.pixels@.len() == pixel_len(self.width as int, self.height as int)
    }

    /// Destination column of the top-left corner.
    pub fn x(&self) -> (x: u16)
        ensures
            x == self@.x,
    {
        self.x
    }

    /// Destination row of the top-left corner.
    pub fn y(&self) -> (y: u16)
        ensures
            y == self@.y,
    {
        self.y
    }

    /// Width in pixels.
    pub fn width(&self) -> (width: u16)
        ensures
            width == self@.width,
    {
        self.width
    }

    /// Height in pixels.
    pub fn height(&self) -> (height: u16)
        ensures
            height == self@.height,
    {
        self.height
    }

    /// The pixel data: `width * height * 3` bytes, row-major RGB888.
    pub fn pixels(&self) -> (pixels: &'a [u8])
        ensures
            pixels@ == self@.pixels,
            pixels@.len() == pixel_len(self@.width, self@.height),
    {
        proof {
            use_type_invariant(self);
        }
        self.pixels
    }

    /// Whether the blit covers no pixel, so that applying it changes nothing.
    pub fn is_empty(&self) -> (empty: bool)
        ensures
            empty == self@.is_empty(),
            empty == (self@.pixels.len() == 0),
    {
        proof {
            use_type_invariant(self);
            lemma_pixel_len_zero(self.width as int, self.height as int);
        }
        self.width == 0 || self.height == 0
    }
}

/// A tile has no pixel bytes exactly when one of its sides is zero.
pub proof fn lemma_pixel_len_zero(width: int, height: int)
    requires
        0 <= width,
        0 <= height,
    ensures
        pixel_len(width, height) >= 0,
        pixel_len(width, height) == 0 <==> (width == 0 || height == 0),
{
    assert(width * height >= 0 && (width * height == 0 <==> (width == 0 || height == 0)))
        by (nonlinear_arith)
        requires
            0 <= width,
            0 <= height,
    ;
}

/// Decodes one datagram.
///
/// The buffer is rejected with `TooShort` when it has fewer than ten bytes,
/// with `BadMarker` when it does not start with the marker, and with
/// `TooShort` when fewer than `width * height * 3` bytes follow the header.
/// Otherwise the result is the blit that the header describes, with the
/// pixel data borrowed from the buffer. A tile with a zero side is accepted.
/// Bytes behind the pixel data are ignored.
pub fn decode<'a>(buffer: &'a [u8]) -> (result: Result<ImageBlit<'a>, DecodeError>)
    ensures
        outcome(result) == decode_spec(buffer@),
{
    let header = match DatagramHeader::parse(buffer) {
        Ok(header) => header,
        Err(e) => {
            return Err(e);
        },
    };
    let required = header.required_len();
    if (buffer.len() as u64) < required {
        return Err(DecodeError::TooShort);
    }
    let pixels = slice_subrange(buffer, HEADER_LEN, required as usize);
    Ok(ImageBlit { x: header.x, y: header.y, width: header.width, height: header.height, pixels })
}

/// A 16-bit field is a 16-bit value.
pub proof fn lemma_le16_range(bytes: Seq<u8>, at: int)
    ensures
        0 <= le16_at(bytes, at) <= u16::MAX,
{
}

/// Every buffer shorter than the header is rejected as too short.
pub proof fn lemma_short_buffer_rejected(bytes: Seq<u8>)
    requires
        bytes.len() < HEADER_LEN,
    ensures
        decode_spec(bytes) == Err::<BlitView, DecodeError>(DecodeError::TooShort),
{
}

/// Every buffer that holds a whole header whose first field is not the
/// marker is rejected for its marker, whatever the rest of it holds.
pub proof fn lemma_bad_marker_rejected(bytes: Seq<u8>)
    requires
        bytes.len() >= HEADER_LEN,
        le16_at(bytes, 0) != MARKER,
    ensures
        decode_spec(bytes) == Err::<BlitView, DecodeError>(DecodeError::BadMarker),
{
}

/// A buffer with a well-marked header is accepted exactly when at least
/// `width * height * 3` bytes follow the header, for the width and height
/// that the header declares; otherwise it is rejected as too short.
pub proof fn lemma_size_check(bytes: Seq<u8>)
    requires
        bytes.len() >= HEADER_LEN,
        le16_at(bytes, 0) == MARKER,
    ensures
        decode_spec(bytes) is Ok <==> bytes.len() - HEADER_LEN >= pixel_len(
            le16_at(bytes, 6),
            le16_at(bytes, 8),
        ),
        decode_spec(bytes) is Err ==> decode_spec(bytes) == Err::<BlitView, DecodeError>(
            DecodeError::TooShort,
        ),
{
    lemma_le16_range(bytes, 6);
    lemma_le16_range(bytes, 8);
}

/// An accepted buffer yields the geometry that its header declares, and
/// pixel data of exactly `width * height * 3` bytes: the bytes of the buffer
/// from offset ten on, one for one.
pub proof fn lemma_pixels_exact(bytes: Seq<u8>)
    requires
        decode_spec(bytes) is Ok,
    ensures
        ({
            let blit = decode_spec(bytes)->Ok_0;
            &&& blit.wf()
            &&& blit.x == le16_at(bytes, 2)
            &&& blit.y == le16_at(bytes, 4)
            &&& blit.width == le16_at(bytes, 6)
            &&& blit.height == le16_at(bytes, 8)
            &&& blit.pixels.len() == blit.width * blit.height * 3
            &&& blit.pixels == bytes.subrange(10, 10 + blit.width * blit.height * 3)
            &&& forall|i: int|
                0 <= i < blit.width * blit.height * 3 ==> blit.pixels[i] == bytes[10 + i]
        }),
{
    lemma_le16_range(bytes, 2);
    lemma_le16_range(bytes, 4);
    lemma_le16_range(bytes, 6);
    lemma_le16_range(bytes, 8);
    lemma_pixel_len_zero(le16_at(bytes, 6), le16_at(bytes, 8));
}

/// A well-marked header with a zero width or a zero height is accepted with
/// nothing behind it, and yields a blit without pixel data.
pub proof fn lemma_zero_area_accepted(bytes: Seq<u8>)
    requires
        bytes.len() >= HEADER_LEN,
        le16_at(bytes, 0) == MARKER,
        le16_at(bytes, 6) == 0 || le16_at(bytes, 8) == 0,
    ensures
        decode_spec(bytes) is Ok,
        decode_spec(bytes)->Ok_0.is_empty(),
        decode_spec(bytes)->Ok_0.pixels == Seq::<u8>::empty(),
{
    lemma_pixel_len_zero(le16_at(bytes, 6), le16_at(bytes, 8));
    lemma_pixels_exact(bytes);
}

/// Decoding has no state: two decodings of buffers with the same contents
/// end alike, with the same error or with blits of the same view.
pub proof fn lemma_decode_repeatable<'a, 'b>(
    bytes: Seq<u8>,
    first: Result<ImageBlit<'a>, DecodeError>,
    second: Result<ImageBlit<'b>, DecodeError>,
)
    requires
        outcome(first) == decode_spec(bytes),
        outcome(second) == decode_spec(bytes),
    ensures
        outcome(first) == outcome(second),
{
}

} // verus!
