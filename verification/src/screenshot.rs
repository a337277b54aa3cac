//! The capture of a frame: what the copy into the read-back buffer is
//! told, and how the bytes that come back become a PNG image.

use vstd::prelude::*;
use vstd::arithmetic::mul::{lemma_mul_upper_bound, lemma_mul_is_commutative};
use crate::buffer::{padded_row_bytes, unpadded_image, lemma_padded_row_aligned, BufferDimensions};
use crate::command::Capture;
use crate::surface::Size;

verus! {

/// Whether a frame of this size can be captured: it has pixels, and a
/// padded row of it can be stated in the 32 bits that a copy has for it.
pub open spec fn capturable(size: Size) -> bool {
    &&& size.width > 0
    &&& size.height > 0
    &&& padded_row_bytes(size.width as int) <= u32::MAX
}

/// The capture of a frame of size `size` that is bound under `slot`.
pub open spec fn capture_of(size: Size, slot: usize) -> Capture {
    Capture {
        dims: BufferDimensions {
            width: size.width,
            height: size.height,
            unpadded_bytes_per_row: (size.width * 4) as u64,
            padded_bytes_per_row: padded_row_bytes(size.width as int) as u64,
        },
        bytes_per_row: padded_row_bytes(size.width as int) as u32,
        buffer_size: (padded_row_bytes(size.width as int) * size.height) as u64,
        slot,
    }
}

/// A capturable frame has a buffer that 64 bits can size, with aligned rows.
pub proof fn lemma_capture_fits(size: Size, slot: usize)
    requires
        capturable(size),
    ensures
        capture_of(size, slot).dims.wf(),
        capture_of(size, slot).bytes_per_row > 0,
        capture_of(size, slot).bytes_per_row % 256 == 0,
        capture_of(size, slot).bytes_per_row == capture_of(size, slot).dims.padded_bytes_per_row,
        capture_of(size, slot).buffer_size == capture_of(size, slot).dims.spec_buffer_size(),
        capture_of(size, slot).dims.spec_buffer_size() <= u64::MAX,
        capture_of(size, slot).dims.width == size.width,
        capture_of(size, slot).dims.height == size.height,
{
    lemma_padded_row_aligned(size.width as int);
    let p = padded_row_bytes(size.width as int);
    lemma_mul_upper_bound(p, u32::MAX as int, size.height as int, u32::MAX as int);
}

/// A frame with pixels whose rows, padded, fit 32 bits can be captured;
/// that is so wherever four bytes per pixel and one alignment less one do.
/// The rows of a frame that can be captured are not too long for the encoder.
pub proof fn lemma_capturable_sizes(size: Size)
    ensures
        size.width > 0 && size.height > 0 && 4 * size.width + 255 <= u32::MAX ==> capturable(size),
        capturable(size) ==> size.width > 0 && size.height > 0 && row_countable(size.width),
{
    lemma_padded_row_aligned(size.width as int);
}

/// The rows of a capture are padded to the least multiple of the copy
/// alignment that holds a row of the frame.
pub proof fn lemma_capture_rows(size: Size, slot: usize)
    requires
        capturable(size),
    ensures
        capture_of(size, slot).bytes_per_row % 256 == 0,
        capture_of(size, slot).bytes_per_row >= 4 * size.width,
        capture_of(size, slot).bytes_per_row - 4 * size.width < 256,
{
    lemma_padded_row_aligned(size.width as int);
}

impl Capture {
    /// Plans the capture of a frame of size `size`, to be bound under
    /// `slot`. `None` when such a frame cannot be captured.
    pub fn plan(size: Size, slot: usize) -> (capture: Option<Capture>)
        ensures
            capture == if capturable(size) {
                Some(capture_of(size, slot))
            } else {
                None::<Capture>
            },
    {
        if size.width == 0 || size.height == 0 {
            return None;
        }
        let dims = BufferDimensions::new(size.width, size.height);
        if dims.padded_bytes_per_row > u32::MAX as u64 {
            return None;
        }
        proof {
            lemma_capture_fits(size, slot);
        }
        let buffer_size: u64 = dims.padded_bytes_per_row * (size.height as u64);
        Some(
            Capture { dims, bytes_per_row: dims.padded_bytes_per_row as u32, buffer_size, slot },
        )
    }
}

/// The ways in which the PNG encoder can fail.
#[derive(Clone, Copy, Debug, PartialEq, Eq, Structural)]
pub enum EncodeFailure {
    /// Writing the output failed.
    Io,
    /// The image cannot be a PNG.
    Format,
    /// The encoder was handed something that does not fit the image.
    Parameter,
    /// The image is beyond the encoder's limits.
    LimitsExceeded,
}

/// Why a frame that was read back did not become an image.
#[derive(Clone, Copy, Debug, PartialEq, Eq, Structural)]
pub enum ScreenshotError {
    /// A row of the frame has more bytes than 32 bits can count, which is
    /// as far as the encoder counts within a row.
    RowTooLong,
    /// The bytes are not a buffer of the frame's layout.
    BufferMismatch,
    /// The frame has no pixels.
    EmptyImage,
    /// The encoder refused.
    Encoding(EncodeFailure),
}

/// The four bytes of `value`, most significant first.
pub open spec fn be_bytes(value: u32) -> Seq<u8> {
    seq![
        (value / 16777216) as u8,
        (value / 65536 % 256) as u8,
        (value / 256 % 256) as u8,
        (value % 256) as u8,
    ]
}

/// The number whose four bytes, most significant first, are `bytes`.
pub open spec fn be_value(bytes: Seq<u8>) -> int {
    bytes[0] * 16777216 + bytes[1] * 65536 + bytes[2] * 256 + bytes[3]
}

/// What every PNG file begins with: the signature, then the length and
/// the name of the header chunk.
pub open spec fn png_preamble() -> Seq<u8> {
    seq![137u8, 80, 78, 71, 13, 10, 26, 10, 0, 0, 0, 13, 73, 72, 68, 82]
}

/// Bytes of a PNG file up to the end of the header chunk's data.
pub const PNG_HEADER_LEN: usize = 29;

/// The beginning of the PNG file of an RGBA image of `width` by `height`
/// pixels with eight bits per channel: the preamble, the width and the
/// height, the bit depth 8, the colour type 6, and three zeros for
/// compression, filter and interlace.
pub open spec fn png_header(width: u32, height: u32) -> Seq<u8> {
    png_preamble() + be_bytes(width) + be_bytes(height) + seq![8u8, 6, 0, 0, 0]
}

/// The size that the header of the PNG file `file` states, if the file
/// begins as a PNG file does.
pub open spec fn stated_size(file: Seq<u8>) -> Option<Size> {
    if file.len() >= 24 && file.subrange(0, 16) == png_preamble() && be_value(
        file.subrange(16, 20),
    ) <= u32::MAX && be_value(file.subrange(20, 24)) <= u32::MAX {
        Some(
            Size {
                width: be_value(file.subrange(16, 20)) as u32,
                height: be_value(file.subrange(20, 24)) as u32,
            },
        )
    } else {
        None
    }
}

/// Reading back the four bytes of a number gives the number.
pub proof fn lemma_be_round_trip(value: u32)
    ensures
        be_bytes(value).len() == 4,
        be_value(be_bytes(value)) == value,
{
}

/// A file that begins with the header of an image states the image's size.
pub proof fn lemma_header_states_size(file: Seq<u8>, width: u32, height: u32)
    requires
        file.len() >= PNG_HEADER_LEN,
        file.subrange(0, PNG_HEADER_LEN as int) == png_header(width, height),
    ensures
        stated_size(file) == Some(Size { width, height }),
{
    let header = png_header(width, height);
    assert forall|i: int| 0 <= i < PNG_HEADER_LEN implies file[i] == header[i] by {
        assert(file.subrange(0, PNG_HEADER_LEN as int)[i] == file[i]);
    }
    assert(file.subrange(0, 16) =~= png_preamble());
    assert(file.subrange(16, 20) =~= be_bytes(width));
    assert(file.subrange(20, 24) =~= be_bytes(height));
    lemma_be_round_trip(width);
    lemma_be_round_trip(height);
}

/// Reads four bytes of `file` from `at` on as a number, most significant first.
fn read_be(file: &[u8], at: usize) -> (value: u64)
    requires
        at + 4 <= file@.len(),
    ensures
        value == be_value(file@.subrange(at as int, at + 4)),
{
    (file[at] as u64) * 16777216 + (file[at + 1] as u64) * 65536 + (file[at + 2] as u64) * 256 + (
    file[at + 3] as u64)
}

/// Reads the size that the header of a PNG file states. `None` when the
/// file does not begin as a PNG file does.
pub fn png_dimensions(file: &[u8]) -> (size: Option<Size>)
    ensures
        size == stated_size(file@),
{
    if file.len() < 24 {
        return None;
    }
    let preamble: [u8; 16] = [137, 80, 78, 71, 13, 10, 26, 10, 0, 0, 0, 13, 73, 72, 68, 82];
    let mut i: usize = 0;
    while i < 16
        invariant
            i <= 16,
            file@.len() >= 24,
            preamble@ == png_preamble(),
            forall|k: int| 0 <= k < i ==> file@[k] == png_preamble()[k],
        decreases 16 - i,
    {
        if file[i] != preamble[i] {
            assert(file@.subrange(0, 16)[i as int] != png_preamble()[i as int]);
            return None;
        }
        i += 1;
    }
    assert(file@.subrange(0, 16) =~= png_preamble());
    let width = read_be(file, 16);
    let height = read_be(file, 20);
    if width > u32::MAX as u64 || height > u32::MAX as u64 {
        return None;
    }
    Some(Size { width: width as u32, height: height as u32 })
}

/// `png::EncodingError`, the error of the `png` crate's encoder, taken as
/// it is: nothing is known of what a value of it holds.
#[verifier::external_type_specification]
#[verifier::external_body]
pub struct ExEncodingError(png::EncodingError);

/// The PNG file that `png::Encoder` writes for an RGBA image of `width` by
/// `height` pixels with eight bits per channel, whose bytes are `pixels`.
/// The encoder reads nothing but these three, so the file is theirs alone.
pub uninterp spec fn png_rgba8(width: u32, height: u32, pixels: Seq<u8>) -> Seq<u8>;

/// Encodes an image with `png::Encoder`, into memory: `Encoder::new`,
/// `set_depth` with eight bits, `set_color` with RGBA, `write_header`,
/// `Writer::write_image_data`, `Writer::finish`. Not proved, but taken from
/// the encoder:
///
/// - It succeeds. `write_header` refuses only an image without width or
///   height and a colour type that does not go with the bit depth;
///   `write_image_data` refuses only an indexed image without palette and
///   data of another length than the image's; the order of images is not
///   checked unless asked for; all else that can fail is the writing, and
///   the writer is a vector in memory.
/// - What it wrote is the PNG file of the image.
/// - That file begins as `write_header` writes it, with the signature and
///   the header chunk that holds width, height, bit depth and colour type.
///
/// The image must have pixels and `pixels` must hold four bytes for each
/// of them; with that the encoder's own size computation stays in range.
/// A row must have no more bytes than 32 bits can count: the encoder's
/// compressor, `fdeflate::Compressor::write_data`, is handed one row at a
/// time and counts a run of zero bytes within it in 32 bits.
#[verifier::external_body]
fn png_encode_rgba8(width: u32, height: u32, pixels: &[u8]) -> (encoded: Result<
    Vec<u8>,
    png::EncodingError,
>)
    requires
        width > 0,
        height > 0,
        4 * width <= u32::MAX,
        pixels@.len() == width * height * 4,
    ensures
        encoded is Ok,
        encoded matches Ok(bytes) ==> bytes@ == png_rgba8(width, height, pixels@),
        encoded matches Ok(bytes) ==> bytes@.len() >= PNG_HEADER_LEN && bytes@.subrange(
            0,
            PNG_HEADER_LEN as int,
        ) == png_header(width, height),
{
    let mut out: Vec<u8> = Vec::new();
    let mut encoder = png::Encoder::new(&mut out, width, height);
    encoder.set_depth(png::BitDepth::Eight);
    encoder.set_color(png::ColorType::Rgba);
    let mut writer = encoder.write_header()?;
    writer.write_image_data(pixels)?;
    writer.finish()?;
    Ok(out)
}

/// Tells the four variants of `png::EncodingError` apart. Nothing is
/// claimed of which one an error is.
#[verifier::external_body]
fn encoding_failure(error: &png::EncodingError) -> (kind: EncodeFailure) {
    match error {
        png::EncodingError::IoError(_) => EncodeFailure::Io,
        png::EncodingError::Format(_) => EncodeFailure::Format,
        png::EncodingError::Parameter(_) => EncodeFailure::Parameter,
        png::EncodingError::LimitsExceeded => EncodeFailure::LimitsExceeded,
    }
}

/// What the capture makes of the encoder's answer: the file as it is, or
/// the encoder's failure as an error of the capture.
pub fn encoded_image(encoded: Result<Vec<u8>, png::EncodingError>) -> (image: Result<
    Vec<u8>,
    ScreenshotError,
>)
    ensures
        encoded matches Ok(bytes) ==> image == Ok::<Vec<u8>, ScreenshotError>(bytes),
        encoded is Err ==> (image matches Err(e) && e is Encoding),
{
    match encoded {
        Ok(bytes) => Ok(bytes),
        Err(error) => Err(ScreenshotError::Encoding(encoding_failure(&error))),
    }
}

/// The pixels of the frame that `data` holds in the layout `dims`.
pub open spec fn frame_pixels(dims: BufferDimensions, data: Seq<u8>) -> Seq<u8> {
    unpadded_image(
        data,
        dims.height as nat,
        dims.padded_bytes_per_row as nat,
        dims.unpadded_bytes_per_row as nat,
    )
}

/// Whether `data` is a buffer of the layout `dims`: the layout's byte
/// counts are those of its width, and `data` holds all its padded rows.
pub open spec fn fits_layout(dims: BufferDimensions, data: Seq<u8>) -> bool {
    dims.wf() && data.len() == dims.spec_buffer_size()
}

/// Whether a row of `width` pixels has no more bytes than 32 bits can count.
pub open spec fn row_countable(width: u32) -> bool {
    4 * width <= u32::MAX
}

/// Turns a frame that was read back into a PNG file.
///
/// Without a file system there is nowhere to store an image, and nothing
/// is done: the answer is `Ok(None)`. With one, `mapped` holds the bytes of
/// the read-back buffer. A buffer that could not be mapped is fatal to the
/// capture: whoever maps the buffer ends the program then, and does not
/// ask for an image.
///
/// The rows are freed of their padding and handed to the encoder together
/// with the frame's size. The file is an RGBA image of eight bits per
/// channel, and its header states the size that the surface had when the
/// frame was captured. Refused are, in this order: a frame whose rows are
/// too long for the encoder, bytes that are no buffer of the layout, and a
/// frame without pixels. No frame that `Capture::plan` plans is refused
/// for its rows.
pub fn create_png(has_file_system: bool, dims: &BufferDimensions, mapped: Option<&[u8]>) -> (image:
    Result<Option<Vec<u8>>, ScreenshotError>)
    requires
        has_file_system ==> mapped is Some,
    ensures
        !has_file_system ==> image == Ok::<Option<Vec<u8>>, ScreenshotError>(None),
        has_file_system && !row_countable(dims.width) ==> image == Err::<
            Option<Vec<u8>>,
            ScreenshotError,
        >(ScreenshotError::RowTooLong),
        has_file_system && row_countable(dims.width) && !fits_layout(*dims, mapped->0@) ==> image
            == Err::<Option<Vec<u8>>, ScreenshotError>(ScreenshotError::BufferMismatch),
        has_file_system && row_countable(dims.width) && fits_layout(*dims, mapped->0@) && (
        dims.width == 0 || dims.height == 0) ==> image == Err::<Option<Vec<u8>>, ScreenshotError>(
            ScreenshotError::EmptyImage,
        ),
        has_file_system && row_countable(dims.width) && fits_layout(*dims, mapped->0@)
            && dims.width > 0 && dims.height > 0 ==> {
            &&& image matches Ok(Some(bytes))
            &&& bytes@ == png_rgba8(dims.width, dims.height, frame_pixels(*dims, mapped->0@))
            &&& bytes@.len() >= PNG_HEADER_LEN
            &&& bytes@.subrange(0, PNG_HEADER_LEN as int) == png_header(dims.width, dims.height)
            &&& stated_size(bytes@) == Some(Size { width: dims.width, height: dims.height })
        },
{
    let data = match mapped {
        Some(data) => data,
        None => {
            return Ok(None);
        },
    };
    if !has_file_system {
        return Ok(None);
    }
    if dims.width as u64 * 4 > u32::MAX as u64 {
        return Err(ScreenshotError::RowTooLong);
    }
    let pixels = match dims.strip_row_padding(data) {
        Some(pixels) => pixels,
        None => {
            return Err(ScreenshotError::BufferMismatch);
        },
    };
    if dims.width == 0 || dims.height == 0 {
        return Err(ScreenshotError::EmptyImage);
    }
    proof {
        lemma_mul_is_commutative(dims.width as int, dims.height as int);
        assert(pixels@.len() == dims.height * (dims.width * 4));
        assert(dims.height * (dims.width * 4) == dims.width * dims.height * 4) by (nonlinear_arith);
    }
    match encoded_image(png_encode_rgba8(dims.width, dims.height, pixels.as_slice())) {
        Ok(bytes) => {
            proof {
                lemma_header_states_size(bytes@, dims.width, dims.height);
            }
            Ok(Some(bytes))
        },
        Err(error) => Err(error),
    }
}

} // verus!
