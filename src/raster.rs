//! Flat RGB pixel buffers and their encoding as PNG streams.
//!
//! A raster of `width` by `height` pixels is a byte buffer of length
//! `3 * width * height`, in row-major order, with three consecutive bytes
//! (red, green, blue) per pixel at 8-bit depth and no alpha.
use vstd::prelude::*;

verus! {

/// Width in pixels of the images the renderer produces.
pub const IMAGE_WIDTH: u32 = 400;

/// Height in pixels of the images the renderer produces.
pub const IMAGE_HEIGHT: u32 = 400;

/// Length in bytes of the pixel buffer of an `IMAGE_WIDTH` by `IMAGE_HEIGHT` image.
pub const IMAGE_DATA_SIZE: u32 = 3 * IMAGE_WIDTH * IMAGE_HEIGHT;

/// Number of bytes of an RGB raster of `width` by `height` pixels.
pub open spec fn raster_len(width: u32, height: u32) -> int {
    3 * width * height
}

/// The eight bytes every PNG stream starts with.
pub open spec fn png_signature() -> Seq<u8> {
    seq![137u8, 80u8, 78u8, 71u8, 13u8, 10u8, 26u8, 10u8]
}

/// The PNG stream that the png crate's encoder, at its default settings,
/// writes for an 8-bit RGB raster of `width` by `height` pixels.
pub uninterp spec fn png_rgb8_of(pixels: Seq<u8>, width: u32, height: u32) -> Seq<u8>;

/// Why a raster could not be encoded.
#[derive(Debug, PartialEq, Eq, Structural)]
pub enum RasterError {
    /// The buffer's length is not three bytes per pixel of the image.
    BufferSize,
    /// The PNG encoder refused the image.
    Encoding,
}

#[verifier::external_type_specification]
#[verifier::external_body]
pub struct ExEncodingError(png::EncodingError);

/// Relies on png's `Encoder` (`new`, `set_color`, `set_depth`,
/// `write_header`) and `Writer` (`write_image_data`, `finish`) writing into a
/// `Vec<u8>`. The header refuses a zero width or height, accepts 8-bit RGB,
/// and starts with the PNG signature; `write_image_data` takes a buffer of
/// three bytes per pixel; `finish` checks no frame sequence by default, and
/// writes into a `Vec` never fail. The row and buffer sizes are computed in
/// `usize` before the length check, so the buffer must already have its
/// exact length.
#[verifier::external_body]
fn png_encode_rgb8(data: &[u8], width: u32, height: u32) -> (r: Result<Vec<u8>, png::EncodingError>)
    requires
        data@.len() == raster_len(width, height),
    ensures
        width == 0 || height == 0 ==> r is Err,
        width > 0 && height > 0 ==> r is Ok,
        r is Ok ==> r->Ok_0@ == png_rgb8_of(data@, width, height),
        r is Ok ==> png_signature().is_prefix_of(r->Ok_0@),
{
    let mut out: Vec<u8> = Vec::new();
    let mut encoder = png::Encoder::new(&mut out, width, height);
    encoder.set_color(png::ColorType::Rgb);
    encoder.set_depth(png::BitDepth::Eight);
    let mut writer = encoder.write_header()?;
    writer.write_image_data(data)?;
    writer.finish()?;
    Ok(out)
}

/// The length in bytes of a `width` by `height` RGB raster, or `None` where
/// it does not fit in a `usize`.
pub fn raster_size(width: u32, height: u32) -> (r: Option<usize>)
    ensures
        r is Some <==> raster_len(width, height) <= usize::MAX,
        r is Some ==> r->Some_0 == raster_len(width, height),
{
    match (width as usize).checked_mul(height as usize) {
        Some(pixels) => match pixels.checked_mul(3) {
            Some(n) => {
                assert(n == raster_len(width, height)) by (nonlinear_arith)
                    requires
                        pixels == (width as int) * (height as int),
                        n == pixels * 3,
                ;
                Some(n)
            },
            None => {
                assert(raster_len(width, height) > usize::MAX) by (nonlinear_arith)
                    requires
                        pixels == (width as int) * (height as int),
                        pixels * 3 > usize::MAX,
                ;
                None
            },
        },
        None => {
            assert(raster_len(width, height) > usize::MAX) by (nonlinear_arith)
                requires
                    (width as int) * (height as int) > usize::MAX,
            ;
            None
        },
    }
}

/// An all-black `IMAGE_WIDTH` by `IMAGE_HEIGHT` raster.
pub fn blank_image() -> (r: Vec<u8>)
    ensures
        r@.len() == IMAGE_DATA_SIZE,
        forall|i: int| 0 <= i < r@.len() ==> r@[i] == 0,
{
    let n: usize = IMAGE_DATA_SIZE as usize;
    let mut data: Vec<u8> = Vec::new();
    let mut i: usize = 0;
    while i < n
        invariant
            n == IMAGE_DATA_SIZE,
            i <= n,
            data@.len() == i,
            forall|j: int| 0 <= j < data@.len() ==> data@[j] == 0,
        decreases n - i,
    {
        data.push(0);
        i = i + 1;
    }
    data
}

/// Maps the encoder's outcome to this library's error type, keeping the
/// encoded stream on success.
pub fn encoding_outcome(res: Result<Vec<u8>, png::EncodingError>) -> (r: Result<Vec<u8>, RasterError>)
    ensures
        res is Ok ==> r == Ok::<Vec<u8>, RasterError>(res->Ok_0),
        res is Err ==> r == Err::<Vec<u8>, RasterError>(RasterError::Encoding),
{
    match res {
        Ok(bytes) => Ok(bytes),
        Err(_) => Err(RasterError::Encoding),
    }
}

/// Encodes a `width` by `height` RGB raster as a PNG stream.
///
/// A buffer whose length is not `3 * width * height` is refused with
/// `BufferSize` before the encoder runs; an image the encoder refuses (one
/// of zero width or height) gives `Encoding`. Any other raster is encoded.
pub fn encode_rgb(data: &[u8], width: u32, height: u32) -> (r: Result<Vec<u8>, RasterError>)
    ensures
        r == Err::<Vec<u8>, RasterError>(RasterError::BufferSize)
            <==> data@.len() != raster_len(width, height),
        data@.len() == raster_len(width, height) && (width == 0 || height == 0)
            ==> r == Err::<Vec<u8>, RasterError>(RasterError::Encoding),
        data@.len() == raster_len(width, height) && width > 0 && height > 0 ==> r is Ok,
        r is Ok ==> r->Ok_0@ == png_rgb8_of(data@, width, height),
        r is Ok ==> png_signature().is_prefix_of(r->Ok_0@),
{
    let len = data.len();
    let fits = match raster_size(width, height) {
        Some(n) => n == len,
        None => false,
    };
    if fits {
        encoding_outcome(png_encode_rgb8(data, width, height))
    } else {
        Err(RasterError::BufferSize)
    }
}

} // verus!
