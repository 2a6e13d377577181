//! Image encoder adapter: turning a canonical RGB buffer into a compressed
//! byte stream in a chosen container format, and back again for verification
//! and testing.
//!
//! The containers themselves are produced by the `image` crate; this module
//! states what those calls return and proves the adapter's own obligations:
//! the defensive size check, and that decoding what was encoded restores the
//! dimensions exactly and, for the lossless container, the pixels exactly.

use vstd::prelude::*;
use crate::pixels::CanonicalImage;

verus! {

/// The container formats the adapter can produce: a lossless raster
/// container, or a lossy one at a quality level on a 0-100 scale.
#[derive(Clone, Copy, Debug, PartialEq, Eq, Structural)]
pub enum ContainerFormat {
    Png,
    Jpeg { quality: u8 },
}

/// The documented default quality for the lossy container.
pub const DEFAULT_JPEG_QUALITY: u8 = 75;

/// Why encoding failed.
#[derive(Clone, Copy, Debug, PartialEq, Eq, Structural)]
pub enum EncodeError {
    /// The image's buffer length does not equal `width * height * 3`.
    /// A defensive check: the adapter does not trust its caller.
    BufferSizeMismatch,
    /// The underlying encoder refused the image (for instance, dimensions
    /// the container cannot represent).
    EncoderFailure,
}

/// Why decoding failed.
#[derive(Clone, Copy, Debug, PartialEq, Eq, Structural)]
pub enum DecodeError {
    /// The bytes are not a decodable image.
    Undecodable,
}

/// A compressed image: the container tag plus its byte stream.
#[derive(Debug)]
pub struct EncodedImage {
    pub format: ContainerFormat,
    pub bytes: Vec<u8>,
}

/// The PNG byte stream the encoder produces for an RGB8 buffer of the given
/// dimensions. The encoder is a fixed, pure algorithm, so the bytes are a
/// function of the arguments alone.
pub uninterp spec fn png_encoding(width: u32, height: u32, pixels: Seq<u8>) -> Seq<u8>;

/// The JPEG byte stream the encoder produces for an RGB8 buffer at the given
/// quality (clamped by the encoder to 1-100). A function of the arguments
/// alone, for the same reason as [`png_encoding`].
pub uninterp spec fn jpeg_encoding(width: u32, height: u32, quality: u8, pixels: Seq<u8>) -> Seq<u8>;

/// What decoding a byte stream to an RGB8 image yields: `None` when the
/// bytes are not a decodable image, else the width, height and interleaved
/// RGB pixels. A function of the bytes alone.
pub uninterp spec fn decoded_image(bytes: Seq<u8>) -> Option<(u32, u32, Seq<u8>)>;

/// The dimensions a container can represent: PNG any nonzero size, JPEG
/// nonzero up to 65535 on each side. Encoding succeeds exactly on these.
pub open spec fn encodable(format: ContainerFormat, width: u32, height: u32) -> bool {
    match format {
        ContainerFormat::Png => width >= 1 && height >= 1,
        ContainerFormat::Jpeg { .. } => 1 <= width <= 65535 && 1 <= height <= 65535,
    }
}

/// The byte stream a given container format produces.
pub open spec fn encoding_of(
    format: ContainerFormat,
    width: u32,
    height: u32,
    pixels: Seq<u8>,
) -> Seq<u8> {
    match format {
        ContainerFormat::Png => png_encoding(width, height, pixels),
        ContainerFormat::Jpeg { quality } => jpeg_encoding(width, height, quality, pixels),
    }
}

/// Relies on `image::codecs::png::PngEncoder::write_image` (RGB8): it writes
/// the PNG encoding of exactly the given buffer, failing only on a zero
/// dimension (the in-memory writer never fails). PNG is lossless, so
/// decoding the produced bytes restores the dimensions and pixels exactly.
#[verifier::external_body]
fn png_encode_rgb(width: u32, height: u32, pixels: &Vec<u8>) -> (r: Option<Vec<u8>>)
    requires
        pixels@.len() == width * height * 3,
    ensures
        width >= 1 && height >= 1 ==> r is Some,
        width == 0 || height == 0 ==> r is None,
        r matches Some(b) ==> b@ == png_encoding(width, height, pixels@)
            && decoded_image(b@) == Some((width, height, pixels@)),
{
    let mut out: Vec<u8> = Vec::new();
    let encoder = image::codecs::png::PngEncoder::new(&mut out);
    let result = image::ImageEncoder::write_image(
        encoder,
        pixels.as_slice(),
        width,
        height,
        image::ExtendedColorType::Rgb8,
    );
    match result {
        Ok(()) => Some(out),
        Err(_) => None,
    }
}

/// Relies on `image::codecs::jpeg::JpegEncoder::write_image` (RGB8): it
/// writes the JPEG encoding of exactly the given buffer at the given
/// quality, failing only on dimensions outside 1..=65535 (the in-memory
/// writer never fails). JPEG is lossy, but the container records the
/// dimensions, so decoding the produced bytes restores them exactly and
/// yields a buffer of matching size.
#[verifier::external_body]
fn jpeg_encode_rgb(width: u32, height: u32, quality: u8, pixels: &Vec<u8>) -> (r: Option<Vec<u8>>)
    requires
        pixels@.len() == width * height * 3,
    ensures
        1 <= width <= 65535 && 1 <= height <= 65535 ==> r is Some,
        !(1 <= width <= 65535 && 1 <= height <= 65535) ==> r is None,
        r matches Some(b) ==> b@ == jpeg_encoding(width, height, quality, pixels@)
            && (decoded_image(b@) matches Some(d)
                && d.0 == width && d.1 == height && d.2.len() == width * height * 3),
{
    let mut out: Vec<u8> = Vec::new();
    let encoder = image::codecs::jpeg::JpegEncoder::new_with_quality(&mut out, quality);
    let result = image::ImageEncoder::write_image(
        encoder,
        pixels.as_slice(),
        width,
        height,
        image::ExtendedColorType::Rgb8,
    );
    match result {
        Ok(()) => Some(out),
        Err(_) => None,
    }
}

/// Relies on `image::load_from_memory` (with decoding limits disabled)
/// followed by `DynamicImage::to_rgb8`: the result is a function of the
/// bytes alone, and a decoded buffer always matches its stated dimensions.
#[verifier::external_body]
fn decode_rgb(bytes: &Vec<u8>) -> (r: Option<(u32, u32, Vec<u8>)>)
    ensures
        r matches Some(t) ==> decoded_image(bytes@) == Some((t.0, t.1, t.2@))
            && t.2@.len() == t.0 * t.1 * 3,
        r is None ==> decoded_image(bytes@) is None,
{
    let mut reader = image::ImageReader::new(std::io::Cursor::new(bytes.as_slice()));
    reader.no_limits();
    let reader = match reader.with_guessed_format() {
        Ok(r) => r,
        Err(_) => return None,
    };
    match reader.decode() {
        Ok(img) => {
            let rgb = img.to_rgb8();
            Some((rgb.width(), rgb.height(), rgb.into_raw()))
        },
        Err(_) => None,
    }
}

/// Encode a canonical image into the chosen container.
///
/// The adapter first re-checks the image's size invariant and fails with
/// [`EncodeError::BufferSizeMismatch`] rather than trust the caller. A
/// well-formed image encodes successfully exactly when the container can
/// represent its dimensions ([`encodable`]): the result is a function of
/// the image and format alone. On success the bytes are exactly the
/// container's encoding of the pixels, and decoding them restores the
/// dimensions exactly — and, for the lossless container, the pixel bytes
/// exactly (the round-trip law).
pub fn encode_image(img: &CanonicalImage, format: ContainerFormat) -> (r: Result<
    EncodedImage,
    EncodeError,
>)
    ensures
        !img.wf() ==> r == Err::<EncodedImage, EncodeError>(EncodeError::BufferSizeMismatch),
        img.wf() ==> (r is Ok <==> encodable(format, img.width, img.height)),
        img.wf() ==> match r {
            Ok(e) => {
                &&& e.format == format
                &&& e.bytes@ == encoding_of(format, img.width, img.height, img.pixels@)
                &&& decoded_image(e.bytes@) matches Some(d)
                &&& d.0 == img.width
                &&& d.1 == img.height
                &&& (format is Png ==> d.2 == img.pixels@)
            },
            Err(e) => e == EncodeError::EncoderFailure,
        },
{
    proof {
        assert((img.width as int) * (img.height as int) * 3 <= 0xffff_ffff * 0xffff_ffff * 3)
            by (nonlinear_arith)
            requires
                img.width as int <= 0xffff_ffff,
                img.height as int <= 0xffff_ffff,
                img.width >= 0,
                img.height >= 0,
        ;
    }
    let expected: u128 = (img.width as u128) * (img.height as u128) * 3;
    if (img.pixels.len() as u128) != expected {
        return Err(EncodeError::BufferSizeMismatch);
    }
    match format {
        ContainerFormat::Png => match png_encode_rgb(img.width, img.height, &img.pixels) {
            Some(bytes) => Ok(EncodedImage { format, bytes }),
            None => Err(EncodeError::EncoderFailure),
        },
        ContainerFormat::Jpeg { quality } => match jpeg_encode_rgb(
            img.width,
            img.height,
            quality,
            &img.pixels,
        ) {
            Some(bytes) => Ok(EncodedImage { format, bytes }),
            None => Err(EncodeError::EncoderFailure),
        },
    }
}

/// Decode a compressed byte stream back into a canonical image.
///
/// Succeeds exactly when the bytes decode as an image; the result always
/// satisfies the canonical size invariant.
pub fn decode_image(bytes: &Vec<u8>) -> (r: Result<CanonicalImage, DecodeError>)
    ensures
        match decoded_image(bytes@) {
            Some(d) => {
                &&& r matches Ok(i)
                &&& i.width == d.0
                &&& i.height == d.1
                &&& i.pixels@ == d.2
                &&& i.wf()
            },
            None => r == Err::<CanonicalImage, DecodeError>(DecodeError::Undecodable),
        },
{
    match decode_rgb(bytes) {
        Some((width, height, pixels)) => Ok(CanonicalImage { width, height, pixels }),
        None => Err(DecodeError::Undecodable),
    }
}

} // verus!
