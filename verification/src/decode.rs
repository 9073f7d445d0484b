//! Image decoding: turning a base64-encoded PNG payload into an
//! uncompressed RGBA pixel buffer with known dimensions.
//!
//! The two decoding steps go through outside crates (`base64` and
//! `image`); each is a pure function of its input, so the result of
//! each call is given a name and the decoder's own contract is stated
//! over those names.

use vstd::prelude::*;
use base64::Engine;

verus! {

/// What the standard, padded base64 decoding of a text yields:
/// `Some(bytes)` on well-formed input, `None` on malformed input.
pub uninterp spec fn base64_decoding(s: Seq<char>) -> Option<Seq<u8>>;

/// What decoding a raster-image container (such as PNG) from a byte
/// buffer yields: `Some((width, height, rgba))` with the pixels in
/// row-major RGBA order, four bytes per pixel, or `None` when the
/// bytes are not a recognizable image.
pub uninterp spec fn raster_decoding(bytes: Seq<u8>) -> Option<(u32, u32, Seq<u8>)>;

/// An uncompressed image: row-major RGBA pixels, four bytes per pixel.
#[derive(Debug)]
pub struct DecodedImage {
    pub width: u32,
    pub height: u32,
    pub pixels: Vec<u8>,
}

impl DecodedImage {
    /// The pixel buffer holds exactly four bytes for each of the
    /// `width * height` pixels.
    pub open spec fn wf(&self) -> bool {
        self.pixels@.len() == self.width as nat * self.height as nat * 4
    }
}

/// Why a payload could not be decoded.
#[derive(Debug)]
pub enum DecodeError {
    /// The text was not well-formed base64.
    Encoding(String),
    /// The decoded bytes were not a recognizable raster image.
    Format(String),
}

impl DecodeError {
    /// The human-readable cause carried by the error.
    pub open spec fn detail_view(&self) -> Seq<char> {
        match self {
            DecodeError::Encoding(s) => s@,
            DecodeError::Format(s) => s@,
        }
    }

    /// Hand out the human-readable cause.
    pub fn into_detail(self) -> (r: String)
        ensures
            r@ == self.detail_view(),
    {
        match self {
            DecodeError::Encoding(s) => s,
            DecodeError::Format(s) => s,
        }
    }
}

/// Relies on `base64::engine::general_purpose::STANDARD.decode` (the
/// `base64` crate): standard-alphabet padded decoding, a pure function
/// of the input text that fails exactly on malformed input.
#[verifier::external_body]
fn base64_decode(encoded: &str) -> (r: Result<Vec<u8>, String>)
    ensures
        r is Ok <==> base64_decoding(encoded@) is Some,
        r matches Ok(v) ==> base64_decoding(encoded@) == Some(v@),
{
    base64::engine::general_purpose::STANDARD
        .decode(encoded)
        .map_err(|e| format!("Failed to decode base64: {}", e))
}

/// Relies on `image::load_from_memory`, `DynamicImage::to_rgba8` and
/// `ImageBuffer::into_raw` (the `image` crate): decoding is a pure
/// function of the input bytes, and the returned RGBA buffer holds
/// exactly `width * height * 4` bytes.
#[verifier::external_body]
fn raster_decode(bytes: &Vec<u8>) -> (r: Result<(u32, u32, Vec<u8>), String>)
    ensures
        r is Ok <==> raster_decoding(bytes@) is Some,
        r matches Ok(t) ==> {
            &&& raster_decoding(bytes@) == Some((t.0, t.1, t.2@))
            &&& t.2@.len() == t.0 as nat * t.1 as nat * 4
        },
{
    match image::load_from_memory(bytes.as_slice()) {
        Ok(img) => {
            let (width, height) = image::GenericImageView::dimensions(&img);
            Ok((width, height, img.to_rgba8().into_raw()))
        }
        Err(e) => Err(format!("Failed to decode PNG: {}", e)),
    }
}

/// Reverse the text encoding of a payload to raw bytes.
pub fn decode_payload(encoded: &str) -> (r: Result<Vec<u8>, DecodeError>)
    ensures
        r is Ok <==> base64_decoding(encoded@) is Some,
        r matches Ok(v) ==> base64_decoding(encoded@) == Some(v@),
        r matches Err(e) ==> e is Encoding,
{
    match base64_decode(encoded) {
        Ok(v) => Ok(v),
        Err(e) => Err(DecodeError::Encoding(e)),
    }
}

/// Parse raw bytes as a raster-image container and materialize the
/// pixels in four-bytes-per-pixel RGBA row-major order.
pub fn decode_raster_image(bytes: &Vec<u8>) -> (r: Result<DecodedImage, DecodeError>)
    ensures
        r is Ok <==> raster_decoding(bytes@) is Some,
        r matches Ok(img) ==> {
            &&& raster_decoding(bytes@) == Some((img.width, img.height, img.pixels@))
            &&& img.wf()
        },
        r matches Err(e) ==> e is Format,
{
    match raster_decode(bytes) {
        Ok((width, height, pixels)) => Ok(DecodedImage { width, height, pixels }),
        Err(e) => Err(DecodeError::Format(e)),
    }
}

/// What the whole decoder yields on a base64-encoded image payload.
pub open spec fn image_decoding(s: Seq<char>) -> Option<(u32, u32, Seq<u8>)> {
    match base64_decoding(s) {
        Some(bytes) => raster_decoding(bytes),
        None => None,
    }
}

/// Decode a base64-encoded image payload into a `DecodedImage`.
pub fn decode_image(encoded: &str) -> (r: Result<DecodedImage, DecodeError>)
    ensures
        r is Ok <==> image_decoding(encoded@) is Some,
        r matches Ok(img) ==> {
            &&& image_decoding(encoded@) == Some((img.width, img.height, img.pixels@))
            &&& img.wf()
        },
        r matches Err(e) ==> (e is Encoding <==> base64_decoding(encoded@) is None),
{
    let bytes = match decode_payload(encoded) {
        Ok(v) => v,
        Err(e) => {
            return Err(e);
        },
    };
    decode_raster_image(&bytes)
}

} // verus!
