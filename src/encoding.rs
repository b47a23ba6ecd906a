use base64::Engine;
use image::ImageEncoder;
use vstd::prelude::*;

use crate::pixels::{buffer_len, finish_readback, rgba_of, IconError, PixelBuffer};

verus! {

#[verifier::external_type_specification]
#[verifier::external_body]
pub struct ExImageError(image::ImageError);

/// The PNG file that the encoder writes for an RGBA buffer of the given size,
/// or `None` where it reports an error.
pub uninterp spec fn png_of(rgba: Seq<u8>, width: u32, height: u32) -> Option<Seq<u8>>;

/// The padded base64 text, standard alphabet, of a byte sequence.
pub uninterp spec fn base64_of(bytes: Seq<u8>) -> Seq<char>;

/// Relies on `image::codecs::png::PngEncoder::write_image` with 8-bit RGBA:
/// it writes the file into the vector or reports an error, and its output
/// depends on the pixels and the size alone. It panics when the buffer length
/// is not four bytes per pixel, which the precondition rules out.
#[verifier::external_body]
fn write_png(rgba: &Vec<u8>, width: u32, height: u32) -> (r: Result<Vec<u8>, image::ImageError>)
    requires
        rgba@.len() == buffer_len(width as int, height as int),
    ensures
        r is Ok <==> png_of(rgba@, width, height) is Some,
        r matches Ok(png) ==> png_of(rgba@, width, height) == Some(png@),
{
    let mut png = Vec::new();
    let encoder = image::codecs::png::PngEncoder::new(&mut png);
    encoder.write_image(rgba, width, height, image::ExtendedColorType::Rgba8).map(|_| png)
}

/// Relies on `base64::engine::general_purpose::STANDARD.encode`: standard
/// alphabet, with padding.
#[verifier::external_body]
fn base64_standard(bytes: &Vec<u8>) -> (r: String)
    ensures
        r@ == base64_of(bytes@),
{
    base64::engine::general_purpose::STANDARD.encode(bytes)
}

/// The tag in front of every encoded icon.
pub open spec fn data_url_prefix() -> Seq<char> {
    "data:image/png;base64,"@
}

/// Wraps base64 text of a PNG file as a data URL.
pub fn png_data_url(base64_text: &str) -> (r: String)
    ensures
        r@ == data_url_prefix() + base64_text@,
{
    let mut url = String::from_str("data:image/png;base64,");
    url.append(base64_text);
    url
}

/// The data URL that carries the given PNG file.
pub fn png_file_data_url(png: &Vec<u8>) -> (r: String)
    ensures
        r@ == data_url_prefix() + base64_of(png@),
{
    let text = base64_standard(png);
    png_data_url(text.as_str())
}

/// What `encode` yields for a pixel buffer with the given contents.
pub open spec fn encode_spec(rgba: Seq<u8>, width: u32, height: u32) -> Option<Seq<char>> {
    match png_of(rgba, width, height) {
        Some(png) => Some(data_url_prefix() + base64_of(png)),
        None => None,
    }
}

/// Encodes the buffer as a PNG file at its own size and wraps it as
/// `data:image/png;base64,...`. An encoder error is passed on with its text.
pub fn encode(buf: &PixelBuffer) -> (r: Result<String, IconError>)
    requires
        buf.wf(),
    ensures
        r is Ok <==> encode_spec(buf.rgba@, buf.width, buf.height) is Some,
        r matches Ok(url) ==> encode_spec(buf.rgba@, buf.width, buf.height) == Some(url@),
        r is Err ==> r->Err_0 is EncodeFailed,
{
    match write_png(&buf.rgba, buf.width, buf.height) {
        Ok(png) => Ok(png_file_data_url(&png)),
        Err(e) => Err(IconError::EncodeFailed(e.to_string())),
    }
}

/// Turns a bitmap read-back into an encoded icon: `scan_lines` is the number
/// of lines copied (zero on failure) and `bgra` the pixels in BGRA order.
pub fn readback_to_data_url(width: u32, height: u32, scan_lines: i32, bgra: Vec<u8>) -> (r: Result<String, IconError>)
    requires
        width > 0,
        height > 0,
        bgra@.len() == buffer_len(width as int, height as int),
    ensures
        scan_lines == 0 ==> r == Err::<String, IconError>(IconError::ReadbackFailed),
        scan_lines != 0 ==> (r is Ok <==> encode_spec(rgba_of(bgra@), width, height) is Some),
        r matches Ok(url) ==> encode_spec(rgba_of(bgra@), width, height) == Some(url@),
{
    match finish_readback(width, height, scan_lines, bgra) {
        Ok(buf) => encode(&buf),
        Err(e) => Err(e),
    }
}

} // verus!
