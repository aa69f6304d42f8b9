use vstd::prelude::*;
use base64::Engine;
use image::ImageEncoder;
use crate::error::CaptureError;
use crate::raster::Raster;

verus! {

/// The PNG byte stream that the image crate's PNG encoder, at its default
/// settings, writes for a `width` by `height` RGBA image with 8 bits per channel.
pub uninterp spec fn png_rgba8(width: u32, height: u32, pixels: Seq<u8>) -> Seq<u8>;

/// The standard, padded base64 text of a byte sequence.
pub uninterp spec fn base64_standard(bytes: Seq<u8>) -> Seq<char>;

/// Length of the padded base64 text of `n` bytes: four characters for each
/// started group of three bytes.
pub open spec fn base64_len(n: nat) -> nat {
    4 * ((n + 2) / 3)
}

/// A character of the standard base64 alphabet, or the padding `=`.
pub open spec fn is_base64_char(c: char) -> bool {
    ('A' <= c && c <= 'Z') || ('a' <= c && c <= 'z') || ('0' <= c && c <= '9')
        || c == '+' || c == '/' || c == '='
}

/// `s` has the shape of the padded base64 text of `n` bytes: the right
/// length, and ASCII characters of the standard alphabet only.
pub open spec fn is_base64_text(s: Seq<char>, n: nat) -> bool {
    s.len() == base64_len(n) && forall|i: int| 0 <= i < s.len() ==> is_base64_char(#[trigger] s[i])
}

/// A `width` by `height` RGBA image can be delivered as text: it is not
/// empty, and the base64 text of its PNG stream fits in memory.
pub open spec fn encodable(width: u32, height: u32, pixels: Seq<u8>) -> bool {
    width > 0 && height > 0 && base64_len(png_rgba8(width, height, pixels).len()) <= usize::MAX
}

#[verifier::external_type_specification]
#[verifier::external_body]
pub struct ExImageError(image::ImageError);

/// Relies on image's `PngEncoder::write_image` with `ExtendedColorType::Rgba8`:
/// on success the bytes written are the PNG stream of the image. The encoder
/// panics unless the buffer holds exactly four bytes per pixel; written into a
/// `Vec`, it fails only on a zero width or height (png's `Writer::init`).
#[verifier::external_body]
fn write_png(width: u32, height: u32, pixels: &Vec<u8>) -> (r: Result<Vec<u8>, image::ImageError>)
    requires
        pixels@.len() == (width as nat) * (height as nat) * 4,
    ensures
        (width > 0 && height > 0) <==> r is Ok,
        r matches Ok(b) ==> b@ == png_rgba8(width, height, pixels@),
{
    let mut out: Vec<u8> = Vec::new();
    let res = image::codecs::png::PngEncoder::new(&mut out).write_image(
        pixels.as_slice(),
        width,
        height,
        image::ExtendedColorType::Rgba8,
    );
    match res {
        Ok(()) => Ok(out),
        Err(e) => Err(e),
    }
}

/// Relies on `ImageError`'s `Display` for the diagnostic text of an encoding failure.
#[verifier::external_body]
fn image_error_text(e: &image::ImageError) -> (r: String) {
    e.to_string()
}

/// Relies on base64's `STANDARD` engine `encode`: padded text over the standard
/// alphabet (`A`-`Z`, `a`-`z`, `0`-`9`, `+`, `/`, padding `=`), whose length the
/// crate's `encoded_len` gives. It panics when that length overflows `usize`.
#[verifier::external_body]
fn encode_base64(bytes: &Vec<u8>) -> (r: String)
    requires
        base64_len(bytes@.len()) <= usize::MAX,
    ensures
        r@ == base64_standard(bytes@),
        is_base64_text(r@, bytes@.len()),
{
    base64::engine::general_purpose::STANDARD.encode(bytes)
}

/// Turns the outcome of PNG encoding into the transport triple
/// `(base64 text, width, height)`. A failed encoding, or PNG bytes whose base64
/// text would not fit in memory, give `EncodeFailed`.
pub fn package_png(png: Result<Vec<u8>, String>, width: u32, height: u32) -> (r: Result<(String, u32, u32), CaptureError>)
    ensures
        png matches Ok(b) ==> (base64_len(b@.len()) <= usize::MAX ==> (r matches Ok((s, w, h))
            && s@ == base64_standard(b@) && is_base64_text(s@, b@.len()) && w == width && h == height)),
        png matches Ok(b) ==> (base64_len(b@.len()) > usize::MAX ==> (r matches Err(e) && e is EncodeFailed)),
        png matches Err(m) ==> (r matches Err(CaptureError::EncodeFailed(d)) && d@ == m@),
{
    match png {
        Ok(bytes) => {
            let n: usize = bytes.len();
            let groups: usize = n / 3 + if n % 3 == 0 { 0 } else { 1 };
            assert(groups == (n + 2) / 3);
            if groups <= usize::MAX / 4 {
                let text = encode_base64(&bytes);
                Ok((text, width, height))
            } else {
                Err(CaptureError::EncodeFailed("encoded image is too large for base64".to_owned()))
            }
        },
        Err(m) => Err(CaptureError::EncodeFailed(m)),
    }
}

/// Encodes a raster as PNG, then as base64 text, with its width and height.
pub fn encode_raster(img: &Raster) -> (r: Result<(String, u32, u32), CaptureError>)
    ensures
        r is Ok <==> encodable(img.spec_width(), img.spec_height(), img.spec_pixels()),
        r matches Ok((s, w, h)) ==> w == img.spec_width() && h == img.spec_height()
            && s@ == base64_standard(png_rgba8(w, h, img.spec_pixels()))
            && is_base64_text(s@, png_rgba8(w, h, img.spec_pixels()).len()),
        r is Err ==> r->Err_0 is EncodeFailed,
{
    let width = img.width();
    let height = img.height();
    let pixels = img.pixels();
    let png = match write_png(width, height, pixels) {
        Ok(b) => Ok(b),
        Err(e) => Err(image_error_text(&e)),
    };
    package_png(png, width, height)
}

} // verus!
