use vstd::prelude::*;
use vstd::string::StringExecFns;
use crate::frame::CapturedFrame;

verus! {

/// What image's aspect-preserving thumbnail pass returns for the given
/// RGBA buffer, dimensions and bounds: the thumbnail's RGBA bytes, width
/// and height, fixed by the inputs alone.
pub uninterp spec fn thumbnail_spec(
    pixels: Seq<u8>,
    width: u32,
    height: u32,
    max_w: u32,
    max_h: u32,
) -> (Seq<u8>, u32, u32);

/// Relies on image::DynamicImage::thumbnail: the result is a pure function
/// of the input bitmap and the bounds; it is scaled to fit within the
/// requested bounds, preserving aspect ratio, with each dimension at least
/// 1, and holds 4 RGBA bytes per pixel.
#[verifier::external_body]
fn thumbnail_rgba(frame: &CapturedFrame, max_w: u32, max_h: u32) -> (r: (Vec<u8>, u32, u32))
    requires
        frame.wf(),
        1 <= max_w,
        1 <= max_h,
    ensures
        (r.0@, r.1, r.2) == thumbnail_spec(frame.pixels@, frame.width, frame.height, max_w, max_h),
        1 <= r.1 <= max_w,
        1 <= r.2 <= max_h,
        r.0@.len() == 4 * r.1 * r.2,
{
    let img = image::RgbaImage::from_raw(frame.width, frame.height, frame.pixels.clone())
        .unwrap();
    let thumb = image::DynamicImage::ImageRgba8(img).thumbnail(max_w, max_h);
    let buf = thumb.to_rgba8();
    let (w, h) = buf.dimensions();
    (buf.into_raw(), w, h)
}

/// What image's PNG encoder emits for the given RGBA bitmap: fixed by the
/// bitmap alone.
pub uninterp spec fn png_spec(pixels: Seq<u8>, width: u32, height: u32) -> Seq<u8>;

/// Relies on image::DynamicImage::write_to with the PNG format, writing to
/// an in-memory buffer: encoding is a pure function of the bitmap, and on
/// an encoder failure no buffer is handed back. The encoder's only error
/// paths are zero dimensions, an unsupported color layout (RGBA 8-bit is
/// supported), a buffer whose length does not match the dimensions, and
/// writer errors (none on an in-memory buffer), so for dimensions within
/// the PNG format's 2^31 - 1 bound and an exact buffer, success is owed.
#[verifier::external_body]
fn encode_png(pixels: &Vec<u8>, width: u32, height: u32) -> (r: Option<Vec<u8>>)
    requires
        pixels@.len() == 4 * width * height,
        1 <= width,
        1 <= height,
    ensures
        r matches Some(b) ==> b@ == png_spec(pixels@, width, height),
        width <= 0x7fff_ffff && height <= 0x7fff_ffff ==> r is Some,
{
    let img = match image::RgbaImage::from_raw(width, height, pixels.clone()) {
        Some(i) => i,
        None => return None,
    };
    let mut buffer: Vec<u8> = Vec::new();
    let mut cursor = std::io::Cursor::new(&mut buffer);
    let ok = image::DynamicImage::ImageRgba8(img)
        .write_to(&mut cursor, image::ImageOutputFormat::Png)
        .is_ok();
    if ok { Some(buffer) } else { None }
}

/// What base64's standard alphabet encodes the given bytes to: fixed by
/// the bytes alone.
pub uninterp spec fn base64_spec(bytes: Seq<u8>) -> Seq<char>;

/// Relies on base64's STANDARD engine: encoding is a pure function of the
/// input bytes, emitting one 4-character block per 3 input bytes, the last
/// block padded with `=`, so the length is 4 * ceil(n / 3).
#[verifier::external_body]
fn base64_encode(bytes: &Vec<u8>) -> (r: String)
    ensures
        r@ == base64_spec(bytes@),
        r@.len() == 4 * ((bytes@.len() + 2) / 3),
{
    base64::Engine::encode(&base64::engine::general_purpose::STANDARD, bytes)
}

/// The preview payload for an encoded thumbnail, as handed to the UI:
/// a PNG data URL.
pub open spec fn data_url_spec(png: Seq<u8>) -> Seq<char> {
    "data:image/png;base64,"@ + base64_spec(png)
}

/// Builds the bounded preview for one captured frame: an aspect-preserving
/// thumbnail within `max_w` x `max_h`, PNG-encoded, base64-encoded, and
/// framed as a `data:image/png;base64,...` URL. `None` means the PNG
/// encoder declined the bitmap; such a failure is swallowed by the cycle
/// and never blocks the inference branch. For bounds within the PNG
/// format's dimension limit - every configured bound is - the preview is
/// owed: the encoder cannot fail on the thumbnail.
pub fn build_preview(frame: &CapturedFrame, max_w: u32, max_h: u32) -> (r: Option<String>)
    requires
        frame.wf(),
        1 <= max_w,
        1 <= max_h,
    ensures
        r matches Some(url) ==> {
            let t = thumbnail_spec(frame.pixels@, frame.width, frame.height, max_w, max_h);
            url@ == data_url_spec(png_spec(t.0, t.1, t.2))
        },
        max_w <= 0x7fff_ffff && max_h <= 0x7fff_ffff ==> r is Some,
{
    let (pixels, w, h) = thumbnail_rgba(frame, max_w, max_h);
    let png = match encode_png(&pixels, w, h) {
        Some(p) => p,
        None => {
            return None;
        },
    };
    let b64 = base64_encode(&png);
    let mut url = "data:image/png;base64,".to_string();
    url.append(b64.as_str());
    Some(url)
}

} // verus!
