//! Encoding a capture into the bytes of its image file (PNG, JPEG or WebP)
//! with the `image` crate's encoders; writing the file is left to the caller.

use vstd::prelude::*;
use crate::annotation::RgbaFrame;
use crate::error::AppError;
use crate::recording::gif_frames::{rgba_to_rgb, spec_rgb_of};
use crate::text::str_eq;

verus! {

/// What `image::codecs::jpeg::JpegEncoder::new_with_quality(.., quality)`
/// writes for `width` x `height` RGB pixels: the file's bytes, or the text of
/// its error.
pub uninterp spec fn jpeg_encoding(rgb: Seq<u8>, width: u32, height: u32, quality: u8) -> Result<
    Seq<u8>,
    Seq<char>,
>;

/// What `image::codecs::webp::WebPEncoder::new_lossless` writes for
/// `width` x `height` RGBA pixels: the file's bytes, or the text of its error.
pub uninterp spec fn webp_lossless_encoding(rgba: Seq<u8>, width: u32, height: u32) -> Result<
    Seq<u8>,
    Seq<char>,
>;

/// What `image::codecs::png::PngEncoder::new_with_quality(.., Fast, Sub)`
/// writes for `width` x `height` RGBA pixels: the file's bytes, or the text
/// of its error.
pub uninterp spec fn png_fast_sub_encoding(rgba: Seq<u8>, width: u32, height: u32) -> Result<
    Seq<u8>,
    Seq<char>,
>;

/// `JpegEncoder::new_with_quality(&mut out, quality).encode(rgb, width,
/// height, Rgb8)` into a byte vector. The encoder accepts every size from
/// 1 to 65535 in each direction and writes to memory without I/O failure,
/// so it succeeds there; otherwise it reports the invalid size.
#[verifier::external_body]
pub(crate) fn jpeg_encode(rgb: &[u8], width: u32, height: u32, quality: u8) -> (r: Result<Vec<u8>, String>)
    requires
        rgb@.len() == width * height * 3,
    ensures
        match r {
            Ok(v) => jpeg_encoding(rgb@, width, height, quality) == Ok::<Seq<u8>, Seq<char>>(v@),
            Err(m) => jpeg_encoding(rgb@, width, height, quality) == Err::<Seq<u8>, Seq<char>>(m@),
        },
        1 <= width <= 65535 && 1 <= height <= 65535 ==> r is Ok,
{
    let mut out: Vec<u8> = Vec::new();
    let mut encoder = image::codecs::jpeg::JpegEncoder::new_with_quality(&mut out, quality);
    match encoder.encode(rgb, width, height, image::ExtendedColorType::Rgb8) {
        Ok(()) => Ok(out),
        Err(e) => Err(e.to_string()),
    }
}

/// `WebPEncoder::new_lossless(&mut out).encode(rgba, width, height, Rgba8)`
/// into a byte vector. The encoder accepts every size from 1 to 16384 in
/// each direction and writes to memory without I/O failure, so it succeeds
/// there; otherwise it reports invalid dimensions.
#[verifier::external_body]
pub(crate) fn webp_lossless_encode(rgba: &[u8], width: u32, height: u32) -> (r: Result<Vec<u8>, String>)
    requires
        rgba@.len() == width * height * 4,
    ensures
        match r {
            Ok(v) => webp_lossless_encoding(rgba@, width, height) == Ok::<Seq<u8>, Seq<char>>(v@),
            Err(m) => webp_lossless_encoding(rgba@, width, height) == Err::<Seq<u8>, Seq<char>>(m@),
        },
        1 <= width <= 16384 && 1 <= height <= 16384 ==> r is Ok,
{
    let mut out: Vec<u8> = Vec::new();
    let encoder = image::codecs::webp::WebPEncoder::new_lossless(&mut out);
    match encoder.encode(rgba, width, height, image::ExtendedColorType::Rgba8) {
        Ok(()) => Ok(out),
        Err(e) => Err(e.to_string()),
    }
}

/// `PngEncoder::new_with_quality(&mut out, CompressionType::Fast,
/// FilterType::Sub)` writing `width` x `height` RGBA pixels into a byte
/// vector. The png crate refuses a zero width or height among other
/// checks; when it succeeds is not stated here.
#[verifier::external_body]
pub(crate) fn png_fast_sub_encode(rgba: &[u8], width: u32, height: u32) -> (r: Result<Vec<u8>, String>)
    requires
        rgba@.len() == width * height * 4,
    ensures
        match r {
            Ok(v) => png_fast_sub_encoding(rgba@, width, height) == Ok::<Seq<u8>, Seq<char>>(v@),
            Err(m) => png_fast_sub_encoding(rgba@, width, height) == Err::<Seq<u8>, Seq<char>>(m@),
        },
{
    let mut out: Vec<u8> = Vec::new();
    let encoder = image::codecs::png::PngEncoder::new_with_quality(
        &mut out,
        image::codecs::png::CompressionType::Fast,
        image::codecs::png::FilterType::Sub,
    );
    match image::ImageEncoder::write_image(encoder, rgba, width, height, image::ExtendedColorType::Rgba8) {
        Ok(()) => Ok(out),
        Err(e) => Err(e.to_string()),
    }
}

/// The file bytes of a capture in the configured format, or the
/// encoder's error text: JPEG at quality 85 of the RGB channels for `jpg`
/// and `jpeg`, lossless WebP for `webp`, PNG (fast compression, Sub filter)
/// for anything else.
pub open spec fn spec_capture_encoding(rgba: Seq<u8>, width: u32, height: u32, format: Seq<char>) -> Result<
    Seq<u8>,
    Seq<char>,
> {
    if format == "jpg"@ || format == "jpeg"@ {
        jpeg_encoding(spec_rgb_of(rgba), width, height, 85)
    } else if format == "webp"@ {
        webp_lossless_encoding(rgba, width, height)
    } else {
        png_fast_sub_encoding(rgba, width, height)
    }
}

/// Encodes a capture for saving in `format`; an encoder failure is a
/// capture error carrying the encoder's text.
pub fn encode_capture(rgba: &[u8], width: u32, height: u32, format: &str) -> (r: Result<Vec<u8>, AppError>)
    requires
        rgba@.len() == width * height * 4,
    ensures
        match spec_capture_encoding(rgba@, width, height, format@) {
            Ok(b) => r matches Ok(v) && v@ == b,
            Err(m) => r matches Err(e) && e is Capture && e.message() == m,
        },
        (format@ == "jpg"@ || format@ == "jpeg"@) && 1 <= width <= 65535 && 1 <= height <= 65535
            ==> r is Ok,
        format@ == "webp"@ && 1 <= width <= 16384 && 1 <= height <= 16384 ==> r is Ok,
{
    let encoded = if str_eq(format, "jpg") || str_eq(format, "jpeg") {
        let rgb = rgba_to_rgb(rgba);
        assert(rgb@.len() == width * height * 3) by (nonlinear_arith)
            requires
                rgb@.len() == rgba@.len() / 4 * 3,
                rgba@.len() == width * height * 4,
        ;
        jpeg_encode(rgb.as_slice(), width, height, 85)
    } else if str_eq(format, "webp") {
        webp_lossless_encode(rgba, width, height)
    } else {
        png_fast_sub_encode(rgba, width, height)
    };
    match encoded {
        Ok(v) => Ok(v),
        Err(m) => Err(AppError::Capture(m)),
    }
}

/// What `DynamicImage::save` writes for an RGBA image saved under
/// `file_name`: the encoding the image crate picks from the name's
/// extension (converting the pixels where the encoder needs it), or the text
/// of its error.
pub uninterp spec fn image_encoding_for_name(rgba: Seq<u8>, width: u32, height: u32, file_name: Seq<char>) -> Result<
    Seq<u8>,
    Seq<char>,
>;

/// `image::ImageFormat::from_path(file_name)` then
/// `DynamicImage::ImageRgba8(..).write_to(.., format)` into memory: the bytes
/// `DynamicImage::save` would write to a file of that name.
#[verifier::external_body]
pub(crate) fn encode_for_name(rgba: &[u8], width: u32, height: u32, file_name: &str) -> (r: Result<Vec<u8>, String>)
    requires
        rgba@.len() == width * height * 4,
    ensures
        match r {
            Ok(v) => image_encoding_for_name(rgba@, width, height, file_name@) == Ok::<
                Seq<u8>,
                Seq<char>,
            >(v@),
            Err(m) => image_encoding_for_name(rgba@, width, height, file_name@) == Err::<
                Seq<u8>,
                Seq<char>,
            >(m@),
        },
{
    let format = match image::ImageFormat::from_path(file_name) {
        Ok(f) => f,
        Err(e) => return Err(e.to_string()),
    };
    let img = image::RgbaImage::from_raw(width, height, rgba.to_vec()).unwrap();
    let mut out = std::io::Cursor::new(Vec::new());
    match image::DynamicImage::ImageRgba8(img).write_to(&mut out, format) {
        Ok(()) => Ok(out.into_inner()),
        Err(e) => Err(e.to_string()),
    }
}

/// The bytes of the annotated image saved as `file_name` (its extension
/// picks the format); an encoder failure is an annotation error.
pub fn encode_annotated(frame: &RgbaFrame, file_name: &str) -> (r: Result<Vec<u8>, AppError>)
    requires
        frame.pixels@.len() == frame.width * frame.height * 4,
    ensures
        match image_encoding_for_name(frame.pixels@, frame.width, frame.height, file_name@) {
            Ok(b) => r matches Ok(v) && v@ == b,
            Err(m) => r matches Err(e) && e is Annotation && e.message()
                == "Failed to save annotated image: "@ + m,
        },
{
    match encode_for_name(frame.pixels.as_slice(), frame.width, frame.height, file_name) {
        Ok(v) => Ok(v),
        Err(m) => {
            let mut msg = String::from_str("Failed to save annotated image: ");
            msg.append(m.as_str());
            Err(AppError::Annotation(msg))
        },
    }
}

} // verus!
