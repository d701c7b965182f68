//! Image preparation for the platform text-recognition engines.

use vstd::prelude::*;
use crate::annotation::{base64_standard_decode, decode_base64, RgbaFrame};
use crate::error::AppError;
use vstd::string::StringSliceAdditionalSpecFns;

verus! {

/// The size text recognition runs at: images narrower or lower than 256
/// pixels are doubled in both directions (the engines miss small text);
/// `None` means the image is used as it is.
pub fn ocr_upscale_dims(width: u32, height: u32) -> (r: Option<(u32, u32)>)
    requires
        (width < 256 || height < 256) ==> width * 2 <= u32::MAX && height * 2 <= u32::MAX,
    ensures
        r == (if width < 256 || height < 256 {
            Some(((width * 2) as u32, (height * 2) as u32))
        } else {
            None
        }),
{
    if width < 256 || height < 256 {
        Some((width * 2, height * 2))
    } else {
        None
    }
}

/// The pixel bytes with red and blue exchanged in every complete four-byte
/// pixel (RGBA to BGRA and back); trailing bytes of an incomplete pixel are
/// kept.
pub open spec fn spec_swap_red_blue(px: Seq<u8>) -> Seq<u8> {
    Seq::new(
        px.len(),
        |k: int|
            if k < px.len() / 4 * 4 && k % 4 == 0 {
                px[k + 2]
            } else if k < px.len() / 4 * 4 && k % 4 == 2 {
                px[k - 2]
            } else {
                px[k]
            },
    )
}

/// Converts RGBA pixels to the BGRA layout the Windows engine expects.
pub fn rgba_to_bgra(rgba: &[u8]) -> (bgra: Vec<u8>)
    ensures
        bgra@ == spec_swap_red_blue(rgba@),
{
    let len = rgba.len();
    let mut out: Vec<u8> = Vec::new();
    let mut k: usize = 0;
    while k < len
        invariant
            len == rgba@.len(),
            k <= len,
            out@.len() == k,
            forall|j: int| 0 <= j < k ==> #[trigger] out@[j] == spec_swap_red_blue(rgba@)[j],
        decreases len - k,
    {
        let full = len / 4 * 4;
        let b = if k < full && k % 4 == 0 {
            rgba[k + 2]
        } else if k < full && k % 4 == 2 {
            rgba[k - 2]
        } else {
            rgba[k]
        };
        out.push(b);
        k += 1;
    }
    assert(out@ =~= spec_swap_red_blue(rgba@));
    out
}

/// A text-recognition selection in image coordinates as `(left, top,
/// width, height)`: corners ordered, refused when smaller than 3 pixels in
/// either direction.
pub fn ocr_selection(x1: u32, y1: u32, x2: u32, y2: u32) -> (r: Result<(u32, u32, u32, u32), AppError>)
    ensures
        ({
            let l = if x1 < x2 { x1 } else { x2 };
            let t = if y1 < y2 { y1 } else { y2 };
            let w = (if x1 > x2 { x1 } else { x2 }) - l;
            let h = (if y1 > y2 { y1 } else { y2 }) - t;
            &&& (w < 3 || h < 3) ==> (r matches Err(e) && e is Ocr && e.message()
                == "Selection too small"@)
            &&& (w >= 3 && h >= 3) ==> r == Ok::<(u32, u32, u32, u32), AppError>(
                (l, t, w as u32, h as u32),
            )
        }),
{
    let left = x1.min(x2);
    let top = y1.min(y2);
    let w = x1.max(x2) - left;
    let h = y1.max(y2) - top;
    if w < 3 || h < 3 {
        return Err(AppError::Ocr(String::from_str("Selection too small")));
    }
    Ok((left, top, w, h))
}

/// The notification body for recognized text: its first 80 characters,
/// followed by `...` when the text is longer than 80 bytes.
pub fn ocr_text_preview(text: &str) -> (r: String)
    ensures
        r@ == text@.take(if text@.len() < 80 { text@.len() as int } else { 80 }) + (if text.spec_bytes().len() > 80 {
            "..."@
        } else {
            ""@
        }),
{
    let cs = crate::text::str_chars(text);
    let n: usize = if cs.len() < 80 { cs.len() } else { 80 };
    let mut out: Vec<char> = Vec::new();
    let mut i: usize = 0;
    while i < n
        invariant
            cs@ == text@,
            n <= cs@.len(),
            i <= n,
            out@ == text@.take(i as int),
        decreases n - i,
    {
        out.push(cs[i]);
        i += 1;
        assert(out@ =~= text@.take(i as int));
    }
    let mut r = crate::text::string_of_chars(out.as_slice());
    if text.as_bytes().len() > 80 {
        r.append("...");
    } else {
        proof {
            reveal_strlit("");
            assert(r@ + ""@ =~= r@);
        }
    }
    r
}

/// What the image crate decodes from the bytes (format guessed from their
/// content), converted to 8-bit RGBA: width, height and pixels, or the text
/// of its error.
pub uninterp spec fn image_decode_rgba(bytes: Seq<u8>) -> Result<(u32, u32, Seq<u8>), Seq<char>>;

/// `image::load_from_memory(bytes)` followed by `to_rgba8`; an error is
/// returned as its `Display` text. The result depends on the bytes alone
/// and is named `image_decode_rgba`; an RGBA buffer holds four bytes per
/// pixel.
#[verifier::external_body]
fn decode_image_rgba(bytes: &[u8]) -> (r: Result<(u32, u32, Vec<u8>), String>)
    ensures
        match r {
            Ok((w, h, px)) => image_decode_rgba(bytes@) == Ok::<(u32, u32, Seq<u8>), Seq<char>>(
                (w, h, px@),
            ) && px@.len() == w * h * 4,
            Err(m) => image_decode_rgba(bytes@) == Err::<(u32, u32, Seq<u8>), Seq<char>>(m@),
        },
{
    match image::load_from_memory(bytes) {
        Ok(img) => {
            let rgba = img.to_rgba8();
            Ok((rgba.width(), rgba.height(), rgba.into_raw()))
        },
        Err(e) => Err(e.to_string()),
    }
}

/// Maps the decoders' answers for an OCR payload to an image or a text
/// recognition error.
pub fn ocr_payload_from(
    decoded: Result<Vec<u8>, String>,
) -> (r: Result<Vec<u8>, AppError>)
    ensures
        match decoded {
            Ok(b) => r matches Ok(v) && v@ == b@,
            Err(m) => r matches Err(e) && e is Ocr && e.message() == "Failed to decode base64: "@
                + m@,
        },
{
    match decoded {
        Ok(b) => Ok(b),
        Err(m) => {
            let mut msg = String::from_str("Failed to decode base64: ");
            msg.append(m.as_str());
            Err(AppError::Ocr(msg))
        },
    }
}

/// Maps the image decoder's answer to an image or a text recognition error.
pub fn ocr_frame_from(decoded: Result<(u32, u32, Vec<u8>), String>) -> (r: Result<RgbaFrame, AppError>)
    ensures
        match decoded {
            Ok((w, h, px)) => r matches Ok(f) && f.width == w && f.height == h && f.pixels@
                == px@,
            Err(m) => r matches Err(e) && e is Ocr && e.message() == "Failed to decode image: "@
                + m@,
        },
{
    match decoded {
        Ok((width, height, pixels)) => Ok(RgbaFrame { width, height, pixels }),
        Err(m) => {
            let mut msg = String::from_str("Failed to decode image: ");
            msg.append(m.as_str());
            Err(AppError::Ocr(msg))
        },
    }
}

/// Decodes an image sent for text recognition: base64, then any image
/// format the image crate recognizes, to RGBA.
pub fn decode_ocr_image(image_base64: &str) -> (r: Result<RgbaFrame, AppError>)
    ensures
        match base64_standard_decode(image_base64@) {
            Err(m) => r matches Err(e) && e is Ocr && e.message() == "Failed to decode base64: "@
                + m,
            Ok(b) => match image_decode_rgba(b) {
                Ok((w, h, px)) => r matches Ok(f) && f.width == w && f.height == h && f.pixels@
                    == px && px.len() == w * h * 4,
                Err(m) => r matches Err(e) && e is Ocr && e.message() == "Failed to decode image: "@
                    + m,
            },
        },
{
    let bytes = match ocr_payload_from(decode_base64(image_base64)) {
        Ok(b) => b,
        Err(e) => return Err(e),
    };
    ocr_frame_from(decode_image_rgba(bytes.as_slice()))
}

} // verus!
