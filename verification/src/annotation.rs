//! The annotation editor's save path: the edited image arrives as
//! base64-encoded PNG text and is checked and decoded here; and what
//! happens to a finished capture (clipboard, disk, upload).

use vstd::prelude::*;
use crate::config::AppConfig;
use crate::error::AppError;
use crate::text::str_eq;

verus! {

/// Base64 payloads longer than this (in bytes) are refused before decoding,
/// to bound memory (about 100 MB decoded).
pub const MAX_BASE64_LEN: usize = 134_000_000;

/// An RGBA image: `width * height` pixels of four bytes, row by row.
#[derive(Debug, PartialEq, Eq)]
pub struct RgbaFrame {
    pub width: u32,
    pub height: u32,
    pub pixels: Vec<u8>,
}

/// Result of a capture step, as reported to the front end.
#[derive(Debug, PartialEq, Eq)]
pub struct CaptureResultDto {
    pub filepath: Option<String>,
    pub copied_to_clipboard: bool,
}

/// Modifier-to-tool mapping handed to the annotation editor.
#[derive(Debug, PartialEq, Eq)]
pub struct AnnotationConfigDto {
    pub shift_tool: String,
    pub ctrl_tool: String,
    pub alt_tool: String,
    pub default_tool: String,
    pub right_default_tool: String,
    pub right_shift_tool: String,
    pub right_ctrl_tool: String,
    pub right_alt_tool: String,
}

/// What the standard base64 engine (alphabet `A-Z a-z 0-9 + /`, canonical
/// `=` padding required) gives for the text: the decoded bytes, or the
/// text of its decode error.
pub uninterp spec fn base64_standard_decode(input: Seq<char>) -> Result<Seq<u8>, Seq<char>>;

/// `base64::Engine::decode` with `base64::engine::general_purpose::STANDARD`
/// on the text's bytes; an error is returned as its `Display` text. The
/// result depends on the input alone and is named `base64_standard_decode`.
#[verifier::external_body]
pub(crate) fn decode_base64(input: &str) -> (r: Result<Vec<u8>, String>)
    ensures
        match r {
            Ok(v) => base64_standard_decode(input@) == Ok::<Seq<u8>, Seq<char>>(v@),
            Err(m) => base64_standard_decode(input@) == Err::<Seq<u8>, Seq<char>>(m@),
        },
{
    match base64::Engine::decode(&base64::engine::general_purpose::STANDARD, input) {
        Ok(v) => Ok(v),
        Err(e) => Err(e.to_string()),
    }
}

/// What the image crate's PNG decoder gives for the bytes, converted to
/// 8-bit RGBA: width, height and pixels, or the text of its error.
pub uninterp spec fn png_decode_rgba(bytes: Seq<u8>) -> Result<(u32, u32, Seq<u8>), Seq<char>>;

/// `image::load_from_memory_with_format(bytes, ImageFormat::Png)` followed by
/// `to_rgba8`; an error is returned as its `Display` text. The result depends
/// on the bytes alone and is named `png_decode_rgba`; an RGBA buffer holds
/// four bytes per pixel.
#[verifier::external_body]
fn decode_png_rgba(bytes: &[u8]) -> (r: Result<(u32, u32, Vec<u8>), String>)
    ensures
        match r {
            Ok((w, h, px)) => png_decode_rgba(bytes@) == Ok::<(u32, u32, Seq<u8>), Seq<char>>(
                (w, h, px@),
            ) && px@.len() == w * h * 4,
            Err(m) => png_decode_rgba(bytes@) == Err::<(u32, u32, Seq<u8>), Seq<char>>(m@),
        },
{
    match image::load_from_memory_with_format(bytes, image::ImageFormat::Png) {
        Ok(img) => {
            let rgba = img.to_rgba8();
            Ok((rgba.width(), rgba.height(), rgba.into_raw()))
        },
        Err(e) => Err(e.to_string()),
    }
}

/// Maps the base64 decoder's answer to the payload or an annotation error.
pub fn payload_bytes_from(decoded: Result<Vec<u8>, String>) -> (r: Result<Vec<u8>, AppError>)
    ensures
        match decoded {
            Ok(b) => r matches Ok(v) && v@ == b@,
            Err(m) => r matches Err(e) && e is Annotation && e.message() == "Failed to decode base64: "@
                + m@,
        },
{
    match decoded {
        Ok(b) => Ok(b),
        Err(m) => {
            let mut msg = String::from_str("Failed to decode base64: ");
            msg.append(m.as_str());
            Err(AppError::Annotation(msg))
        },
    }
}

/// Checks the size of a base64 payload and decodes it.
pub fn payload_bytes(image_base64: &str) -> (r: Result<Vec<u8>, AppError>)
    ensures
        image_base64.len() > MAX_BASE64_LEN ==> (r matches Err(e) && e is Annotation
            && e.message() == "Image data too large"@),
        image_base64.len() <= MAX_BASE64_LEN ==> match base64_standard_decode(
            image_base64@,
        ) {
            Ok(b) => r matches Ok(v) && v@ == b,
            Err(m) => r matches Err(e) && e is Annotation && e.message()
                == "Failed to decode base64: "@ + m,
        },
{
    if image_base64.len() > MAX_BASE64_LEN {
        return Err(AppError::Annotation(String::from_str("Image data too large")));
    }
    payload_bytes_from(decode_base64(image_base64))
}

/// Maps the PNG decoder's answer to an image or an annotation error.
pub fn image_from_decoded(decoded: Result<(u32, u32, Vec<u8>), String>) -> (r: Result<RgbaFrame, AppError>)
    ensures
        match decoded {
            Ok((w, h, px)) => r matches Ok(f) && f.width == w && f.height == h && f.pixels@
                == px@,
            Err(m) => r matches Err(e) && e is Annotation && e.message() == "Failed to decode PNG: "@
                + m@,
        },
{
    match decoded {
        Ok((width, height, pixels)) => Ok(RgbaFrame { width, height, pixels }),
        Err(m) => {
            let mut msg = String::from_str("Failed to decode PNG: ");
            msg.append(m.as_str());
            Err(AppError::Annotation(msg))
        },
    }
}

/// Decodes the annotated image sent by the editor: size check, base64,
/// then PNG to RGBA.
pub fn decode_annotated_image(image_base64: &str) -> (r: Result<RgbaFrame, AppError>)
    ensures
        image_base64.len() > MAX_BASE64_LEN ==> (r matches Err(e) && e is Annotation
            && e.message() == "Image data too large"@),
        image_base64.len() <= MAX_BASE64_LEN ==> match base64_standard_decode(
            image_base64@,
        ) {
            Err(m) => r matches Err(e) && e is Annotation && e.message()
                == "Failed to decode base64: "@ + m,
            Ok(b) => match png_decode_rgba(b) {
                Ok((w, h, px)) => r matches Ok(f) && f.width == w && f.height == h && f.pixels@
                    == px && px.len() == w * h * 4,
                Err(m) => r matches Err(e) && e is Annotation && e.message()
                    == "Failed to decode PNG: "@ + m,
            },
        },
{
    let bytes = match payload_bytes(image_base64) {
        Ok(b) => b,
        Err(e) => return Err(e),
    };
    image_from_decoded(decode_png_rgba(bytes.as_slice()))
}

/// The name of an annotated copy saved beside its source file:
/// `{stem}-annotated.{ext}`, with stem `annotated` and extension `png` where
/// the source has none.
pub fn annotated_file_name(stem: Option<&str>, ext: Option<&str>) -> (r: String)
    ensures
        r@ == (match stem {
            Some(s) => s@,
            None => "annotated"@,
        }) + "-annotated."@ + (match ext {
            Some(e) => e@,
            None => "png"@,
        }),
{
    let mut r = match stem {
        Some(s) => String::from_str(s),
        None => String::from_str("annotated"),
    };
    r.append("-annotated.");
    match ext {
        Some(e) => r.append(e),
        None => r.append("png"),
    }
    r
}

/// The save-to-disk setting for one capture: holding Alt flips it (forces a
/// save when saving is off, skips it when saving is on).
pub fn effective_save_to_disk(save_to_disk: bool, toggle_save: bool) -> (r: bool)
    ensures
        r == (save_to_disk != toggle_save),
        !toggle_save ==> r == save_to_disk,
        toggle_save ==> r == !save_to_disk,
{
    if toggle_save {
        !save_to_disk
    } else {
        save_to_disk
    }
}

/// What happens to a finished capture.
#[derive(Debug, PartialEq, Eq)]
pub struct CaptureOutputs {
    /// The image is copied to the clipboard.
    pub copy_image: bool,
    /// The image is saved to disk (Alt flips the setting for this capture).
    pub save_to_disk: bool,
    /// The image is uploaded and the link copied.
    pub upload: bool,
}

/// The outputs of a capture under `config`, with Alt held (`toggle_save`)
/// or not; the stored configuration is left as it is.
pub fn capture_outputs(config: &AppConfig, toggle_save: bool) -> (o: CaptureOutputs)
    ensures
        o.copy_image == (config.clipboard_action@ == "image"@),
        o.save_to_disk == (config.save_to_disk != toggle_save),
        o.upload == (config.clipboard_action@ == "url"@),
{
    CaptureOutputs {
        copy_image: str_eq(config.clipboard_action.as_str(), "image"),
        save_to_disk: effective_save_to_disk(config.save_to_disk, toggle_save),
        upload: str_eq(config.clipboard_action.as_str(), "url"),
    }
}

} // verus!
