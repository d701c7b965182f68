//! The bytes of a GIF recording, produced with the `gif` crate's encoder:
//! the opening (screen descriptor and infinite repeat), one block per
//! frame, and the trailer. The caller writes them to the file in order.

use vstd::prelude::*;
use crate::error::AppError;
use crate::recording::gif_frames::{GifFramePlan, QuantizedFrame};

verus! {

/// What `gif::Encoder::new(.., width, height, &[])` writes first: the
/// `GIF89a` signature and logical screen descriptor with an empty global
/// colour table.
pub uninterp spec fn gif_header_encoding(width: u16, height: u16) -> Seq<u8>;

/// What `gif::Encoder::write_frame` writes for a frame of the given size
/// and delay (in hundredths of a second) with its own palette and one
/// palette index per pixel, when the encoder has no global palette: the
/// graphic control extension, the image descriptor, the palette, and the
/// LZW-compressed indices.
pub uninterp spec fn gif_frame_encoding(
    width: u16,
    height: u16,
    delay: u16,
    palette: Seq<u8>,
    indices: Seq<u8>,
) -> Seq<u8>;

/// The application extension `set_repeat(Repeat::Infinite)` writes:
/// `NETSCAPE2.0` with a loop count of 0 (repeat forever).
pub open spec fn gif_repeat_forever_bytes() -> Seq<u8> {
    seq![0x21u8, 0xFFu8, 11u8, 0x4Eu8, 0x45u8, 0x54u8, 0x53u8, 0x43u8, 0x41u8, 0x50u8, 0x45u8, 0x32u8, 0x2Eu8, 0x30u8, 3u8, 1u8, 0u8, 0u8, 0u8]
}

/// `gif::Encoder::new(Vec::new(), width, height, &[])`, the bytes it wrote.
/// With no global palette and a vector to write to it cannot fail.
#[verifier::external_body]
fn gif_header(width: u16, height: u16) -> (r: Result<Vec<u8>, String>)
    ensures
        r is Ok,
        r matches Ok(v) ==> v@ == gif_header_encoding(width, height),
{
    match gif::Encoder::new(Vec::new(), width, height, &[]) {
        Ok(mut e) => Ok(std::mem::take(e.get_mut())),
        Err(e) => Err(e.to_string()),
    }
}

/// `gif::Encoder::set_repeat(Repeat::Infinite)` on an encoder writing to a
/// vector, the bytes it wrote (the encoder's own opening is discarded).
#[verifier::external_body]
fn gif_repeat_forever() -> (r: Result<Vec<u8>, String>)
    ensures
        r is Ok,
        r matches Ok(v) ==> v@ == gif_repeat_forever_bytes(),
{
    match gif::Encoder::new(Vec::new(), 1, 1, &[]) {
        Ok(mut e) => {
            e.get_mut().clear();
            match e.set_repeat(gif::Repeat::Infinite) {
                Ok(()) => Ok(std::mem::take(e.get_mut())),
                Err(x) => Err(x.to_string()),
            }
        },
        Err(x) => Err(x.to_string()),
    }
}

/// `gif::Encoder::write_frame` of a frame with the given size, delay,
/// palette and indices (other fields at their defaults) on an encoder
/// without a global palette writing to a vector, the bytes it wrote. It
/// fails for more than 256 colours or too few indices; success is not
/// stated, since the encoder may also fail to reserve memory.
#[verifier::external_body]
fn gif_frame(width: u16, height: u16, delay: u16, palette: &[u8], indices: &[u8]) -> (r: Result<
    Vec<u8>,
    String,
>)
    ensures
        r matches Ok(v) ==> v@ == gif_frame_encoding(width, height, delay, palette@, indices@),
{
    match gif::Encoder::new(Vec::new(), width, height, &[]) {
        Ok(mut e) => {
            e.get_mut().clear();
            let frame = gif::Frame {
                width, height, delay, palette: Some(palette.to_vec()),
                buffer: std::borrow::Cow::Borrowed(indices), ..gif::Frame::default()
            };
            match e.write_frame(&frame) {
                Ok(()) => Ok(std::mem::take(e.get_mut())),
                Err(x) => Err(x.to_string()),
            }
        },
        Err(x) => Err(x.to_string()),
    }
}

/// The trailer `gif::Encoder` writes when it is finished: the byte `0x3B`.
#[verifier::external_body]
fn gif_trailer() -> (r: Vec<u8>)
    ensures
        r@ == seq![0x3Bu8],
{
    let mut e = gif::Encoder::new(Vec::new(), 1, 1, &[]).unwrap();
    e.get_mut().clear();
    e.into_inner().unwrap()
}

/// The opening of a GIF recording whose first frame is planned as `plan`:
/// the header for the frame's size (as 16-bit values), then the extension
/// that makes it repeat forever.
pub fn gif_stream_start(plan: &GifFramePlan) -> (r: Result<Vec<u8>, AppError>)
    ensures
        r matches Ok(v) && v@ == gif_header_encoding(plan.width as u16, plan.height as u16)
            + gif_repeat_forever_bytes(),
{
    let mut out = match gif_header(plan.width as u16, plan.height as u16) {
        Ok(v) => v,
        Err(m) => {
            let mut msg = String::from_str("Failed to init GIF encoder: ");
            msg.append(m.as_str());
            return Err(AppError::Recording(msg));
        },
    };
    let repeat = match gif_repeat_forever() {
        Ok(v) => v,
        Err(m) => {
            let mut msg = String::from_str("Failed to set GIF repeat: ");
            msg.append(m.as_str());
            return Err(AppError::Recording(msg));
        },
    };
    crate::bytes::push_all(&mut out, repeat.as_slice());
    Ok(out)
}

/// The block of one frame: planned size (as 16-bit values) and delay, the
/// frame's palette and indices; a failure is a recording error.
pub fn gif_frame_block(plan: &GifFramePlan, q: &QuantizedFrame) -> (r: Result<Vec<u8>, AppError>)
    ensures
        r matches Ok(v) ==> v@ == gif_frame_encoding(
            plan.width as u16,
            plan.height as u16,
            plan.delay_cs,
            q.palette@,
            q.indices@,
        ),
        r matches Err(e) ==> e is Recording,
{
    match gif_frame(
        plan.width as u16,
        plan.height as u16,
        plan.delay_cs,
        q.palette.as_slice(),
        q.indices.as_slice(),
    ) {
        Ok(v) => Ok(v),
        Err(m) => {
            let mut msg = String::from_str("Failed to write GIF frame: ");
            msg.append(m.as_str());
            Err(AppError::Recording(msg))
        },
    }
}

/// The end of a GIF recording: the trailer byte `0x3B`.
pub fn gif_stream_end() -> (r: Vec<u8>)
    ensures
        r@ == seq![0x3Bu8],
{
    gif_trailer()
}

} // verus!
