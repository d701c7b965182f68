//! Preparing recorded frames for GIF: output size, RGB conversion and
//! palette quantization (with the `color_quant` crate's NeuQuant, see
//! `neuquant`).

use vstd::prelude::*;
use crate::bytes::push_all;
use crate::recording::pipeline::GifConfig;
use crate::recording::neuquant::{
    neuquant_index, neuquant_palette, palette_index, palette_rgb, train_palette,
};

verus! {

/// Width and height of the GIF for frames of `width` x `height`: frames
/// wider than `max_width` are scaled down to that width, the height scaled
/// by the same factor and rounded to the nearest pixel, an exact half
/// rounding up. The height is computed exactly in integers; a computation in
/// `f64` (height times the ratio, then rounded) can land just below an exact
/// half and round down instead: for 1856 x 145 frames at most 800 wide this
/// gives 63 where such a computation gives 62.
pub open spec fn spec_gif_output_dims(width: u32, height: u32, max_width: u32) -> (u32, u32) {
    if width > max_width {
        (max_width, ((2 * (height * max_width) + width) / (2 * width as int)) as u32)
    } else {
        (width, height)
    }
}

/// The GIF frame size for a captured frame size.
pub fn gif_output_dims(width: u32, height: u32, max_width: u32) -> (r: (u32, u32))
    ensures
        r == spec_gif_output_dims(width, height, max_width),
        width > max_width ==> r.1 <= height,
{
    if width > max_width {
        assert((height as u128) * (max_width as u128) <= 0xFFFF_FFFE_0000_0001u128) by (nonlinear_arith)
            requires
                height <= u32::MAX,
                max_width <= u32::MAX,
        ;
        let hm = (height as u128) * (max_width as u128);
        let num = 2 * hm + width as u128;
        let den = 2 * width as u128;
        let h = num / den;
        assert(h <= height) by (nonlinear_arith)
            requires
                width > max_width,
                hm == height * max_width,
                num == 2 * hm + width,
                den == 2 * width,
                h == num / den,
        ;
        (max_width, h as u32)
    } else {
        (width, height)
    }
}

/// The red, green and blue bytes of each complete RGBA pixel, in order.
pub open spec fn spec_rgb_of(rgba: Seq<u8>) -> Seq<u8> {
    Seq::new(
        (rgba.len() / 4 * 3) as nat,
        |k: int| rgba[(k / 3) * 4 + k % 3],
    )
}

/// Drops the alpha byte of every complete RGBA pixel.
pub fn rgba_to_rgb(rgba: &[u8]) -> (rgb: Vec<u8>)
    ensures
        rgb@ == spec_rgb_of(rgba@),
{
    let len = rgba.len();
    let n = len / 4;
    let mut out: Vec<u8> = Vec::new();
    let mut p: usize = 0;
    while p < n
        invariant
            len == rgba@.len(),
            n == rgba@.len() / 4,
            p <= n,
            out@.len() == p * 3,
            forall|k: int| 0 <= k < p * 3 ==> #[trigger] out@[k] == rgba@[(k / 3) * 4 + k % 3],
        decreases n - p,
    {
        assert(p * 4 + 3 < rgba@.len()) by (nonlinear_arith)
            requires
                p < n,
                n == rgba@.len() / 4,
        ;
        out.push(rgba[p * 4]);
        out.push(rgba[p * 4 + 1]);
        out.push(rgba[p * 4 + 2]);
        assert forall|k: int| 0 <= k < (p + 1) * 3 implies #[trigger] out@[k] == rgba@[(k / 3) * 4
            + k % 3] by {
            if k >= p * 3 {
                assert(k / 3 == p);
            }
        }
        p += 1;
    }
    assert(out@ =~= spec_rgb_of(rgba@));
    out
}

/// A frame reduced to 256 colours.
pub struct QuantizedFrame {
    /// The palette, three bytes (red, green, blue) per colour.
    pub palette: Vec<u8>,
    /// One palette position per pixel.
    pub indices: Vec<u8>,
}

/// Quantizes an RGBA frame to a 256-colour palette: a NeuQuant network is
/// trained on the frame's RGB bytes, its colour map is the palette, and each
/// pixel gets the palette position the network picks for its colour.
pub fn quantize_frame(rgba: &[u8]) -> (q: QuantizedFrame)
    ensures
        q.palette@ == neuquant_palette(spec_rgb_of(rgba@)),
        q.palette@.len() == 768,
        q.indices@.len() == rgba@.len() / 4,
        forall|k: int|
            0 <= k < rgba@.len() / 4 ==> #[trigger] q.indices@[k] == neuquant_index(
                spec_rgb_of(rgba@),
                rgba@[4 * k],
                rgba@[4 * k + 1],
                rgba@[4 * k + 2],
            ) as u8,
{
    let rgb = rgba_to_rgb(rgba);
    let ghost samples = rgb@;
    let rlen = rgb.len();
    let n = rlen / 3;
    assert(n == rgba@.len() / 4) by (nonlinear_arith)
        requires
            n == rgb@.len() / 3,
            rgb@.len() == rgba@.len() / 4 * 3,
    ;
    let trained = train_palette(rgb);
    let palette = palette_rgb(&trained);
    let px = trained.samples();
    let mut indices: Vec<u8> = Vec::new();
    let mut p: usize = 0;
    while p < n
        invariant
            samples == spec_rgb_of(rgba@),
            trained@ == samples,
            px@ == samples,
            rlen == samples.len(),
            n == rlen / 3,
            n == rgba@.len() / 4,
            p <= n,
            indices@.len() == p,
            forall|k: int|
                0 <= k < p ==> #[trigger] indices@[k] == neuquant_index(
                    samples,
                    rgba@[4 * k],
                    rgba@[4 * k + 1],
                    rgba@[4 * k + 2],
                ) as u8,
        decreases n - p,
    {
        assert(p * 3 + 2 < rlen) by (nonlinear_arith)
            requires
                p < n,
                n == rlen / 3,
        ;
        assert(px@[p * 3] == rgba@[4 * p]);
        assert(px@[p * 3 + 1] == rgba@[4 * p + 1]);
        assert(px@[p * 3 + 2] == rgba@[4 * p + 2]);
        let i = palette_index(&trained, px[p * 3], px[p * 3 + 1], px[p * 3 + 2]);
        indices.push(i as u8);
        p += 1;
    }
    QuantizedFrame { palette, indices }
}

// -- Encoder bookkeeping --

/// What the GIF encoder remembers between frames; the file itself is written
/// by the caller.
#[derive(Debug, PartialEq, Eq)]
pub struct GifEncoderState {
    /// Frames wider than this are scaled down to it.
    pub max_width: u32,
    /// Delay of every frame, in hundredths of a second.
    pub frame_delay_cs: u16,
    /// Size of the GIF, fixed by the frame that opened the file.
    pub output_width: u32,
    pub output_height: u32,
    /// Frames written so far.
    pub frame_count: u32,
    /// The file has been created (with its size and infinite repeat).
    pub writer_open: bool,
}

/// How to write one frame.
#[derive(Debug, PartialEq, Eq)]
pub struct GifFramePlan {
    /// Size the frame is scaled to.
    pub width: u32,
    pub height: u32,
    /// Delay of the frame, in hundredths of a second.
    pub delay_cs: u16,
    /// The file must first be created with this size, set to repeat forever.
    pub open_writer: bool,
}

impl GifEncoderState {
    /// Before `init`: at most 800 pixels wide, 10 hundredths of a second per
    /// frame, nothing written.
    pub fn new() -> (s: GifEncoderState)
        ensures
            s == (GifEncoderState {
                max_width: 800,
                frame_delay_cs: 10,
                output_width: 0,
                output_height: 0,
                frame_count: 0,
                writer_open: false,
            }),
    {
        GifEncoderState {
            max_width: 800,
            frame_delay_cs: 10,
            output_width: 0,
            output_height: 0,
            frame_count: 0,
            writer_open: false,
        }
    }

    /// Takes the width limit and frame delay of a recording.
    pub fn init(&mut self, config: &GifConfig)
        ensures
            *final(self) == (GifEncoderState {
                max_width: config.max_width,
                frame_delay_cs: config.frame_delay_cs,
                ..*old(self)
            }),
    {
        self.max_width = config.max_width;
        self.frame_delay_cs = config.frame_delay_cs;
    }

    /// Plans a `width` x `height` frame: it is scaled to fit the width limit,
    /// gets the configured delay, and, while the file is not open yet, its
    /// size becomes the size of the GIF.
    pub fn plan_frame(&mut self, width: u32, height: u32) -> (p: GifFramePlan)
        ensures
            (p.width, p.height) == spec_gif_output_dims(width, height, old(self).max_width),
            p.delay_cs == old(self).frame_delay_cs,
            p.open_writer == !old(self).writer_open,
            p.width <= width && p.height <= height,
            *final(self) == (if old(self).writer_open {
                *old(self)
            } else {
                GifEncoderState { output_width: p.width, output_height: p.height, ..*old(self) }
            }),
    {
        let (sw, sh) = gif_output_dims(width, height, self.max_width);
        let open_writer = !self.writer_open;
        if open_writer {
            self.output_width = sw;
            self.output_height = sh;
        }
        GifFramePlan { width: sw, height: sh, delay_cs: self.frame_delay_cs, open_writer }
    }

    /// The file was created.
    pub fn writer_opened(&mut self)
        ensures
            *final(self) == (GifEncoderState { writer_open: true, ..*old(self) }),
    {
        self.writer_open = true;
    }

    /// One more frame was written.
    pub fn frame_written(&mut self)
        requires
            old(self).frame_count < u32::MAX,
        ensures
            *final(self) == (GifEncoderState {
                frame_count: (old(self).frame_count + 1) as u32,
                ..*old(self)
            }),
    {
        self.frame_count = self.frame_count + 1;
    }

    /// The file was closed.
    pub fn finish(&mut self)
        ensures
            *final(self) == (GifEncoderState { writer_open: false, ..*old(self) }),
    {
        self.writer_open = false;
    }

    /// Frames written so far.
    pub fn frame_count(&self) -> (n: u32)
        ensures
            n == self.frame_count,
    {
        self.frame_count
    }
}

// -- Downscaling --

/// The pixels of a `width` x `height` RGBA image resized to `new_width` x
/// `new_height` by `image::imageops::resize` with the Triangle filter.
pub uninterp spec fn triangle_resize(
    rgba: Seq<u8>,
    width: u32,
    height: u32,
    new_width: u32,
    new_height: u32,
) -> Seq<u8>;

/// `image::imageops::resize(.., FilterType::Triangle)` on an RGBA image
/// given as raw bytes (bytes past `width * height` pixels are not read); the
/// result is `new_width * new_height` pixels. The
/// image is resampled first vertically, into a `width` x `new_height`
/// buffer, then horizontally; both buffers must be addressable.
#[verifier::external_body]
pub(crate) fn resize_rgba(rgba: &[u8], width: u32, height: u32, new_width: u32, new_height: u32) -> (r: Vec<u8>)
    requires
        rgba@.len() >= width * height * 4,
        width * new_height * 4 <= usize::MAX,
        new_width * new_height * 4 <= usize::MAX,
    ensures
        r@ == triangle_resize(rgba@, width, height, new_width, new_height),
        r@.len() == new_width * new_height * 4,
{
    let src = image::RgbaImage::from_raw(width, height, rgba.to_vec()).unwrap();
    image::imageops::resize(&src, new_width, new_height, image::imageops::FilterType::Triangle)
        .into_raw()
}

/// The pixels written for a frame under `plan`: the frame itself when the
/// plan keeps its size, else the frame downscaled with the Triangle filter.
pub fn gif_frame_pixels(rgba: &[u8], width: u32, height: u32, plan: &GifFramePlan) -> (r: Vec<u8>)
    requires
        !(plan.width == width && plan.height == height) ==> rgba@.len() >= width * height * 4,
        plan.width <= width,
        plan.height <= height,
    ensures
        plan.width == width && plan.height == height ==> r@ == rgba@,
        !(plan.width == width && plan.height == height) ==> r@ == triangle_resize(
            rgba@,
            width,
            height,
            plan.width,
            plan.height,
        ),
{
    if plan.width == width && plan.height == height {
        let mut out: Vec<u8> = Vec::new();
        push_all(&mut out, rgba);
        assert(out@ =~= rgba@);
        out
    } else {
        let total = rgba.len();
        assert(total >= width * height * 4);
        assert(width * plan.height * 4 <= width * height * 4) by (nonlinear_arith)
            requires
                plan.height <= height,
        ;
        assert(plan.width * plan.height * 4 <= width * plan.height * 4) by (nonlinear_arith)
            requires
                plan.width <= width,
        ;
        resize_rgba(rgba, width, height, plan.width, plan.height)
    }
}

} // verus!
