//! Recording configuration and the arithmetic of the capture/encode pipeline.

use vstd::prelude::*;
use crate::error::AppError;
use crate::geometry::{clamped_crop, ListedMonitor};
use crate::text::{decimal, push_decimal, str_eq};

verus! {

/// Region to record (capture coordinate space).
#[derive(Debug, PartialEq, Eq)]
pub struct RecordingRegion {
    pub x: u32,
    pub y: u32,
    pub width: u32,
    pub height: u32,
}

impl Clone for RecordingRegion {
    fn clone(&self) -> (r: Self)
        ensures
            r == *self,
    {
        RecordingRegion { x: self.x, y: self.y, width: self.width, height: self.height }
    }
}

/// Format to record in.
#[derive(Debug, PartialEq, Eq, Structural)]
pub enum RecordingFormat {
    Mp4,
    Gif,
}

impl Clone for RecordingFormat {
    fn clone(&self) -> (r: Self)
        ensures
            r == *self,
    {
        match self {
            RecordingFormat::Mp4 => RecordingFormat::Mp4,
            RecordingFormat::Gif => RecordingFormat::Gif,
        }
    }
}

/// How to capture frames for recording.
#[derive(Debug, PartialEq, Eq)]
pub enum CaptureSource {
    /// Capture from a single monitor (by index into the monitor list).
    /// Region coords are monitor-local.
    SingleMonitor(usize),
    /// Capture from all monitors (stitched). Region coords are
    /// overlay-relative (= desktop-origin-relative physical pixels).
    FullDesktop,
}

/// Recording pipeline configuration.
pub struct PipelineConfig {
    pub format: RecordingFormat,
    pub fps: u32,
    pub region: Option<RecordingRegion>,
    pub output_path: String,
    pub gif_max_duration_secs: u32,
    pub gif_max_width: u32,
    pub capture_source: CaptureSource,
}

/// Configuration for initializing a video encoder.
pub struct EncoderConfig {
    pub width: u32,
    pub height: u32,
    pub fps: u32,
    pub bitrate: u32,
    pub output_path: String,
}

/// GIF recording configuration.
pub struct GifConfig {
    pub max_width: u32,
    pub frame_delay_cs: u16,  // centiseconds (1/100s) per frame
}

/// Bits per second for `width` x `height` video at `fps`: 5 bits per pixel
/// at 30 fps, scaled linearly, clamped to 1..50 Mbps.
pub open spec fn spec_bitrate(width: u32, height: u32, fps: u32) -> u32 {
    let b = width as int * height as int * 5 * fps as int / 30;
    if b < 1_000_000 {
        1_000_000
    } else if b > 50_000_000 {
        50_000_000
    } else {
        b as u32
    }
}

/// Compute a reasonable bitrate based on resolution and FPS.
/// Targets roughly 5 bits per pixel at 30fps, scaled linearly.
pub fn compute_bitrate(width: u32, height: u32, fps: u32) -> (r: u32)
    requires
        width as int * height as int * 5 * fps as int <= u64::MAX,
    ensures
        r == spec_bitrate(width, height, fps),
        1_000_000 <= r <= 50_000_000,
{
    proof {
        assert(0 <= width as int * height as int) by (nonlinear_arith);
        assert(width as int * height as int <= width as int * height as int * 5 * fps as int
            || fps == 0) by (nonlinear_arith);
        assert(width as int * height as int * 5 <= width as int * height as int * 5 * fps as int
            || fps == 0) by (nonlinear_arith);
    }
    if fps == 0 {
        return 1_000_000;
    }
    let pixels = width as u64 * height as u64;
    let bpp = 5u64;  // bits per pixel
    let bitrate = pixels * bpp * fps as u64 / 30;
    // Clamp between 1 Mbps and 50 Mbps
    let clamped = if bitrate < 1_000_000 {
        1_000_000
    } else if bitrate > 50_000_000 {
        50_000_000
    } else {
        bitrate
    };
    clamped as u32
}

/// GIF frame delay in centiseconds for `fps`: 100/fps rounded to the nearest
/// integer (halves up), at least 2 (the GIF minimum of 20 ms); a zero frame
/// rate gives the largest delay.
pub open spec fn spec_gif_frame_delay(fps: u32) -> u16 {
    if fps == 0 {
        u16::MAX
    } else {
        let d = (200 + fps as int) / (2 * fps as int);
        if d < 2 { 2 } else { d as u16 }
    }
}

/// GIF delay for one frame at `fps`, in centiseconds (1/100s).
pub fn gif_frame_delay_cs(fps: u32) -> (d: u16)
    ensures
        d == spec_gif_frame_delay(fps),
        2 <= d,
{
    if fps == 0 {
        return u16::MAX;
    }
    let q = (200 + fps as u64) / (2 * fps as u64);
    assert(q <= 100) by (nonlinear_arith)
        requires
            fps >= 1,
            q == (200 + fps as u64) / (2 * fps as u64),
    ;
    let d = q as u16;
    if d < 2 { 2 } else { d }
}

/// H.264 needs even dimensions: the frame size rounded down to even values,
/// or `None` when either becomes zero.
pub fn even_encoder_dims(width: u32, height: u32) -> (r: Option<(u32, u32)>)
    ensures
        r == (if width / 2 == 0 || height / 2 == 0 {
            None
        } else {
            Some(((width - width % 2) as u32, (height - height % 2) as u32))
        }),
{
    let enc_w = width & !1u32;
    let enc_h = height & !1u32;
    assert(width & !1u32 == width - width % 2) by (bit_vector);
    assert(height & !1u32 == height - height % 2) by (bit_vector);
    if enc_w == 0 || enc_h == 0 {
        None
    } else {
        Some((enc_w, enc_h))
    }
}

/// What the MP4 encoding loop does with a received frame.
#[derive(Debug, PartialEq, Eq)]
pub enum FrameStep {
    /// The frame has no even-sized area and the encoder is not set up yet:
    /// drop it.
    Skip,
    /// Encode the frame at `width` x `height`, cropping it first when its
    /// size differs; `init_bitrate` is set for the first encoded frame, whose
    /// even-rounded size fixes the encoder's size.
    Encode { init_bitrate: Option<u32>, width: u32, height: u32, crop: bool },
}

/// State of the MP4 encoding loop between frames.
pub struct Mp4EncodeState {
    /// The encoder's frame size, once set up.
    pub dims: Option<(u32, u32)>,
    pub frame_count: u32,
}

impl Mp4EncodeState {
    pub fn new() -> (s: Mp4EncodeState)
        ensures
            s.dims is None,
            s.frame_count == 0,
    {
        Mp4EncodeState { dims: None, frame_count: 0 }
    }

    /// Plans the encoding of a `w` x `h` frame at `fps`.
    pub fn next_frame(&mut self, w: u32, h: u32, fps: u32) -> (step: FrameStep)
        requires
            old(self).frame_count < u32::MAX,
            old(self).dims is None ==> w as int * h as int * 5 * fps as int <= u64::MAX,
        ensures
            match old(self).dims {
                Some((ew, eh)) => {
                    &&& step == FrameStep::Encode {
                        init_bitrate: None,
                        width: ew,
                        height: eh,
                        crop: w != ew || h != eh,
                    }
                    &&& final(self).dims == old(self).dims
                    &&& final(self).frame_count == old(self).frame_count + 1
                },
                None => {
                    let ew = (w - w % 2) as u32;
                    let eh = (h - h % 2) as u32;
                    if ew == 0 || eh == 0 {
                        &&& step == FrameStep::Skip
                        &&& *final(self) == *old(self)
                    } else {
                        &&& step == FrameStep::Encode {
                            init_bitrate: Some(spec_bitrate(ew, eh, fps)),
                            width: ew,
                            height: eh,
                            crop: w != ew || h != eh,
                        }
                        &&& final(self).dims == Some((ew, eh))
                        &&& final(self).frame_count == old(self).frame_count + 1
                    }
                },
            },
    {
        match self.dims {
            Some((ew, eh)) => {
                self.frame_count = self.frame_count + 1;
                FrameStep::Encode { init_bitrate: None, width: ew, height: eh, crop: w != ew || h != eh }
            },
            None => {
                match even_encoder_dims(w, h) {
                    None => FrameStep::Skip,
                    Some((ew, eh)) => {
                        assert(ew as int * eh as int * 5 * fps as int <= w as int * h as int * 5
                            * fps as int) by (nonlinear_arith)
                            requires
                                ew <= w,
                                eh <= h,
                        ;
                        let bitrate = compute_bitrate(ew, eh, fps);
                        self.dims = Some((ew, eh));
                        self.frame_count = self.frame_count + 1;
                        FrameStep::Encode {
                            init_bitrate: Some(bitrate),
                            width: ew,
                            height: eh,
                            crop: w != ew || h != eh,
                        }
                    },
                }
            },
        }
    }

    /// The outcome of the MP4 recording once the channel is closed and the
    /// encoder finished: an error when no frame was encoded or the file is
    /// empty.
    pub fn finish_check(&self, file_size: u64) -> (r: Result<(), AppError>)
        ensures
            self.dims is None ==> (r matches Err(e) && e is Recording && e.message()
                == "No frames captured for MP4"@),
            self.dims is Some && file_size == 0 ==> (r matches Err(e) && e is Recording
                && e.message() == "Encoder produced empty file after "@ + decimal(
                self.frame_count as nat,
            ) + " frames - encoding may have failed silently"@),
            self.dims is Some && file_size > 0 ==> r is Ok,
    {
        if self.dims.is_none() {
            return Err(AppError::Recording(String::from_str("No frames captured for MP4")));
        }
        if file_size == 0 {
            let mut m = String::from_str("Encoder produced empty file after ");
            push_decimal(&mut m, self.frame_count as u64);
            m.append(" frames - encoding may have failed silently");
            return Err(AppError::Recording(m));
        }
        Ok(())
    }
}

/// A GIF recording must hold at least one frame.
pub fn gif_finish_check(frame_count: u32) -> (r: Result<(), AppError>)
    ensures
        frame_count == 0 ==> (r matches Err(e) && e is Recording && e.message()
            == "No frames captured for GIF"@),
        frame_count > 0 ==> r is Ok,
{
    if frame_count == 0 {
        return Err(AppError::Recording(String::from_str("No frames captured for GIF")));
    }
    Ok(())
}

/// The recording format named in the settings: `gif` selects GIF, anything
/// else MP4.
pub fn recording_format_from(name: &str) -> (f: RecordingFormat)
    ensures
        f == (if name@ == "gif"@ { RecordingFormat::Gif } else { RecordingFormat::Mp4 }),
{
    if str_eq(name, "gif") {
        RecordingFormat::Gif
    } else {
        RecordingFormat::Mp4
    }
}

/// The file extension of a recording format.
pub open spec fn format_extension(f: RecordingFormat) -> Seq<char> {
    match f {
        RecordingFormat::Gif => "gif"@,
        RecordingFormat::Mp4 => "mp4"@,
    }
}

/// The output file name of a recording started at `timestamp`:
/// `recording_{timestamp}.{ext}`.
pub fn recording_file_name(timestamp: &str, format: &RecordingFormat) -> (r: String)
    ensures
        r@ == "recording_"@ + timestamp@ + "."@ + format_extension(*format),
{
    let mut r = String::from_str("recording_");
    r.append(timestamp);
    r.append(".");
    match format {
        RecordingFormat::Gif => r.append("gif"),
        RecordingFormat::Mp4 => r.append("mp4"),
    }
    r
}

/// A GIF recording stops by itself once it has run for its maximum
/// duration (`0`: no limit); MP4 recordings never do.
pub fn should_auto_stop(format: &RecordingFormat, max_duration_secs: u32, elapsed_secs: u64) -> (r: bool)
    ensures
        r == (*format == RecordingFormat::Gif && max_duration_secs > 0 && elapsed_secs
            >= max_duration_secs),
{
    match format {
        RecordingFormat::Gif => max_duration_secs > 0 && elapsed_secs >= max_duration_secs as u64,
        RecordingFormat::Mp4 => false,
    }
}

/// The crop of a captured frame for the recording region, clamped to the
/// frame; `None` (the frame is skipped) when nothing of the region remains.
pub fn frame_crop(img_w: u32, img_h: u32, r: &RecordingRegion) -> (c: Option<(u32, u32, u32, u32)>)
    ensures
        ({
            let k = clamped_crop(img_w, img_h, r.x, r.y, r.width, r.height);
            c == (if k.2 == 0 || k.3 == 0 {
                None
            } else {
                Some(k)
            })
        }),
{
    let x = r.x.min(img_w.saturating_sub(1));
    let y = r.y.min(img_h.saturating_sub(1));
    let w = r.width.min(img_w.saturating_sub(x));
    let h = r.height.min(img_h.saturating_sub(y));
    if w == 0 || h == 0 {
        None
    } else {
        Some((x, y, w, h))
    }
}

pub open spec fn or_zero_i(v: Option<i32>) -> int {
    match v {
        Some(x) => x as int,
        None => 0,
    }
}

pub open spec fn or_zero_u(v: Option<u32>) -> int {
    match v {
        Some(x) => x as int,
        None => 0,
    }
}

/// The monitor holds the absolute rectangle `[l, r) x [t, b)` entirely.
pub open spec fn monitor_holds(m: ListedMonitor, l: int, t: int, r: int, b: int) -> bool {
    l >= or_zero_i(m.x) && t >= or_zero_i(m.y) && r <= or_zero_i(m.x) + or_zero_u(m.width) && b
        <= or_zero_i(m.y) + or_zero_u(m.height)
}

/// The values the region plan computes fit in `i32`, as the monitor sizes
/// and the region do.
pub open spec fn region_plan_fits(
    x: u32,
    y: u32,
    width: u32,
    height: u32,
    origin: (i32, i32),
    monitors: Seq<ListedMonitor>,
) -> bool {
    &&& x <= i32::MAX && y <= i32::MAX && width <= i32::MAX && height <= i32::MAX
    &&& i32::MIN <= x + origin.0 + width <= i32::MAX
    &&& i32::MIN <= y + origin.1 + height <= i32::MAX
    &&& i32::MIN <= x + origin.0 && i32::MIN <= y + origin.1
    &&& forall|i: int|
        0 <= i < monitors.len() ==> {
            let m = #[trigger] monitors[i];
            &&& or_zero_u(m.width) <= i32::MAX && or_zero_u(m.height) <= i32::MAX
            &&& i32::MIN <= or_zero_i(m.x) + or_zero_u(m.width) <= i32::MAX
            &&& i32::MIN <= or_zero_i(m.y) + or_zero_u(m.height) <= i32::MAX
        }
}

/// How a region selected in the overlay is recorded. `(x, y)` is the
/// selection's offset from the desktop origin `origin`. When one monitor
/// holds the whole selection (the first such in the list), that monitor is
/// captured alone and the region is made relative to it (negative offsets
/// clamped to zero); otherwise the whole desktop is captured and the region
/// stays relative to the desktop origin.
pub open spec fn spec_region_plan(
    x: u32,
    y: u32,
    width: u32,
    height: u32,
    origin: (i32, i32),
    monitors: Seq<ListedMonitor>,
) -> (RecordingRegion, CaptureSource) {
    let l = x + origin.0;
    let t = y + origin.1;
    let r = l + width;
    let b = t + height;
    if exists|i: int| 0 <= i < monitors.len() && monitor_holds(#[trigger] monitors[i], l, t, r, b) {
        let i = choose|i: int|
            0 <= i < monitors.len() && monitor_holds(#[trigger] monitors[i], l, t, r, b) && forall|
                j: int,
            | 0 <= j < i ==> !monitor_holds(#[trigger] monitors[j], l, t, r, b);
        let m = monitors[i];
        (
            RecordingRegion {
                x: (if l - or_zero_i(m.x) > 0 { l - or_zero_i(m.x) } else { 0 }) as u32,
                y: (if t - or_zero_i(m.y) > 0 { t - or_zero_i(m.y) } else { 0 }) as u32,
                width,
                height,
            },
            CaptureSource::SingleMonitor(i as usize),
        )
    } else {
        (RecordingRegion { x, y, width, height }, CaptureSource::FullDesktop)
    }
}

/// A region recording keeps the selection where it is on screen: when one
/// monitor is captured, it is the first listed monitor that holds the whole
/// selection, and the region's offset plus that monitor's origin is the
/// selection's absolute corner, with the selection's size; when no monitor
/// holds it, the whole desktop is captured and the region is the selection
/// as given, relative to the desktop origin.
pub proof fn law_region_plan_keeps_selection_in_place(
    x: u32,
    y: u32,
    width: u32,
    height: u32,
    origin: (i32, i32),
    monitors: Seq<ListedMonitor>,
)
    requires
        region_plan_fits(x, y, width, height, origin, monitors),
        monitors.len() <= usize::MAX,
    ensures
        ({
            let (reg, src) = spec_region_plan(x, y, width, height, origin, monitors);
            let l = x + origin.0;
            let t = y + origin.1;
            &&& src matches CaptureSource::SingleMonitor(i) ==> {
                let m = monitors[i as int];
                &&& 0 <= i < monitors.len()
                &&& or_zero_i(m.x) <= l && or_zero_i(m.y) <= t
                &&& l + width <= or_zero_i(m.x) + or_zero_u(m.width)
                &&& t + height <= or_zero_i(m.y) + or_zero_u(m.height)
                &&& reg.x + or_zero_i(m.x) == l
                &&& reg.y + or_zero_i(m.y) == t
                &&& reg.width == width && reg.height == height
                &&& forall|j: int| 0 <= j < i ==> !monitor_holds(
                    #[trigger] monitors[j],
                    l,
                    t,
                    l + width,
                    t + height,
                )
            }
            &&& src is FullDesktop ==> reg == (RecordingRegion { x, y, width, height }) && forall|
                j: int,
            | 0 <= j < monitors.len() ==> !monitor_holds(
                #[trigger] monitors[j],
                l,
                t,
                l + width,
                t + height,
            )
        }),
{
    let l = x + origin.0;
    let t = y + origin.1;
    let r = l + width;
    let b = t + height;
    if exists|i: int| 0 <= i < monitors.len() && monitor_holds(#[trigger] monitors[i], l, t, r, b) {
        let i0 = choose|i: int| 0 <= i < monitors.len() && monitor_holds(#[trigger] monitors[i], l, t, r, b);
        lemma_first_holding(monitors, l, t, r, b, i0);
        let i = choose|i: int|
            0 <= i < monitors.len() && monitor_holds(#[trigger] monitors[i], l, t, r, b) && forall|
                j: int,
            | 0 <= j < i ==> !monitor_holds(#[trigger] monitors[j], l, t, r, b);
        let m = monitors[i];
        assert(monitor_holds(m, l, t, r, b));
        assert(or_zero_u(m.width) <= i32::MAX && i32::MIN <= or_zero_i(m.x) + or_zero_u(m.width) <= i32::MAX);
        assert(or_zero_u(m.height) <= i32::MAX && i32::MIN <= or_zero_i(m.y) + or_zero_u(m.height) <= i32::MAX);
        let (reg, src) = spec_region_plan(x, y, width, height, origin, monitors);
        assert(src == CaptureSource::SingleMonitor(i as usize));
        assert(reg.x == l - or_zero_i(m.x));
        assert(reg.y == t - or_zero_i(m.y));
    }
}

proof fn lemma_first_holding(monitors: Seq<ListedMonitor>, l: int, t: int, r: int, b: int, k: int)
    requires
        0 <= k < monitors.len(),
        monitor_holds(monitors[k], l, t, r, b),
    ensures
        exists|i: int|
            0 <= i < monitors.len() && monitor_holds(#[trigger] monitors[i], l, t, r, b) && forall|
                j: int,
            | 0 <= j < i ==> !monitor_holds(#[trigger] monitors[j], l, t, r, b),
    decreases k,
{
    if exists|j: int| 0 <= j < k && monitor_holds(#[trigger] monitors[j], l, t, r, b) {
        let j = choose|j: int| 0 <= j < k && monitor_holds(#[trigger] monitors[j], l, t, r, b);
        lemma_first_holding(monitors, l, t, r, b, j);
    } else {
        assert(monitor_holds(monitors[k], l, t, r, b));
    }
}

/// Chooses the capture source and region for recording a selection made in
/// the overlay (see `spec_region_plan`); fails when there is no monitor.
pub fn plan_region_recording(
    x: u32,
    y: u32,
    width: u32,
    height: u32,
    origin: (i32, i32),
    monitors: &[ListedMonitor],
) -> (r: Result<(RecordingRegion, CaptureSource), AppError>)
    requires
        region_plan_fits(x, y, width, height, origin, monitors@),
    ensures
        monitors@.len() == 0 ==> (r matches Err(e) && e is Recording && e.message()
            == "No monitors found"@),
        monitors@.len() > 0 ==> r == Ok::<(RecordingRegion, CaptureSource), AppError>(
            spec_region_plan(x, y, width, height, origin, monitors@),
        ),
{
    if monitors.len() == 0 {
        return Err(AppError::Recording(String::from_str("No monitors found")));
    }
    let abs_x = x as i32 + origin.0;
    let abs_y = y as i32 + origin.1;
    let abs_r = abs_x + width as i32;
    let abs_b = abs_y + height as i32;
    let ghost (l, t, rr, b) = (abs_x as int, abs_y as int, abs_r as int, abs_b as int);
    let mut i: usize = 0;
    while i < monitors.len()
        invariant
            i <= monitors@.len(),
            region_plan_fits(x, y, width, height, origin, monitors@),
            abs_x == l && abs_y == t && abs_r == rr && abs_b == b,
            l == x + origin.0 && t == y + origin.1 && rr == l + width && b == t + height,
            forall|j: int| 0 <= j < i ==> !monitor_holds(#[trigger] monitors@[j], l, t, rr, b),
        decreases monitors@.len() - i,
    {
        let m = &monitors[i];
        assert({
            let mm = monitors@[i as int];
            &&& or_zero_u(mm.width) <= i32::MAX && or_zero_u(mm.height) <= i32::MAX
            &&& i32::MIN <= or_zero_i(mm.x) + or_zero_u(mm.width) <= i32::MAX
            &&& i32::MIN <= or_zero_i(mm.y) + or_zero_u(mm.height) <= i32::MAX
        });
        let mx = match m.x { Some(v) => v, None => 0 };
        let my = match m.y { Some(v) => v, None => 0 };
        let mw = match m.width { Some(v) => v as i32, None => 0 };
        let mh = match m.height { Some(v) => v as i32, None => 0 };
        if abs_x >= mx && abs_y >= my && abs_r <= mx + mw && abs_b <= my + mh {
            let adj_x = (abs_x as i64 - mx as i64);
            let adj_y = (abs_y as i64 - my as i64);
            let region = RecordingRegion {
                x: if adj_x > 0 { adj_x as u32 } else { 0 },
                y: if adj_y > 0 { adj_y as u32 } else { 0 },
                width,
                height,
            };
            proof {
                let ms = monitors@;
                assert(monitor_holds(ms[i as int], l, t, rr, b));
                let c = choose|k: int|
                    0 <= k < ms.len() && monitor_holds(#[trigger] ms[k], l, t, rr, b) && forall|
                        j: int,
                    | 0 <= j < k ==> !monitor_holds(#[trigger] ms[j], l, t, rr, b);
                if c < i {
                } else if c > i {
                    assert(!monitor_holds(ms[i as int], l, t, rr, b));
                }
            }
            return Ok((region, CaptureSource::SingleMonitor(i)));
        }
        i += 1;
    }
    Ok((RecordingRegion { x, y, width, height }, CaptureSource::FullDesktop))
}

} // verus!
