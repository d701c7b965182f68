//! Minimal MP4 muxer for a single H.264 video track.
//!
//! All NAL units are kept in memory; `finish` produces the complete file:
//! `ftyp`, then `moov`, then `mdat`. Its chunk offset (`stco`) points at the
//! first byte of the media data.

use vstd::prelude::*;
use crate::bytes::{be32, concat_all, fourcc, push_all, push_be32, push_fourcc};
use crate::error::AppError;
use super::annexb::{nal_units, slice_views as nal_slice_views, split_annex_b};
use super::boxes::{
    lemma_box_lengths,
    box_bytes, build_avcc, build_dinf, build_ftyp, build_hdlr_video, build_mdhd, build_mvhd,
    build_stco, build_stsc, build_stsd_avc1, build_stss, build_stsz, build_stts, build_tkhd,
    build_vmhd, slice_views, spec_avcc, spec_dinf, spec_ftyp, spec_hdlr_video, spec_mdhd,
    spec_mvhd, spec_stco, spec_stsc, spec_stsd_avc1, spec_stss, spec_stsz, spec_stts, spec_tkhd,
    spec_vmhd, wrap_box,
};

verus! {

/// Ticks per second of the media timeline.
pub const MP4_TIMESCALE: u32 = 90000;

/// A single encoded frame's NAL data.
struct FrameData {
    nal_units: Vec<Vec<u8>>,
    is_keyframe: bool,
}

/// Minimal MP4 muxer for single-track H.264 video.
pub struct Mp4Muxer {
    width: u32,
    height: u32,
    fps: u32,
    timescale: u32,
    frames: Vec<FrameData>,
    sps: Option<Vec<u8>>,
    pps: Option<Vec<u8>>,
}

/// What a muxer holds: dimensions, frame rate, the frames (each a list of NAL
/// units and a keyframe flag) and the last SPS and PPS seen.
pub ghost struct Mp4MuxerView {
    pub width: u32,
    pub height: u32,
    pub fps: u32,
    pub frames: Seq<(Seq<Seq<u8>>, bool)>,
    pub sps: Option<Seq<u8>>,
    pub pps: Option<Seq<u8>>,
}

pub open spec fn vec_views(v: Seq<Vec<u8>>) -> Seq<Seq<u8>> {
    v.map_values(|x: Vec<u8>| x@)
}

pub open spec fn opt_view(v: Option<Vec<u8>>) -> Option<Seq<u8>> {
    match v {
        Some(x) => Some(x@),
        None => None,
    }
}

spec fn frame_view(f: FrameData) -> (Seq<Seq<u8>>, bool) {
    (vec_views(f.nal_units@), f.is_keyframe)
}

impl View for Mp4Muxer {
    type V = Mp4MuxerView;

    closed spec fn view(&self) -> Mp4MuxerView {
        Mp4MuxerView {
            width: self.width,
            height: self.height,
            fps: self.fps,
            frames: self.frames@.map_values(|f: FrameData| frame_view(f)),
            sps: opt_view(self.sps),
            pps: opt_view(self.pps),
        }
    }
}

// -- What add_frame keeps --

/// The H.264 NAL unit type (low five bits of the first byte).
pub open spec fn nal_type(n: Seq<u8>) -> u8 {
    (n[0] % 32) as u8
}

/// The NAL units that carry picture data: non-empty, neither SPS (7) nor PPS (8).
pub open spec fn payload_nals(nals: Seq<Seq<u8>>) -> Seq<Seq<u8>>
    decreases nals.len(),
{
    if nals.len() == 0 {
        seq![]
    } else {
        let rest = payload_nals(nals.drop_last());
        let n = nals.last();
        if n.len() > 0 && nal_type(n) != 7 && nal_type(n) != 8 {
            rest.push(n)
        } else {
            rest
        }
    }
}

/// The last non-empty NAL unit of type `t`, or `prev` when there is none.
pub open spec fn last_of_type(nals: Seq<Seq<u8>>, t: u8, prev: Option<Seq<u8>>) -> Option<
    Seq<u8>,
>
    decreases nals.len(),
{
    if nals.len() == 0 {
        prev
    } else if nals.last().len() > 0 && nal_type(nals.last()) == t {
        Some(nals.last())
    } else {
        last_of_type(nals.drop_last(), t, prev)
    }
}

/// The muxer after `add_frame(data, key)`: SPS and PPS replaced by the last
/// ones found, and a frame of the remaining NAL units appended when there are any.
pub open spec fn spec_add_frame(v: Mp4MuxerView, data: Seq<u8>, key: bool) -> Mp4MuxerView {
    let nals = nal_units(data);
    let kept = payload_nals(nals);
    Mp4MuxerView {
        sps: last_of_type(nals, 7, v.sps),
        pps: last_of_type(nals, 8, v.pps),
        frames: if kept.len() > 0 { v.frames.push((kept, key)) } else { v.frames },
        ..v
    }
}

// -- What finish writes --

/// One sample: each NAL unit preceded by its 4-byte big-endian length.
pub open spec fn sample_bytes(nals: Seq<Seq<u8>>) -> Seq<u8>
    decreases nals.len(),
{
    if nals.len() == 0 {
        seq![]
    } else {
        sample_bytes(nals.drop_last()) + be32(nals.last().len() as u32) + nals.last()
    }
}

/// The media data: the samples of all frames, in order.
pub open spec fn media_payload(frames: Seq<(Seq<Seq<u8>>, bool)>) -> Seq<u8>
    decreases frames.len(),
{
    if frames.len() == 0 {
        seq![]
    } else {
        media_payload(frames.drop_last()) + sample_bytes(frames.last().0)
    }
}

/// The size of each sample.
pub open spec fn sample_sizes_of(frames: Seq<(Seq<Seq<u8>>, bool)>) -> Seq<u32> {
    Seq::new(frames.len(), |k: int| sample_bytes(frames[k].0).len() as u32)
}

/// The 1-based numbers of the keyframes.
pub open spec fn sync_samples_of(frames: Seq<(Seq<Seq<u8>>, bool)>) -> Seq<u32>
    decreases frames.len(),
{
    if frames.len() == 0 {
        seq![]
    } else if frames.last().1 {
        sync_samples_of(frames.drop_last()).push(frames.len() as u32)
    } else {
        sync_samples_of(frames.drop_last())
    }
}

/// Movie duration in milliseconds (saturating) from a duration in media ticks.
pub open spec fn mvhd_duration_of(duration_ts: u64) -> u32 {
    let ms = duration_ts as int * 1000 / MP4_TIMESCALE as int;
    if ms > u32::MAX { u32::MAX } else { ms as u32 }
}

#[verifier::opaque]
pub open spec fn spec_stbl(
    v: Mp4MuxerView,
    avcc: Seq<u8>,
    sizes: Seq<u32>,
    sync: Seq<u32>,
    frame_count: u32,
    sample_duration: u32,
    offset: u32,
) -> Seq<u8> {
    box_bytes(
        fourcc('s', 't', 'b', 'l'),
        spec_stsd_avc1(v.width, v.height, avcc) + spec_stts(frame_count, sample_duration)
            + spec_stsc(frame_count) + spec_stsz(sizes) + spec_stco(offset) + spec_stss(sync),
    )
}

#[verifier::opaque]
pub open spec fn spec_minf(
    v: Mp4MuxerView,
    avcc: Seq<u8>,
    sizes: Seq<u32>,
    sync: Seq<u32>,
    frame_count: u32,
    sample_duration: u32,
    offset: u32,
) -> Seq<u8> {
    box_bytes(
        fourcc('m', 'i', 'n', 'f'),
        spec_vmhd() + spec_dinf() + spec_stbl(
            v,
            avcc,
            sizes,
            sync,
            frame_count,
            sample_duration,
            offset,
        ),
    )
}

#[verifier::opaque]
pub open spec fn spec_mdia(
    v: Mp4MuxerView,
    avcc: Seq<u8>,
    sizes: Seq<u32>,
    sync: Seq<u32>,
    frame_count: u32,
    duration_ts: u64,
    sample_duration: u32,
    offset: u32,
) -> Seq<u8> {
    box_bytes(
        fourcc('m', 'd', 'i', 'a'),
        spec_mdhd(MP4_TIMESCALE, duration_ts as u32) + spec_hdlr_video() + spec_minf(
            v,
            avcc,
            sizes,
            sync,
            frame_count,
            sample_duration,
            offset,
        ),
    )
}

#[verifier::opaque]
pub open spec fn spec_trak(
    v: Mp4MuxerView,
    avcc: Seq<u8>,
    sizes: Seq<u32>,
    sync: Seq<u32>,
    frame_count: u32,
    duration_ts: u64,
    sample_duration: u32,
    offset: u32,
    mvhd_duration: u32,
) -> Seq<u8> {
    box_bytes(
        fourcc('t', 'r', 'a', 'k'),
        spec_tkhd(v.width, v.height, mvhd_duration) + spec_mdia(
            v,
            avcc,
            sizes,
            sync,
            frame_count,
            duration_ts,
            sample_duration,
            offset,
        ),
    )
}

#[verifier::opaque]
pub open spec fn spec_moov(
    v: Mp4MuxerView,
    avcc: Seq<u8>,
    sizes: Seq<u32>,
    sync: Seq<u32>,
    frame_count: u32,
    duration_ts: u64,
    sample_duration: u32,
    offset: u32,
) -> Seq<u8> {
    box_bytes(
        fourcc('m', 'o', 'o', 'v'),
        spec_mvhd(1000, mvhd_duration_of(duration_ts)) + spec_trak(
            v,
            avcc,
            sizes,
            sync,
            frame_count,
            duration_ts,
            sample_duration,
            offset,
            mvhd_duration_of(duration_ts),
        ),
    )
}

/// The muxer holds an SPS, a PPS and at least one frame.
pub open spec fn ready(v: Mp4MuxerView) -> bool {
    &&& v.sps is Some
    &&& v.pps is Some
    &&& v.frames.len() > 0
}

/// Length of the complete file: `ftyp` and the fixed boxes (642 bytes), the
/// SPS and PPS, four bytes per frame in the size table and per keyframe in
/// the sync table, and the media data.
pub open spec fn mp4_file_len(v: Mp4MuxerView) -> int {
    (642 + v.sps.unwrap().len() + v.pps.unwrap().len() + 4 * v.frames.len() + 4 * sync_samples_of(
        v.frames,
    ).len() + media_payload(v.frames).len()) as int
}

/// The frame rate is non-zero and the whole file fits the container's
/// 32-bit sizes and offsets.
pub open spec fn within_limits(v: Mp4MuxerView) -> bool {
    &&& v.fps > 0
    &&& mp4_file_len(v) <= u32::MAX
}

pub open spec fn frame_count_of(v: Mp4MuxerView) -> u32 {
    v.frames.len() as u32
}

pub open spec fn duration_ts_of(v: Mp4MuxerView) -> u64 {
    (frame_count_of(v) as int * MP4_TIMESCALE as int / v.fps as int) as u64
}

pub open spec fn sample_duration_of(v: Mp4MuxerView) -> u32 {
    (MP4_TIMESCALE / v.fps) as u32
}

/// The `moov` box of the file, with the given chunk offset.
pub open spec fn file_moov(v: Mp4MuxerView, offset: u32) -> Seq<u8> {
    spec_moov(
        v,
        spec_avcc(v.sps.unwrap(), v.pps.unwrap()),
        sample_sizes_of(v.frames),
        sync_samples_of(v.frames),
        frame_count_of(v),
        duration_ts_of(v),
        sample_duration_of(v),
        offset,
    )
}

/// Where the media data starts: after `ftyp`, `moov` and the `mdat` header.
pub open spec fn media_offset(v: Mp4MuxerView) -> u32 {
    (spec_ftyp().len() + file_moov(v, 0).len() + 8) as u32
}

/// The complete MP4 file.
pub open spec fn spec_mp4_file(v: Mp4MuxerView) -> Seq<u8> {
    let payload = media_payload(v.frames);
    spec_ftyp() + file_moov(v, media_offset(v)) + be32((8 + payload.len()) as u32) + fourcc(
        'm',
        'd',
        'a',
        't',
    ) + payload
}

// -- Lemmas about the specs --

proof fn lemma_sample_bytes_len(nals: Seq<Seq<u8>>)
    ensures
        sample_bytes(nals).len() >= 0,
        forall|j: int|
            0 <= j <= nals.len() ==> #[trigger] sample_bytes(nals.take(j)).len() <= sample_bytes(
                nals,
            ).len(),
    decreases nals.len(),
{
    if nals.len() > 0 {
        lemma_sample_bytes_len(nals.drop_last());
        assert forall|j: int|
            0 <= j <= nals.len() implies #[trigger] sample_bytes(nals.take(j)).len()
            <= sample_bytes(nals).len() by {
            if j < nals.len() {
                assert(nals.drop_last().take(j) =~= nals.take(j));
            } else {
                assert(nals.take(j) =~= nals);
            }
        }
    } else {
        assert forall|j: int|
            0 <= j <= nals.len() implies #[trigger] sample_bytes(nals.take(j)).len()
            <= sample_bytes(nals).len() by {
            assert(nals.take(j) =~= nals);
        }
    }
}

/// Bytes taken by NAL units in AVCC form: a 4-byte length before each.
pub open spec fn nal_bytes_len(nals: Seq<Seq<u8>>) -> int
    decreases nals.len(),
{
    if nals.len() == 0 {
        0
    } else {
        nal_bytes_len(nals.drop_last()) + 4 + nals.last().len()
    }
}

/// Bytes taken by the media data of the frames.
pub open spec fn payload_len(frames: Seq<(Seq<Seq<u8>>, bool)>) -> int
    decreases frames.len(),
{
    if frames.len() == 0 {
        0
    } else {
        payload_len(frames.drop_last()) + nal_bytes_len(frames.last().0)
    }
}

proof fn lemma_nal_bytes_len_prefix(nals: Seq<Seq<u8>>, k: int)
    requires
        0 <= k <= nals.len(),
    ensures
        nal_bytes_len(nals.take(k)) <= nal_bytes_len(nals),
    decreases nals.len() - k,
{
    if k < nals.len() {
        lemma_nal_bytes_len_prefix(nals, k + 1);
        assert(nals.take(k + 1).drop_last() =~= nals.take(k));
    } else {
        assert(nals.take(k) =~= nals);
    }
}

proof fn lemma_payload_len_prefix(frames: Seq<(Seq<Seq<u8>>, bool)>, i: int)
    requires
        0 <= i < frames.len(),
    ensures
        payload_len(frames.take(i)) + nal_bytes_len(frames[i].0) <= payload_len(frames),
    decreases frames.len() - i,
{
    if i < frames.len() - 1 {
        lemma_payload_len_prefix(frames, i + 1);
        assert(frames.take(i + 2).drop_last() =~= frames.take(i + 1));
        assert(frames.take(i + 1).drop_last() =~= frames.take(i));
        assert(frames.take(i + 1).last() == frames[i]);
        lemma_payload_len_monotone(frames, i + 1);
    } else {
        assert(frames.drop_last() =~= frames.take(i));
    }
}

proof fn lemma_payload_len_monotone(frames: Seq<(Seq<Seq<u8>>, bool)>, k: int)
    requires
        0 <= k <= frames.len(),
    ensures
        payload_len(frames.take(k)) <= payload_len(frames),
    decreases frames.len() - k,
{
    if k < frames.len() {
        lemma_payload_len_monotone(frames, k + 1);
        assert(frames.take(k + 1).drop_last() =~= frames.take(k));
        lemma_nal_bytes_nonneg(frames[k].0);
    } else {
        assert(frames.take(k) =~= frames);
    }
}

proof fn lemma_nal_bytes_nonneg(nals: Seq<Seq<u8>>)
    ensures
        nal_bytes_len(nals) >= 0,
    decreases nals.len(),
{
    if nals.len() > 0 {
        lemma_nal_bytes_nonneg(nals.drop_last());
    }
}

proof fn lemma_sample_bytes_len_eq(nals: Seq<Seq<u8>>)
    ensures
        sample_bytes(nals).len() == nal_bytes_len(nals),
    decreases nals.len(),
{
    if nals.len() > 0 {
        lemma_sample_bytes_len_eq(nals.drop_last());
    }
}

proof fn lemma_payload_len_eq(frames: Seq<(Seq<Seq<u8>>, bool)>)
    ensures
        media_payload(frames).len() == payload_len(frames),
    decreases frames.len(),
{
    if frames.len() > 0 {
        lemma_payload_len_eq(frames.drop_last());
        lemma_sample_bytes_len_eq(frames.last().0);
    }
}

proof fn lemma_media_payload_prefix(frames: Seq<(Seq<Seq<u8>>, bool)>, i: int)
    requires
        0 <= i < frames.len(),
    ensures
        media_payload(frames.take(i)).len() + sample_bytes(frames[i].0).len() <= media_payload(
            frames,
        ).len(),
    decreases frames.len(),
{
    if i < frames.len() - 1 {
        assert(frames.drop_last().take(i) =~= frames.take(i));
        lemma_media_payload_prefix(frames.drop_last(), i);
    } else {
        assert(frames.drop_last() =~= frames.take(i));
    }
}

proof fn lemma_sync_samples_len(frames: Seq<(Seq<Seq<u8>>, bool)>)
    ensures
        sync_samples_of(frames).len() <= frames.len(),
    decreases frames.len(),
{
    if frames.len() > 0 {
        lemma_sync_samples_len(frames.drop_last());
    }
}

proof fn lemma_sync_len_monotone(frames: Seq<(Seq<Seq<u8>>, bool)>, k: int)
    requires
        0 <= k <= frames.len(),
    ensures
        sync_samples_of(frames.take(k)).len() <= sync_samples_of(frames).len(),
    decreases frames.len() - k,
{
    if k < frames.len() {
        lemma_sync_len_monotone(frames, k + 1);
        assert(frames.take(k + 1).drop_last() =~= frames.take(k));
    } else {
        assert(frames.take(k) =~= frames);
    }
}

proof fn lemma_concat2(a: Seq<u8>, b: Seq<u8>)
    ensures
        concat_all(seq![a, b]) == a + b,
{
    reveal_with_fuel(concat_all, 3);
    assert(seq![a, b].drop_last() =~= seq![a]);
    assert(seq![a].drop_last() =~= Seq::<Seq<u8>>::empty());
    assert(concat_all(seq![a]) =~= a);
}

proof fn lemma_concat3(a: Seq<u8>, b: Seq<u8>, c: Seq<u8>)
    ensures
        concat_all(seq![a, b, c]) == a + b + c,
{
    lemma_concat2(a, b);
    assert(seq![a, b, c].drop_last() =~= seq![a, b]);
}

proof fn lemma_concat6(a: Seq<u8>, b: Seq<u8>, c: Seq<u8>, d: Seq<u8>, e: Seq<u8>, f: Seq<u8>)
    ensures
        concat_all(seq![a, b, c, d, e, f]) == a + b + c + d + e + f,
{
    lemma_concat3(a, b, c);
    assert(seq![a, b, c, d].drop_last() =~= seq![a, b, c]);
    assert(concat_all(seq![a, b, c, d]) == a + b + c + d);
    assert(seq![a, b, c, d, e].drop_last() =~= seq![a, b, c, d]);
    assert(concat_all(seq![a, b, c, d, e]) == a + b + c + d + e);
    assert(seq![a, b, c, d, e, f].drop_last() =~= seq![a, b, c, d, e]);
}

/// The lengths of the container boxes of the movie header.
pub proof fn lemma_moov_lengths(
    v: Mp4MuxerView,
    avcc: Seq<u8>,
    sizes: Seq<u32>,
    sync: Seq<u32>,
    frame_count: u32,
    duration_ts: u64,
    sample_duration: u32,
    offset: u32,
    mvhd_duration: u32,
)
    ensures
        spec_stbl(v, avcc, sizes, sync, frame_count, sample_duration, offset).len() == 226
            + avcc.len() + 4 * sizes.len() + 4 * sync.len(),
        spec_minf(v, avcc, sizes, sync, frame_count, sample_duration, offset).len() == 290
            + avcc.len() + 4 * sizes.len() + 4 * sync.len(),
        spec_mdia(v, avcc, sizes, sync, frame_count, duration_ts, sample_duration, offset).len()
            == 375 + avcc.len() + 4 * sizes.len() + 4 * sync.len(),
        spec_trak(
            v,
            avcc,
            sizes,
            sync,
            frame_count,
            duration_ts,
            sample_duration,
            offset,
            mvhd_duration,
        ).len() == 475 + avcc.len() + 4 * sizes.len() + 4 * sync.len(),
        spec_moov(v, avcc, sizes, sync, frame_count, duration_ts, sample_duration, offset).len()
            == 591 + avcc.len() + 4 * sizes.len() + 4 * sync.len(),
{
    reveal(spec_stbl);
    reveal(spec_minf);
    reveal(spec_mdia);
    reveal(spec_trak);
    reveal(spec_moov);
    lemma_box_lengths(
        MP4_TIMESCALE,
        duration_ts as u32,
        v.width,
        v.height,
        seq![],
        seq![],
        avcc,
        frame_count,
        sample_duration,
        sizes,
        offset,
        sync,
    );
    lemma_box_lengths(
        1000,
        mvhd_duration_of(duration_ts),
        v.width,
        v.height,
        seq![],
        seq![],
        avcc,
        frame_count,
        sample_duration,
        sizes,
        offset,
        sync,
    );
    lemma_box_lengths(
        1000,
        mvhd_duration,
        v.width,
        v.height,
        seq![],
        seq![],
        avcc,
        frame_count,
        sample_duration,
        sizes,
        offset,
        sync,
    );
}

/// The movie header's length does not depend on the chunk offset it records,
/// so the offset computed from a first build stays valid in the second.
pub proof fn law_moov_len_independent_of_offset(v: Mp4MuxerView, o1: u32, o2: u32)
    ensures
        file_moov(v, o1).len() == file_moov(v, o2).len(),
{
    lemma_moov_lengths(
        v,
        spec_avcc(v.sps.unwrap(), v.pps.unwrap()),
        sample_sizes_of(v.frames),
        sync_samples_of(v.frames),
        frame_count_of(v),
        duration_ts_of(v),
        sample_duration_of(v),
        o1,
        0,
    );
    lemma_moov_lengths(
        v,
        spec_avcc(v.sps.unwrap(), v.pps.unwrap()),
        sample_sizes_of(v.frames),
        sync_samples_of(v.frames),
        frame_count_of(v),
        duration_ts_of(v),
        sample_duration_of(v),
        o2,
        0,
    );
}

/// The file is three top-level boxes laid end to end, each with a size field
/// equal to its length: `ftyp` (32 bytes), `moov`, then `mdat` holding the
/// media data; and the chunk offset recorded in the movie header is the
/// position of the first media byte.
pub proof fn law_file_layout(v: Mp4MuxerView)
    requires
        ready(v),
        within_limits(v),
    ensures
        ({
            let f = spec_mp4_file(v);
            let m = file_moov(v, media_offset(v)).len() as int;
            let p = media_payload(v.frames);
            &&& f.len() == 40 + m + p.len()
            &&& f.subrange(0, 4) == be32(32)
            &&& f.subrange(4, 8) == fourcc('f', 't', 'y', 'p')
            &&& f.subrange(32, 36) == be32(m as u32)
            &&& f.subrange(36, 40) == fourcc('m', 'o', 'o', 'v')
            &&& f.subrange(32 + m, 36 + m) == be32((8 + p.len()) as u32)
            &&& f.subrange(36 + m, 40 + m) == fourcc('m', 'd', 'a', 't')
            &&& media_offset(v) == 40 + m
            &&& f.subrange(media_offset(v) as int, f.len() as int) == p
        }),
{
    let f = spec_mp4_file(v);
    let o = media_offset(v);
    let moov = file_moov(v, o);
    let p = media_payload(v.frames);
    let avcc = spec_avcc(v.sps.unwrap(), v.pps.unwrap());
    lemma_sync_samples_len(v.frames);
    lemma_box_lengths(
        1000,
        0,
        v.width,
        v.height,
        v.sps.unwrap(),
        v.pps.unwrap(),
        avcc,
        0,
        0,
        sample_sizes_of(v.frames),
        0,
        sync_samples_of(v.frames),
    );
    law_moov_len_independent_of_offset(v, 0, o);
    lemma_moov_lengths(
        v,
        avcc,
        sample_sizes_of(v.frames),
        sync_samples_of(v.frames),
        frame_count_of(v),
        duration_ts_of(v),
        sample_duration_of(v),
        o,
        0,
    );
    reveal(spec_moov);
    reveal(crate::recording::boxes::spec_ftyp);
    let m = moov.len() as int;
    assert(f.subrange(0, 4) =~= be32(32));
    assert(f.subrange(4, 8) =~= fourcc('f', 't', 'y', 'p'));
    assert(f.subrange(32, 36) =~= moov.subrange(0, 4));
    assert(f.subrange(36, 40) =~= moov.subrange(4, 8));
    assert(f.subrange(32 + m, 36 + m) =~= be32((8 + p.len()) as u32));
    assert(f.subrange(36 + m, 40 + m) =~= fourcc('m', 'd', 'a', 't'));
    assert(f.subrange(o as int, f.len() as int) =~= p);
}

proof fn lemma_part(p: Seq<u8>, q: Seq<u8>, r: Seq<u8>)
    ensures
        (p + q + r).subrange(p.len() as int, (p.len() + q.len()) as int) == q,
{
    assert((p + q + r).subrange(p.len() as int, (p.len() + q.len()) as int) =~= q);
}

proof fn lemma_nest(s: Seq<u8>, t: Seq<u8>, u: Seq<u8>, i: int, k: int, l: int)
    requires
        0 <= i,
        i + t.len() <= s.len(),
        s.subrange(i, i + t.len()) == t,
        0 <= k <= l <= t.len(),
        t.subrange(k, l) == u,
    ensures
        s.subrange(i + k, i + l) == u,
{
    assert(s.subrange(i + k, i + l) =~= t.subrange(k, l));
}

proof fn lemma_stts_in_stbl(
    v: Mp4MuxerView,
    avcc: Seq<u8>,
    sizes: Seq<u32>,
    sync: Seq<u32>,
    fc: u32,
    sd: u32,
    o: u32,
)
    ensures
        ({
            let stsd = spec_stsd_avc1(v.width, v.height, avcc);
            let stbl = spec_stbl(v, avcc, sizes, sync, fc, sd, o);
            &&& stbl.subrange(8 + stsd.len() as int, 32 + stsd.len() as int) == spec_stts(fc, sd)
            &&& stbl.len() >= 32 + stsd.len()
        }),
{
    reveal(spec_stbl);
    reveal(crate::recording::boxes::spec_stts);
    let stsd = spec_stsd_avc1(v.width, v.height, avcc);
    let stts = spec_stts(fc, sd);
    let rest = spec_stsc(fc) + spec_stsz(sizes) + spec_stco(o) + spec_stss(sync);
    let c = stsd + stts + spec_stsc(fc) + spec_stsz(sizes) + spec_stco(o) + spec_stss(sync);
    let head = be32((8 + c.len()) as u32) + fourcc('s', 't', 'b', 'l') + stsd;
    assert(spec_stbl(v, avcc, sizes, sync, fc, sd, o) =~= head + stts + rest);
    lemma_part(head, stts, rest);
}

proof fn lemma_stbl_in_minf(
    v: Mp4MuxerView,
    avcc: Seq<u8>,
    sizes: Seq<u32>,
    sync: Seq<u32>,
    fc: u32,
    sd: u32,
    o: u32,
)
    ensures
        ({
            let stbl = spec_stbl(v, avcc, sizes, sync, fc, sd, o);
            let minf = spec_minf(v, avcc, sizes, sync, fc, sd, o);
            minf.subrange(64, 64 + stbl.len() as int) == stbl && minf.len() >= 64 + stbl.len()
        }),
{
    reveal(spec_minf);
    lemma_box_lengths(0, 0, 0, 0, avcc, avcc, avcc, fc, sd, sizes, o, sync);
    let stbl = spec_stbl(v, avcc, sizes, sync, fc, sd, o);
    let c = spec_vmhd() + spec_dinf() + stbl;
    let head = be32((8 + c.len()) as u32) + fourcc('m', 'i', 'n', 'f') + spec_vmhd() + spec_dinf();
    assert(spec_minf(v, avcc, sizes, sync, fc, sd, o) =~= head + stbl + Seq::<u8>::empty());
    lemma_part(head, stbl, Seq::<u8>::empty());
}

proof fn lemma_mdhd_minf_in_mdia(
    v: Mp4MuxerView,
    avcc: Seq<u8>,
    sizes: Seq<u32>,
    sync: Seq<u32>,
    fc: u32,
    dts: u64,
    sd: u32,
    o: u32,
)
    ensures
        ({
            let minf = spec_minf(v, avcc, sizes, sync, fc, sd, o);
            let mdia = spec_mdia(v, avcc, sizes, sync, fc, dts, sd, o);
            &&& mdia.subrange(8, 40) == spec_mdhd(MP4_TIMESCALE, dts as u32)
            &&& mdia.subrange(85, 85 + minf.len() as int) == minf
            &&& mdia.len() >= 85 + minf.len()
        }),
{
    reveal(spec_mdia);
    reveal(crate::recording::boxes::spec_mdhd);
    reveal(crate::recording::boxes::spec_hdlr_video);
    let mdhd = spec_mdhd(MP4_TIMESCALE, dts as u32);
    let minf = spec_minf(v, avcc, sizes, sync, fc, sd, o);
    let c = mdhd + spec_hdlr_video() + minf;
    let tag = be32((8 + c.len()) as u32) + fourcc('m', 'd', 'i', 'a');
    assert(spec_mdia(v, avcc, sizes, sync, fc, dts, sd, o) =~= tag + mdhd + (spec_hdlr_video() + minf));
    lemma_part(tag, mdhd, spec_hdlr_video() + minf);
    assert(spec_mdia(v, avcc, sizes, sync, fc, dts, sd, o) =~= (tag + mdhd + spec_hdlr_video()) + minf
        + Seq::<u8>::empty());
    lemma_part(tag + mdhd + spec_hdlr_video(), minf, Seq::<u8>::empty());
}

proof fn lemma_mdia_in_trak(
    v: Mp4MuxerView,
    avcc: Seq<u8>,
    sizes: Seq<u32>,
    sync: Seq<u32>,
    fc: u32,
    dts: u64,
    sd: u32,
    o: u32,
    md: u32,
)
    ensures
        ({
            let mdia = spec_mdia(v, avcc, sizes, sync, fc, dts, sd, o);
            let trak = spec_trak(v, avcc, sizes, sync, fc, dts, sd, o, md);
            trak.subrange(100, 100 + mdia.len() as int) == mdia && trak.len() >= 100 + mdia.len()
        }),
{
    reveal(spec_trak);
    reveal(crate::recording::boxes::spec_tkhd);
    let mdia = spec_mdia(v, avcc, sizes, sync, fc, dts, sd, o);
    let c = spec_tkhd(v.width, v.height, md) + mdia;
    let head = be32((8 + c.len()) as u32) + fourcc('t', 'r', 'a', 'k') + spec_tkhd(v.width, v.height, md);
    assert(spec_trak(v, avcc, sizes, sync, fc, dts, sd, o, md) =~= head + mdia + Seq::<u8>::empty());
    lemma_part(head, mdia, Seq::<u8>::empty());
}

proof fn lemma_trak_in_file(v: Mp4MuxerView)
    requires
        ready(v),
    ensures
        ({
            let o = media_offset(v);
            let avcc = spec_avcc(v.sps.unwrap(), v.pps.unwrap());
            let dts = duration_ts_of(v);
            let trak = spec_trak(
                v,
                avcc,
                sample_sizes_of(v.frames),
                sync_samples_of(v.frames),
                frame_count_of(v),
                dts,
                sample_duration_of(v),
                o,
                mvhd_duration_of(dts),
            );
            let f = spec_mp4_file(v);
            f.subrange(148, 148 + trak.len() as int) == trak && f.len() >= 148 + trak.len()
        }),
{
    reveal(spec_moov);
    reveal(crate::recording::boxes::spec_ftyp);
    reveal(crate::recording::boxes::spec_mvhd);
    let o = media_offset(v);
    let avcc = spec_avcc(v.sps.unwrap(), v.pps.unwrap());
    let dts = duration_ts_of(v);
    let trak = spec_trak(
        v,
        avcc,
        sample_sizes_of(v.frames),
        sync_samples_of(v.frames),
        frame_count_of(v),
        dts,
        sample_duration_of(v),
        o,
        mvhd_duration_of(dts),
    );
    let mvhd = spec_mvhd(1000, mvhd_duration_of(dts));
    let c = mvhd + trak;
    let payload = media_payload(v.frames);
    let tail = be32((8 + payload.len()) as u32) + fourcc('m', 'd', 'a', 't') + payload;
    let head = spec_ftyp() + be32((8 + c.len()) as u32) + fourcc('m', 'o', 'o', 'v') + mvhd;
    assert(spec_mp4_file(v) =~= head + trak + tail);
    lemma_part(head, trak, tail);
}

/// Frame timing in the finished file agrees with the media timescale: the
/// media header (`mdhd`, at byte 256) counts 90000 ticks per second and
/// lasts `frames * 90000 / fps` ticks, and the time-to-sample table
/// (`stts`, right after the sample description, whose length grows with the
/// SPS and PPS) gives every one of the frames a delta of `90000 / fps`
/// ticks, so the frames play at `fps` frames per second; when `fps` divides
/// 90000 the deltas of all frames add up to the media duration.
#[verifier::spinoff_prover]
pub proof fn law_sample_timing_matches_timescale(v: Mp4MuxerView)
    requires
        ready(v),
        within_limits(v),
    ensures
        ({
            let f = spec_mp4_file(v);
            let a: int = (11 + v.sps.unwrap().len() + v.pps.unwrap().len()) as int;
            let n: int = v.frames.len() as int;
            &&& f.subrange(260, 264) == fourcc('m', 'd', 'h', 'd')
            &&& f.subrange(276, 280) == be32(90000)
            &&& f.subrange(280, 284) == be32((n * 90000 / (v.fps as int)) as u32)
            &&& f.subrange(519 + a, 523 + a) == fourcc('s', 't', 't', 's')
            &&& f.subrange(531 + a, 535 + a) == be32(n as u32)
            &&& f.subrange(535 + a, 539 + a) == be32((90000int / (v.fps as int)) as u32)
            &&& 90000int % (v.fps as int) == 0 ==> n * (90000int / (v.fps as int)) == n * 90000
                / (v.fps as int)
        }),
{
    let nn: int = v.frames.len() as int;
    let fps: int = v.fps as int;
    assert(90000int % fps == 0 ==> nn * (90000int / fps) == nn * 90000 / fps) by (nonlinear_arith)
        requires
            fps > 0,
            nn >= 0,
    ;
    let f = spec_mp4_file(v);
    let o = media_offset(v);
    let sps = v.sps.unwrap();
    let pps = v.pps.unwrap();
    let avcc = spec_avcc(sps, pps);
    let sizes = sample_sizes_of(v.frames);
    let sync = sync_samples_of(v.frames);
    let fc = frame_count_of(v);
    let dts = duration_ts_of(v);
    let sd = sample_duration_of(v);
    let md = mvhd_duration_of(dts);
    let stsd = spec_stsd_avc1(v.width, v.height, avcc);
    let stbl = spec_stbl(v, avcc, sizes, sync, fc, sd, o);
    let minf = spec_minf(v, avcc, sizes, sync, fc, sd, o);
    let mdia = spec_mdia(v, avcc, sizes, sync, fc, dts, sd, o);
    let trak = spec_trak(v, avcc, sizes, sync, fc, dts, sd, o, md);
    let mdhd = spec_mdhd(MP4_TIMESCALE, dts as u32);
    let stts = spec_stts(fc, sd);
    lemma_box_lengths(MP4_TIMESCALE, dts as u32, v.width, v.height, sps, pps, avcc, fc, sd, sizes, o, sync);
    lemma_stts_in_stbl(v, avcc, sizes, sync, fc, sd, o);
    lemma_stbl_in_minf(v, avcc, sizes, sync, fc, sd, o);
    lemma_mdhd_minf_in_mdia(v, avcc, sizes, sync, fc, dts, sd, o);
    lemma_mdia_in_trak(v, avcc, sizes, sync, fc, dts, sd, o, md);
    lemma_trak_in_file(v);
    // mdhd at 148 + 100 + 8 = 256.
    lemma_nest(trak, mdia, mdhd, 100, 8, 40);
    lemma_nest(f, trak, mdhd, 148, 108, 140);
    // stts at 148 + 100 + 85 + 64 + 8 + stsd = 405 + stsd.
    let k: int = 8 + stsd.len() as int;
    lemma_nest(minf, stbl, stts, 64, k, k + 24);
    lemma_nest(mdia, minf, stts, 85, 64 + k, 88 + k);
    lemma_nest(trak, mdia, stts, 100, 149 + k, 173 + k);
    lemma_nest(f, trak, stts, 148, 249 + k, 273 + k);
    assert(f.subrange(256, 288) == mdhd);
    assert(f.subrange(405 + stsd.len() as int, 429 + stsd.len() as int) == stts);
    reveal(crate::recording::boxes::spec_mdhd);
    reveal(crate::recording::boxes::spec_stts);
    assert(mdhd.subrange(4, 8) =~= fourcc('m', 'd', 'h', 'd'));
    lemma_nest(f, mdhd, fourcc('m', 'd', 'h', 'd'), 256, 4, 8);
    assert(mdhd.subrange(20, 24) =~= be32(MP4_TIMESCALE));
    lemma_nest(f, mdhd, be32(MP4_TIMESCALE), 256, 20, 24);
    assert(mdhd.subrange(24, 28) =~= be32(dts as u32));
    lemma_nest(f, mdhd, be32(dts as u32), 256, 24, 28);
    let p: int = 405 + stsd.len() as int;
    assert(stts.subrange(4, 8) =~= fourcc('s', 't', 't', 's'));
    lemma_nest(f, stts, fourcc('s', 't', 't', 's'), p, 4, 8);
    assert(stts.subrange(16, 20) =~= be32(fc));
    lemma_nest(f, stts, be32(fc), p, 16, 20);
    assert(stts.subrange(20, 24) =~= be32(sd));
    lemma_nest(f, stts, be32(sd), p, 20, 24);
}

/// The sync-sample table lists exactly the 1-based numbers of the keyframes.
pub proof fn law_sync_samples_are_keyframes(frames: Seq<(Seq<Seq<u8>>, bool)>, n: u32)
    requires
        frames.len() <= u32::MAX,
    ensures
        sync_samples_of(frames).contains(n) <==> (1 <= n <= frames.len() && frames[n - 1].1),
    decreases frames.len(),
{
    if frames.len() > 0 {
        let rest = frames.drop_last();
        law_sync_samples_are_keyframes(rest, n);
        if frames.last().1 {
            let r = sync_samples_of(rest);
            let rp = r.push(frames.len() as u32);
            assert(sync_samples_of(frames) == rp);
            if rp.contains(n) && n != frames.len() {
                let k = choose|k: int| 0 <= k < rp.len() && #[trigger] rp[k] == n;
                assert(r[k] == n);
                assert(r.contains(n));
            }
            if r.contains(n) {
                let k = choose|k: int| 0 <= k < r.len() && #[trigger] r[k] == n;
                assert(rp[k] == n);
            }
            if n == frames.len() {
                assert(rp[r.len() as int] == n);
            }
        }
    }
}

fn copy_bytes(s: &[u8]) -> (v: Vec<u8>)
    ensures
        v@ == s@,
{
    let mut v = Vec::new();
    push_all(&mut v, s);
    v
}

impl Mp4Muxer {
    #[verifier::type_invariant]
    spec fn inv(self) -> bool {
        self.timescale == MP4_TIMESCALE
    }

    /// An empty muxer for `width` x `height` video at `fps` frames per second.
    pub fn new(width: u32, height: u32, fps: u32) -> (m: Self)
        ensures
            m@ == (Mp4MuxerView {
                width,
                height,
                fps,
                frames: Seq::empty(),
                sps: None,
                pps: None,
            }),
    {
        let m = Self {
            width,
            height,
            fps,
            timescale: 90000,  // standard video timescale
            frames: Vec::new(),
            sps: None,
            pps: None,
        };
        assert(m@.frames =~= Seq::<(Seq<Seq<u8>>, bool)>::empty());
        m
    }

    /// Add an Annex B encoded frame.
    /// Parses NAL units, extracts SPS/PPS, converts to AVCC format.
    pub fn add_frame(&mut self, annex_b_data: &[u8], is_keyframe: bool)
        ensures
            final(self)@ == spec_add_frame(old(self)@, annex_b_data@, is_keyframe),
    {
        proof {
            use_type_invariant(&*self);
        }
        let nals = split_annex_b(annex_b_data);
        let ghost nv = nal_units(annex_b_data@);
        let mut frame_nals: Vec<Vec<u8>> = Vec::new();
        let ghost v0 = self@;

        let mut i: usize = 0;
        while i < nals.len()
            invariant
                i <= nals@.len(),
                nal_slice_views(nals@) == nv,
                vec_views(frame_nals@) == payload_nals(nv.take(i as int)),
                opt_view(self.sps) == last_of_type(nv.take(i as int), 7, v0.sps),
                opt_view(self.pps) == last_of_type(nv.take(i as int), 8, v0.pps),
                self@.frames == v0.frames,
                self@.width == v0.width,
                self@.height == v0.height,
                self@.fps == v0.fps,
                self.timescale == MP4_TIMESCALE,
            decreases nals@.len() - i,
        {
            let nal = nals[i];
            assert(nv[i as int] == nal@);
            assert(nv.take(i + 1).drop_last() =~= nv.take(i as int));
            assert(nv.take(i + 1).last() == nal@);
            if nal.len() == 0 {
                i += 1;
                continue;
            }
            let first = nal[0];
            let nal_type = first & 0x1F;
            assert(first & 0x1F == first % 32) by (bit_vector);
            if nal_type == 7 {
                self.sps = Some(copy_bytes(nal));  // SPS
            } else if nal_type == 8 {
                self.pps = Some(copy_bytes(nal));  // PPS
            } else {
                let ghost before = vec_views(frame_nals@);
                frame_nals.push(copy_bytes(nal));
                assert(vec_views(frame_nals@) =~= before.push(nal@));
            }
            i += 1;
        }
        assert(nv.take(i as int) =~= nv);

        if frame_nals.len() > 0 {
            let ghost fv = vec_views(frame_nals@);
            let mut frames: Vec<FrameData> = Vec::new();
            std::mem::swap(&mut frames, &mut self.frames);
            frames.push(FrameData { nal_units: frame_nals, is_keyframe });
            self.frames = frames;
            assert(self@.frames =~= v0.frames.push((fv, is_keyframe)));
        }
    }

    /// Whether `finish` may be called: the frame rate is non-zero and the
    /// file stays within the container's 32-bit sizes, where there is a file
    /// to write at all.
    pub fn can_finish(&self) -> (b: bool)
        ensures
            b == (ready(self@) ==> within_limits(self@)),
    {
        proof {
            use_type_invariant(self);
        }
        let (sps, pps) = match (&self.sps, &self.pps) {
            (Some(s), Some(p)) => (s, p),
            _ => return true,
        };
        if self.frames.len() == 0 {
            return true;
        }
        if self.fps == 0 {
            return false;
        }
        let ghost v = self@;
        let ghost fv = v.frames;
        let limit: u64 = 0xFFFF_FFFF;
        if self.frames.len() as u64 > limit || sps.len() as u64 > limit || pps.len() as u64 > limit {
            return false;
        }
        let mut total: u64 = 642 + sps.len() as u64 + pps.len() as u64 + 4 * self.frames.len() as u64;
        if total > limit {
            proof {
                lemma_payload_len_eq(fv);
            }
            return false;
        }
        let mut i: usize = 0;
        while i < self.frames.len()
            invariant
                v == self@,
                fv == v.frames,
                v.sps is Some,
                v.pps is Some,
                v.fps > 0,
                fv.len() > 0,
                i <= fv.len(),
                total <= limit,
                limit == 0xFFFF_FFFFu64,
                total == 642 + v.sps.unwrap().len() + v.pps.unwrap().len() + 4 * fv.len() + 4
                    * sync_samples_of(fv.take(i as int)).len() + payload_len(fv.take(i as int)),
            decreases fv.len() - i,
        {
            let frame = &self.frames[i];
            let ghost nv = fv[i as int].0;
            assert(nv == vec_views(frame.nal_units@));
            assert(fv.take(i + 1).drop_last() =~= fv.take(i as int));
            assert(fv.take(i + 1).last() == fv[i as int]);
            proof {
                lemma_sync_len_monotone(fv, i + 1);
                lemma_payload_len_prefix(fv, i as int);
                lemma_payload_len_eq(fv);
            }
            if frame.is_keyframe {
                assert(fv[i as int].1);
                assert(sync_samples_of(fv.take(i + 1)).len() == sync_samples_of(
                    fv.take(i as int),
                ).len() + 1);
                if total + 4 > limit {
                    proof {
                        lemma_nal_bytes_len_prefix(nv, 0);
                        assert(nv.take(0) =~= Seq::<Seq<u8>>::empty());
                    }
                    return false;
                }
                total = total + 4;
            }
            let ghost before = total;
            let mut j: usize = 0;
            while j < frame.nal_units.len()
                invariant
                    v == self@,
                    fv == v.frames,
                    v.sps is Some,
                    v.pps is Some,
                    v.fps > 0,
                    i < fv.len(),
                    nv == fv[i as int].0,
                    nv == vec_views(frame.nal_units@),
                    j <= nv.len(),
                    total <= limit,
                    limit == 0xFFFF_FFFFu64,
                    before == 642 + v.sps.unwrap().len() + v.pps.unwrap().len() + 4 * fv.len() + 4
                        * sync_samples_of(fv.take(i + 1)).len() + payload_len(fv.take(i as int)),
                    total == before + nal_bytes_len(nv.take(j as int)),
                    sync_samples_of(fv.take(i + 1)).len() <= sync_samples_of(fv).len(),
                    payload_len(fv.take(i as int)) + nal_bytes_len(nv) <= payload_len(fv),
                    media_payload(fv).len() == payload_len(fv),
                decreases nv.len() - j,
            {
                let n = frame.nal_units[j].len() as u64;
                assert(nv.take(j + 1).drop_last() =~= nv.take(j as int));
                assert(nv.take(j + 1).last() == frame.nal_units@[j as int]@);
                if n > limit || total + 4 + n > limit {
                    proof {
                        lemma_nal_bytes_len_prefix(nv, j + 1);
                    }
                    return false;
                }
                total = total + 4 + n;
                j += 1;
            }
            assert(nv.take(j as int) =~= nv);
            i += 1;
        }
        assert(fv.take(i as int) =~= fv);
        proof {
            lemma_payload_len_eq(fv);
        }
        true
    }

    /// The complete MP4 file: `ftyp`, `moov` (whose chunk offset points at the
    /// media data), then `mdat` with every frame's NAL units in AVCC form.
    pub fn finish(&self) -> (res: Result<Vec<u8>, AppError>)
        requires
            ready(self@) ==> within_limits(self@),
        ensures
            self@.sps is None ==> (res matches Err(AppError::Recording(m))
                && m@ == "No SPS found in H.264 stream"@),
            self@.sps is Some && self@.pps is None ==> (res matches Err(AppError::Recording(m))
                && m@ == "No PPS found in H.264 stream"@),
            self@.sps is Some && self@.pps is Some && self@.frames.len() == 0 ==> (res matches Err(
                AppError::Recording(m),
            ) && m@ == "No frames to write"@),
            ready(self@) ==> (res matches Ok(out) && out@ == spec_mp4_file(self@)),
    {
        proof {
            use_type_invariant(self);
        }
        let sps = match &self.sps {
            Some(s) => s,
            None => {
                return Err(AppError::Recording(String::from_str("No SPS found in H.264 stream")));
            },
        };
        let pps = match &self.pps {
            Some(p) => p,
            None => {
                return Err(AppError::Recording(String::from_str("No PPS found in H.264 stream")));
            },
        };
        if self.frames.len() == 0 {
            return Err(AppError::Recording(String::from_str("No frames to write")));
        }
        let ghost v = self@;
        let ghost fv = v.frames;
        let ghost total = media_payload(fv).len();

        // Build sample data (AVCC format: 4-byte length prefix per NAL unit)
        let mut mdat_payload: Vec<u8> = Vec::new();
        let mut sample_sizes: Vec<u32> = Vec::new();
        let mut sync_samples: Vec<u32> = Vec::new();  // 1-indexed

        let mut i: usize = 0;
        while i < self.frames.len()
            invariant
                v == self@,
                fv == v.frames,
                ready(v),
                within_limits(v),
                total == media_payload(fv).len(),
                i <= fv.len(),
                mdat_payload@ == media_payload(fv.take(i as int)),
                sample_sizes@ == sample_sizes_of(fv.take(i as int)),
                sync_samples@ == sync_samples_of(fv.take(i as int)),
            decreases fv.len() - i,
        {
            let frame = &self.frames[i];
            let ghost nv = fv[i as int].0;
            assert(nv == vec_views(frame.nal_units@));
            proof {
                lemma_media_payload_prefix(fv, i as int);
                lemma_sample_bytes_len(nv);
            }
            let sample_start = mdat_payload.len();
            let mut j: usize = 0;
            while j < frame.nal_units.len()
                invariant
                    nv == vec_views(frame.nal_units@),
                    j <= nv.len(),
                    sample_start == media_payload(fv.take(i as int)).len(),
                    mdat_payload@ == media_payload(fv.take(i as int)) + sample_bytes(
                        nv.take(j as int),
                    ),
                    media_payload(fv.take(i as int)).len() + sample_bytes(nv).len() <= total,
                    total + 642 <= u32::MAX,
                    forall|k: int|
                        0 <= k <= nv.len() ==> #[trigger] sample_bytes(nv.take(k)).len()
                            <= sample_bytes(nv).len(),
                decreases nv.len() - j,
            {
                let nal = &frame.nal_units[j];
                assert(nv.take(j + 1).drop_last() =~= nv.take(j as int));
                assert(nv.take(j + 1).last() == nal@);
                let len = nal.len() as u32;
                push_be32(&mut mdat_payload, len);
                push_all(&mut mdat_payload, nal.as_slice());
                j += 1;
                assert(mdat_payload@ =~= media_payload(fv.take(i as int)) + sample_bytes(
                    nv.take(j as int),
                ));
            }
            assert(nv.take(j as int) =~= nv);
            assert(fv.take(i + 1).drop_last() =~= fv.take(i as int));
            assert(fv.take(i + 1).last() == fv[i as int]);
            sample_sizes.push((mdat_payload.len() - sample_start) as u32);
            assert(sample_sizes@ =~= sample_sizes_of(fv.take(i + 1)));
            if frame.is_keyframe {
                sync_samples.push((i + 1) as u32);
            }
            assert(sync_samples@ =~= sync_samples_of(fv.take(i + 1)));
            i += 1;
        }
        assert(fv.take(i as int) =~= fv);
        proof {
            lemma_sync_samples_len(fv);
        }

        let frame_count = self.frames.len() as u32;
        let duration_ts = frame_count as u64 * self.timescale as u64 / self.fps as u64;
        let sample_duration = self.timescale / self.fps;

        // Build avcC box data
        let avcc_data = build_avcc(sps.as_slice(), pps.as_slice());
        proof {
            lemma_box_lengths(
                1000,
                0,
                self.width,
                self.height,
                sps@,
                pps@,
                avcc_data@,
                frame_count,
                sample_duration,
                sample_sizes@,
                0,
                sync_samples@,
            );
            lemma_moov_lengths(
                v,
                avcc_data@,
                sample_sizes@,
                sync_samples@,
                frame_count,
                duration_ts,
                sample_duration,
                0,
                0,
            );
        }

        // Calculate moov size to determine mdat offset
        let moov_data = self.build_moov(
            avcc_data.as_slice(),
            sample_sizes.as_slice(),
            sync_samples.as_slice(),
            frame_count,
            duration_ts,
            sample_duration,
        );

        // ftyp box
        let ftyp = build_ftyp();

        // mdat box: 8-byte header + payload
        let mdat_size = 8 + mdat_payload.len() as u32;

        // mdat_offset = ftyp.len() + moov.len() + 8 (mdat header)
        let mdat_data_offset = (ftyp.len() + moov_data.len() + 8) as u32;

        // Patch stco (chunk offset) in moov to point to mdat payload
        let moov_data = self.build_moov_with_offset(
            avcc_data.as_slice(),
            sample_sizes.as_slice(),
            sync_samples.as_slice(),
            frame_count,
            duration_ts,
            sample_duration,
            mdat_data_offset,
        );

        let mut out: Vec<u8> = Vec::new();
        push_all(&mut out, ftyp.as_slice());
        push_all(&mut out, moov_data.as_slice());
        // mdat header
        push_be32(&mut out, mdat_size);
        push_fourcc(&mut out, 'm', 'd', 'a', 't');
        push_all(&mut out, mdat_payload.as_slice());
        assert(out@ =~= spec_mp4_file(v));
        Ok(out)
    }

    fn build_moov(
        &self,
        avcc_data: &[u8],
        sample_sizes: &[u32],
        sync_samples: &[u32],
        frame_count: u32,
        duration_ts: u64,
        sample_duration: u32,
    ) -> (buf: Vec<u8>)
        requires
            avcc_data@.len() + 4 * sample_sizes@.len() + 4 * sync_samples@.len() + 591
                <= u32::MAX,
        ensures
            buf@ == spec_moov(
                self@,
                avcc_data@,
                sample_sizes@,
                sync_samples@,
                frame_count,
                duration_ts,
                sample_duration,
                0,
            ),
    {
        self.build_moov_with_offset(
            avcc_data,
            sample_sizes,
            sync_samples,
            frame_count,
            duration_ts,
            sample_duration,
            0,
        )
    }

    fn build_moov_with_offset(
        &self,
        avcc_data: &[u8],
        sample_sizes: &[u32],
        sync_samples: &[u32],
        frame_count: u32,
        duration_ts: u64,
        sample_duration: u32,
        mdat_data_offset: u32,
    ) -> (buf: Vec<u8>)
        requires
            avcc_data@.len() + 4 * sample_sizes@.len() + 4 * sync_samples@.len() + 591
                <= u32::MAX,
        ensures
            buf@ == spec_moov(
                self@,
                avcc_data@,
                sample_sizes@,
                sync_samples@,
                frame_count,
                duration_ts,
                sample_duration,
                mdat_data_offset,
            ),
    {
        reveal(spec_moov);
        proof {
            use_type_invariant(self);
        }
        let mvhd_timescale = 1000u32;
        let duration_ms = duration_ts as u128 * mvhd_timescale as u128 / self.timescale as u128;
        let mvhd_duration: u32 = if duration_ms > u32::MAX as u128 {
            u32::MAX
        } else {
            duration_ms as u32
        };

        let mvhd = build_mvhd(mvhd_timescale, mvhd_duration);
        let trak = self.build_trak(
            avcc_data,
            sample_sizes,
            sync_samples,
            frame_count,
            duration_ts,
            sample_duration,
            mdat_data_offset,
            mvhd_duration,
        );
        let tag = crate::bytes::fourcc_bytes('m', 'o', 'o', 'v');
        let children: [&[u8]; 2] = [mvhd.as_slice(), trak.as_slice()];
        proof {
            assert(slice_views(children@) =~= seq![mvhd@, trak@]);
            lemma_concat2(mvhd@, trak@);
        }
        proof {
            lemma_moov_lengths(
                self@,
                avcc_data@,
                sample_sizes@,
                sync_samples@,
                frame_count,
                duration_ts,
                sample_duration,
                mdat_data_offset,
                mvhd_duration,
            );
            lemma_box_lengths(
                1000,
                mvhd_duration,
                self.width,
                self.height,
                seq![],
                seq![],
                avcc_data@,
                frame_count,
                sample_duration,
                sample_sizes@,
                mdat_data_offset,
                sync_samples@,
            );
        }
        wrap_box(&tag, &children)
    }

    fn build_trak(
        &self,
        avcc_data: &[u8],
        sample_sizes: &[u32],
        sync_samples: &[u32],
        frame_count: u32,
        duration_ts: u64,
        sample_duration: u32,
        mdat_data_offset: u32,
        mvhd_duration: u32,
    ) -> (buf: Vec<u8>)
        requires
            avcc_data@.len() + 4 * sample_sizes@.len() + 4 * sync_samples@.len() + 591
                <= u32::MAX,
        ensures
            buf@ == spec_trak(
                self@,
                avcc_data@,
                sample_sizes@,
                sync_samples@,
                frame_count,
                duration_ts,
                sample_duration,
                mdat_data_offset,
                mvhd_duration,
            ),
    {
        reveal(spec_trak);
        let tkhd = build_tkhd(self.width, self.height, mvhd_duration);
        let mdia = self.build_mdia(
            avcc_data,
            sample_sizes,
            sync_samples,
            frame_count,
            duration_ts,
            sample_duration,
            mdat_data_offset,
        );
        let tag = crate::bytes::fourcc_bytes('t', 'r', 'a', 'k');
        let children: [&[u8]; 2] = [tkhd.as_slice(), mdia.as_slice()];
        proof {
            assert(slice_views(children@) =~= seq![tkhd@, mdia@]);
            lemma_concat2(tkhd@, mdia@);
        }
        proof {
            lemma_moov_lengths(
                self@,
                avcc_data@,
                sample_sizes@,
                sync_samples@,
                frame_count,
                duration_ts,
                sample_duration,
                mdat_data_offset,
                mvhd_duration,
            );
            lemma_box_lengths(
                0,
                mvhd_duration,
                self.width,
                self.height,
                seq![],
                seq![],
                avcc_data@,
                frame_count,
                sample_duration,
                sample_sizes@,
                mdat_data_offset,
                sync_samples@,
            );
        }
        wrap_box(&tag, &children)
    }

    fn build_mdia(
        &self,
        avcc_data: &[u8],
        sample_sizes: &[u32],
        sync_samples: &[u32],
        frame_count: u32,
        duration_ts: u64,
        sample_duration: u32,
        mdat_data_offset: u32,
    ) -> (buf: Vec<u8>)
        requires
            avcc_data@.len() + 4 * sample_sizes@.len() + 4 * sync_samples@.len() + 591
                <= u32::MAX,
        ensures
            buf@ == spec_mdia(
                self@,
                avcc_data@,
                sample_sizes@,
                sync_samples@,
                frame_count,
                duration_ts,
                sample_duration,
                mdat_data_offset,
            ),
    {
        reveal(spec_mdia);
        proof {
            use_type_invariant(self);
        }
        let mdhd = build_mdhd(self.timescale, duration_ts as u32);
        let hdlr = build_hdlr_video();
        let minf = self.build_minf(
            avcc_data,
            sample_sizes,
            sync_samples,
            frame_count,
            sample_duration,
            mdat_data_offset,
        );
        let tag = crate::bytes::fourcc_bytes('m', 'd', 'i', 'a');
        let children: [&[u8]; 3] = [mdhd.as_slice(), hdlr.as_slice(), minf.as_slice()];
        proof {
            assert(slice_views(children@) =~= seq![mdhd@, hdlr@, minf@]);
            lemma_concat3(mdhd@, hdlr@, minf@);
        }
        proof {
            lemma_moov_lengths(
                self@,
                avcc_data@,
                sample_sizes@,
                sync_samples@,
                frame_count,
                duration_ts,
                sample_duration,
                mdat_data_offset,
                0,
            );
            lemma_box_lengths(
                MP4_TIMESCALE,
                duration_ts as u32,
                self.width,
                self.height,
                seq![],
                seq![],
                avcc_data@,
                frame_count,
                sample_duration,
                sample_sizes@,
                mdat_data_offset,
                sync_samples@,
            );
        }
        wrap_box(&tag, &children)
    }

    fn build_minf(
        &self,
        avcc_data: &[u8],
        sample_sizes: &[u32],
        sync_samples: &[u32],
        frame_count: u32,
        sample_duration: u32,
        mdat_data_offset: u32,
    ) -> (buf: Vec<u8>)
        requires
            avcc_data@.len() + 4 * sample_sizes@.len() + 4 * sync_samples@.len() + 591
                <= u32::MAX,
        ensures
            buf@ == spec_minf(
                self@,
                avcc_data@,
                sample_sizes@,
                sync_samples@,
                frame_count,
                sample_duration,
                mdat_data_offset,
            ),
    {
        reveal(spec_minf);
        let vmhd = build_vmhd();
        let dinf = build_dinf();
        let stbl = self.build_stbl(
            avcc_data,
            sample_sizes,
            sync_samples,
            frame_count,
            sample_duration,
            mdat_data_offset,
        );
        let tag = crate::bytes::fourcc_bytes('m', 'i', 'n', 'f');
        let children: [&[u8]; 3] = [vmhd.as_slice(), dinf.as_slice(), stbl.as_slice()];
        proof {
            assert(slice_views(children@) =~= seq![vmhd@, dinf@, stbl@]);
            lemma_concat3(vmhd@, dinf@, stbl@);
        }
        proof {
            lemma_moov_lengths(
                self@,
                avcc_data@,
                sample_sizes@,
                sync_samples@,
                frame_count,
                0,
                sample_duration,
                mdat_data_offset,
                0,
            );
            lemma_box_lengths(
                0,
                0,
                self.width,
                self.height,
                seq![],
                seq![],
                avcc_data@,
                frame_count,
                sample_duration,
                sample_sizes@,
                mdat_data_offset,
                sync_samples@,
            );
        }
        wrap_box(&tag, &children)
    }

    fn build_stbl(
        &self,
        avcc_data: &[u8],
        sample_sizes: &[u32],
        sync_samples: &[u32],
        frame_count: u32,
        sample_duration: u32,
        mdat_data_offset: u32,
    ) -> (buf: Vec<u8>)
        requires
            avcc_data@.len() + 4 * sample_sizes@.len() + 4 * sync_samples@.len() + 591
                <= u32::MAX,
        ensures
            buf@ == spec_stbl(
                self@,
                avcc_data@,
                sample_sizes@,
                sync_samples@,
                frame_count,
                sample_duration,
                mdat_data_offset,
            ),
    {
        reveal(spec_stbl);
        let stsd = build_stsd_avc1(self.width, self.height, avcc_data);
        let stts = build_stts(frame_count, sample_duration);
        let stsc = build_stsc(frame_count);
        let stsz = build_stsz(sample_sizes);
        let stco = build_stco(mdat_data_offset);
        let stss = build_stss(sync_samples);
        let tag = crate::bytes::fourcc_bytes('s', 't', 'b', 'l');
        let children: [&[u8]; 6] = [
            stsd.as_slice(),
            stts.as_slice(),
            stsc.as_slice(),
            stsz.as_slice(),
            stco.as_slice(),
            stss.as_slice(),
        ];
        proof {
            assert(slice_views(children@) =~= seq![stsd@, stts@, stsc@, stsz@, stco@, stss@]);
            lemma_concat6(stsd@, stts@, stsc@, stsz@, stco@, stss@);
            crate::bytes::lemma_be32_all_len(sample_sizes@);
            crate::bytes::lemma_be32_all_len(sync_samples@);
        }
        proof {
            lemma_moov_lengths(
                self@,
                avcc_data@,
                sample_sizes@,
                sync_samples@,
                frame_count,
                0,
                sample_duration,
                mdat_data_offset,
                0,
            );
            lemma_box_lengths(
                0,
                0,
                self.width,
                self.height,
                seq![],
                seq![],
                avcc_data@,
                frame_count,
                sample_duration,
                sample_sizes@,
                mdat_data_offset,
                sync_samples@,
            );
        }
        wrap_box(&tag, &children)
    }
}

} // verus!
