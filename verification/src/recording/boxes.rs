//! ISOBMFF (ISO 14496-12) box builders for a single H.264 video track.
//!
//! Each builder has a spec function stating the exact bytes it produces.

use vstd::prelude::*;
use crate::bytes::{
    be16, be32, be32_all, concat_all, fourcc, zeros, fourcc_bytes, push_all, push_be16,
    push_be32, push_be32_all, push_fourcc, push_zeros, lemma_be32_all_len,
};

verus! {

/// A box: 32-bit big-endian size (8-byte header plus content), tag, content.
pub open spec fn box_bytes(tag: Seq<u8>, content: Seq<u8>) -> Seq<u8> {
    be32((8 + content.len()) as u32) + tag + content
}

pub open spec fn slice_views<'a>(s: Seq<&'a [u8]>) -> Seq<Seq<u8>> {
    s.map_values(|x: &'a [u8]| x@)
}

/// The 3x3 fixed-point unity transformation matrix.
pub open spec fn unity_matrix() -> Seq<u8> {
    be32(0x00010000) + be32(0) + be32(0) + be32(0) + be32(0x00010000) + be32(0) + be32(0)
        + be32(0) + be32(0x40000000)
}

#[verifier::opaque]
pub open spec fn spec_ftyp() -> Seq<u8> {
    be32(32) + fourcc('f', 't', 'y', 'p') + fourcc('i', 's', 'o', 'm') + seq![0u8, 0u8, 2u8, 0u8]
        + fourcc('i', 's', 'o', 'm') + fourcc('i', 's', 'o', '2') + fourcc('a', 'v', 'c', '1')
        + fourcc('m', 'p', '4', '1')
}

/// Movie header (108 bytes).
#[verifier::opaque]
pub open spec fn spec_mvhd(timescale: u32, duration: u32) -> Seq<u8> {
    be32(108) + fourcc('m', 'v', 'h', 'd') + zeros(12) + be32(timescale) + be32(duration) + be32(
        0x00010000,
    ) + be16(0x0100) + zeros(10) + unity_matrix() + zeros(24) + be32(2)
}

/// A dimension as 16.16 fixed point in a 32-bit field (the high bits drop).
pub open spec fn fixed_16_16(v: u32) -> u32 {
    ((v % 0x10000) * 0x10000) as u32
}

/// Track header (92 bytes).
#[verifier::opaque]
pub open spec fn spec_tkhd(width: u32, height: u32, duration: u32) -> Seq<u8> {
    be32(92) + fourcc('t', 'k', 'h', 'd') + seq![0u8, 0u8, 0u8, 3u8] + zeros(8) + be32(1) + zeros(
        4,
    ) + be32(duration) + zeros(8) + zeros(8) + unity_matrix() + be32(fixed_16_16(width)) + be32(
        fixed_16_16(height),
    )
}

#[verifier::opaque]
pub open spec fn spec_mdhd(timescale: u32, duration: u32) -> Seq<u8> {
    be32(32) + fourcc('m', 'd', 'h', 'd') + zeros(12) + be32(timescale) + be32(duration) + be16(
        0x55C4,
    ) + be16(0)
}

/// Handler reference ("vide", named "VideoHandler", 45 bytes).
#[verifier::opaque]
pub open spec fn spec_hdlr_video() -> Seq<u8> {
    be32(45) + fourcc('h', 'd', 'l', 'r') + zeros(8) + fourcc('v', 'i', 'd', 'e') + zeros(12)
        + fourcc('V', 'i', 'd', 'e') + fourcc('o', 'H', 'a', 'n') + fourcc('d', 'l', 'e', 'r')
        + seq![0u8]
}

#[verifier::opaque]
pub open spec fn spec_vmhd() -> Seq<u8> {
    be32(20) + fourcc('v', 'm', 'h', 'd') + seq![0u8, 0u8, 0u8, 1u8] + zeros(8)
}

pub open spec fn spec_url() -> Seq<u8> {
    be32(12) + fourcc('u', 'r', 'l', ' ') + seq![0u8, 0u8, 0u8, 1u8]
}

pub open spec fn spec_dref() -> Seq<u8> {
    be32(28) + fourcc('d', 'r', 'e', 'f') + zeros(4) + be32(1) + spec_url()
}

#[verifier::opaque]
pub open spec fn spec_dinf() -> Seq<u8> {
    box_bytes(fourcc('d', 'i', 'n', 'f'), spec_dref())
}

/// `s[i]`, or `default` when `s` is too short.
pub open spec fn byte_or(s: Seq<u8>, i: int, default: u8) -> u8 {
    if i < s.len() { s[i] } else { default }
}

/// AVC decoder configuration record (the payload of the avcC box).
#[verifier::opaque]
pub open spec fn spec_avcc(sps: Seq<u8>, pps: Seq<u8>) -> Seq<u8> {
    seq![1u8, byte_or(sps, 1, 66), byte_or(sps, 2, 0), byte_or(sps, 3, 30), 0xFFu8, 0xE1u8]
        + be16(sps.len() as u16) + sps + seq![1u8] + be16(pps.len() as u16) + pps
}

pub open spec fn spec_avcc_box(avcc: Seq<u8>) -> Seq<u8> {
    be32((8 + avcc.len()) as u32) + fourcc('a', 'v', 'c', 'C') + avcc
}

pub open spec fn spec_avc1(width: u32, height: u32, avcc: Seq<u8>) -> Seq<u8> {
    be32((86 + spec_avcc_box(avcc).len()) as u32) + fourcc('a', 'v', 'c', '1') + zeros(6) + be16(1)
        + zeros(16) + be16((width % 0x10000) as u16) + be16((height % 0x10000) as u16) + be32(
        0x00480000,
    ) + be32(0x00480000) + zeros(4) + be16(1) + zeros(32) + be16(0x0018) + be16(0xFFFF)
        + spec_avcc_box(avcc)
}

#[verifier::opaque]
pub open spec fn spec_stsd_avc1(width: u32, height: u32, avcc: Seq<u8>) -> Seq<u8> {
    be32((16 + spec_avc1(width, height, avcc).len()) as u32) + fourcc('s', 't', 's', 'd') + zeros(
        4,
    ) + be32(1) + spec_avc1(width, height, avcc)
}

#[verifier::opaque]
pub open spec fn spec_stts(frame_count: u32, sample_duration: u32) -> Seq<u8> {
    be32(24) + fourcc('s', 't', 't', 's') + zeros(4) + be32(1) + be32(frame_count) + be32(
        sample_duration,
    )
}

#[verifier::opaque]
pub open spec fn spec_stsc(frame_count: u32) -> Seq<u8> {
    be32(28) + fourcc('s', 't', 's', 'c') + zeros(4) + be32(1) + be32(1) + be32(frame_count) + be32(
        1,
    )
}

#[verifier::opaque]
pub open spec fn spec_stsz(sizes: Seq<u32>) -> Seq<u8> {
    be32((20 + 4 * sizes.len()) as u32) + fourcc('s', 't', 's', 'z') + zeros(4) + be32(0) + be32(
        sizes.len() as u32,
    ) + be32_all(sizes)
}

#[verifier::opaque]
pub open spec fn spec_stco(offset: u32) -> Seq<u8> {
    be32(20) + fourcc('s', 't', 'c', 'o') + zeros(4) + be32(1) + be32(offset)
}

#[verifier::opaque]
pub open spec fn spec_stss(sync_samples: Seq<u32>) -> Seq<u8> {
    be32((16 + 4 * sync_samples.len()) as u32) + fourcc('s', 't', 's', 's') + zeros(4) + be32(
        sync_samples.len() as u32,
    ) + be32_all(sync_samples)
}

/// Wraps already-built child boxes into a container box.
pub fn wrap_box(tag: &[u8; 4], children: &[&[u8]]) -> (buf: Vec<u8>)
    requires
        8 + concat_all(slice_views(children@)).len() <= usize::MAX,
    ensures
        buf@ == box_bytes(tag@, concat_all(slice_views(children@))),
{
    let ghost views = slice_views(children@);
    let mut content_size: usize = 0;
    let mut i: usize = 0;
    while i < children.len()
        invariant
            i <= children@.len(),
            views == slice_views(children@),
            8 + concat_all(views).len() <= usize::MAX,
            content_size == concat_all(views.take(i as int)).len(),
            content_size <= concat_all(views).len(),
        decreases children@.len() - i,
    {
        assert(views.take(i + 1).drop_last() =~= views.take(i as int));
        proof {
            lemma_concat_all_prefix_len(views, i as int + 1);
        }
        content_size = content_size + children[i].len();
        i = i + 1;
    }
    assert(views.take(i as int) =~= views);
    let total_size = 8 + content_size;
    let mut buf = Vec::new();
    push_be32(&mut buf, total_size as u32);
    push_all(&mut buf, tag);
    let ghost head = buf@;
    let mut j: usize = 0;
    while j < children.len()
        invariant
            j <= children@.len(),
            views == slice_views(children@),
            buf@ == head + concat_all(views.take(j as int)),
        decreases children@.len() - j,
    {
        push_all(&mut buf, children[j]);
        assert(views.take(j + 1).drop_last() =~= views.take(j as int));
        j = j + 1;
    }
    assert(views.take(j as int) =~= views);
    buf
}

pub proof fn lemma_concat_all_prefix_len(s: Seq<Seq<u8>>, n: int)
    requires
        0 <= n <= s.len(),
    ensures
        concat_all(s.take(n)).len() <= concat_all(s).len(),
    decreases s.len(),
{
    if n < s.len() {
        assert(s.drop_last().take(n) =~= s.take(n));
        lemma_concat_all_prefix_len(s.drop_last(), n);
    } else {
        assert(s.take(n) =~= s);
    }
}

pub fn build_ftyp() -> (buf: Vec<u8>)
    ensures
        buf@ == spec_ftyp(),
{
    reveal(spec_ftyp);
    let mut buf = Vec::new();
    push_be32(&mut buf, 32);
    push_fourcc(&mut buf, 'f', 't', 'y', 'p');
    push_fourcc(&mut buf, 'i', 's', 'o', 'm');
    buf.push(0);
    buf.push(0);
    buf.push(2);
    buf.push(0);
    push_fourcc(&mut buf, 'i', 's', 'o', 'm');
    push_fourcc(&mut buf, 'i', 's', 'o', '2');
    push_fourcc(&mut buf, 'a', 'v', 'c', '1');
    push_fourcc(&mut buf, 'm', 'p', '4', '1');
    assert(buf@ =~= spec_ftyp());
    buf
}

fn push_unity_matrix(buf: &mut Vec<u8>)
    ensures
        final(buf)@ == old(buf)@ + unity_matrix(),
{
    push_be32(buf, 0x00010000);
    push_be32(buf, 0);
    push_be32(buf, 0);
    push_be32(buf, 0);
    push_be32(buf, 0x00010000);
    push_be32(buf, 0);
    push_be32(buf, 0);
    push_be32(buf, 0);
    push_be32(buf, 0x40000000);
    assert(buf@ =~= old(buf)@ + unity_matrix());
}

pub fn build_mvhd(timescale: u32, duration: u32) -> (buf: Vec<u8>)
    ensures
        buf@ == spec_mvhd(timescale, duration),
{
    reveal(spec_mvhd);
    let mut buf = Vec::with_capacity(108);
    push_be32(&mut buf, 108);
    push_fourcc(&mut buf, 'm', 'v', 'h', 'd');
    push_zeros(&mut buf, 12);
    push_be32(&mut buf, timescale);
    push_be32(&mut buf, duration);
    push_be32(&mut buf, 0x00010000);
    push_be16(&mut buf, 0x0100);
    push_zeros(&mut buf, 10);
    push_unity_matrix(&mut buf);
    push_zeros(&mut buf, 24);
    push_be32(&mut buf, 2);
    assert(buf@ =~= spec_mvhd(timescale, duration));
    buf
}

pub fn build_tkhd(width: u32, height: u32, duration: u32) -> (buf: Vec<u8>)
    ensures
        buf@ == spec_tkhd(width, height, duration),
{
    reveal(spec_tkhd);
    let mut buf = Vec::new();
    push_be32(&mut buf, 92);
    push_fourcc(&mut buf, 't', 'k', 'h', 'd');
    buf.push(0);
    buf.push(0);
    buf.push(0);
    buf.push(3);
    push_zeros(&mut buf, 8);
    push_be32(&mut buf, 1);
    push_zeros(&mut buf, 4);
    push_be32(&mut buf, duration);
    push_zeros(&mut buf, 8);
    push_be16(&mut buf, 0);
    push_be16(&mut buf, 0);
    push_be16(&mut buf, 0);
    push_be16(&mut buf, 0);
    push_unity_matrix(&mut buf);
    push_be32(&mut buf, (width % 0x10000) * 0x10000);
    push_be32(&mut buf, (height % 0x10000) * 0x10000);
    assert(be16(0) + be16(0) + be16(0) + be16(0) =~= zeros(8));
    assert(buf@ =~= spec_tkhd(width, height, duration));
    buf
}

pub fn build_mdhd(timescale: u32, duration: u32) -> (buf: Vec<u8>)
    ensures
        buf@ == spec_mdhd(timescale, duration),
{
    reveal(spec_mdhd);
    let mut buf = Vec::new();
    push_be32(&mut buf, 32);
    push_fourcc(&mut buf, 'm', 'd', 'h', 'd');
    push_zeros(&mut buf, 12);
    push_be32(&mut buf, timescale);
    push_be32(&mut buf, duration);
    push_be16(&mut buf, 0x55C4);
    push_be16(&mut buf, 0);
    assert(buf@ =~= spec_mdhd(timescale, duration));
    buf
}

pub fn build_hdlr_video() -> (buf: Vec<u8>)
    ensures
        buf@ == spec_hdlr_video(),
{
    reveal(spec_hdlr_video);
    let mut buf = Vec::new();
    push_be32(&mut buf, 45);
    push_fourcc(&mut buf, 'h', 'd', 'l', 'r');
    push_zeros(&mut buf, 8);
    push_fourcc(&mut buf, 'v', 'i', 'd', 'e');
    push_zeros(&mut buf, 12);
    push_fourcc(&mut buf, 'V', 'i', 'd', 'e');
    push_fourcc(&mut buf, 'o', 'H', 'a', 'n');
    push_fourcc(&mut buf, 'd', 'l', 'e', 'r');
    buf.push(0);
    assert(buf@ =~= spec_hdlr_video());
    buf
}

pub fn build_vmhd() -> (buf: Vec<u8>)
    ensures
        buf@ == spec_vmhd(),
{
    reveal(spec_vmhd);
    let mut buf = Vec::new();
    push_be32(&mut buf, 20);
    push_fourcc(&mut buf, 'v', 'm', 'h', 'd');
    buf.push(0);
    buf.push(0);
    buf.push(0);
    buf.push(1);
    push_zeros(&mut buf, 8);
    assert(buf@ =~= spec_vmhd());
    buf
}

pub fn build_dinf() -> (buf: Vec<u8>)
    ensures
        buf@ == spec_dinf(),
{
    reveal(spec_dinf);
    let mut url_box = Vec::new();
    push_be32(&mut url_box, 12);
    push_fourcc(&mut url_box, 'u', 'r', 'l', ' ');
    url_box.push(0);
    url_box.push(0);
    url_box.push(0);
    url_box.push(1);
    assert(url_box@ =~= spec_url());
    let mut dref_box = Vec::new();
    push_be32(&mut dref_box, 8 + 4 + 4 + url_box.len() as u32);
    push_fourcc(&mut dref_box, 'd', 'r', 'e', 'f');
    push_zeros(&mut dref_box, 4);
    push_be32(&mut dref_box, 1);
    push_all(&mut dref_box, url_box.as_slice());
    assert(dref_box@ =~= spec_dref());
    let tag = fourcc_bytes('d', 'i', 'n', 'f');
    let children: [&[u8]; 1] = [dref_box.as_slice()];
    proof {
        assert(slice_views(children@) =~= seq![spec_dref()]);
        reveal_with_fuel(concat_all, 2);
        assert(concat_all(slice_views(children@)) =~= spec_dref());
    }
    wrap_box(&tag, &children)
}

pub fn build_avcc(sps: &[u8], pps: &[u8]) -> (buf: Vec<u8>)
    ensures
        buf@ == spec_avcc(sps@, pps@),
{
    reveal(spec_avcc);
    let mut buf = Vec::new();
    buf.push(1);
    buf.push(if sps.len() > 1 { sps[1] } else { 66 });
    buf.push(if sps.len() > 2 { sps[2] } else { 0 });
    buf.push(if sps.len() > 3 { sps[3] } else { 30 });
    buf.push(0xFF);
    buf.push(0xE1);
    push_be16(&mut buf, sps.len() as u16);
    push_all(&mut buf, sps);
    buf.push(1);
    push_be16(&mut buf, pps.len() as u16);
    push_all(&mut buf, pps);
    assert(buf@ =~= spec_avcc(sps@, pps@));
    buf
}

pub fn build_stsd_avc1(width: u32, height: u32, avcc_data: &[u8]) -> (buf: Vec<u8>)
    requires
        avcc_data@.len() + 8 + 86 + 16 <= u32::MAX,
    ensures
        buf@ == spec_stsd_avc1(width, height, avcc_data@),
{
    reveal(spec_stsd_avc1);
    let avcc_box_size = 8u32 + avcc_data.len() as u32;
    let mut avcc_box = Vec::new();
    push_be32(&mut avcc_box, avcc_box_size);
    push_fourcc(&mut avcc_box, 'a', 'v', 'c', 'C');
    push_all(&mut avcc_box, avcc_data);
    assert(avcc_box@ =~= spec_avcc_box(avcc_data@));

    let avc1_size = 86u32 + avcc_box.len() as u32;
    let mut avc1 = Vec::new();
    push_be32(&mut avc1, avc1_size);
    push_fourcc(&mut avc1, 'a', 'v', 'c', '1');
    push_zeros(&mut avc1, 6);
    push_be16(&mut avc1, 1);
    push_zeros(&mut avc1, 16);
    push_be16(&mut avc1, (width % 0x10000) as u16);
    push_be16(&mut avc1, (height % 0x10000) as u16);
    push_be32(&mut avc1, 0x00480000);
    push_be32(&mut avc1, 0x00480000);
    push_zeros(&mut avc1, 4);
    push_be16(&mut avc1, 1);
    push_zeros(&mut avc1, 32);
    push_be16(&mut avc1, 0x0018);
    push_be16(&mut avc1, 0xFFFF);
    push_all(&mut avc1, avcc_box.as_slice());
    assert(avc1@ =~= spec_avc1(width, height, avcc_data@));

    let stsd_size = 16u32 + avc1.len() as u32;
    let mut stsd = Vec::new();
    push_be32(&mut stsd, stsd_size);
    push_fourcc(&mut stsd, 's', 't', 's', 'd');
    push_zeros(&mut stsd, 4);
    push_be32(&mut stsd, 1);
    push_all(&mut stsd, avc1.as_slice());
    assert(stsd@ =~= spec_stsd_avc1(width, height, avcc_data@));
    stsd
}

pub fn build_stts(frame_count: u32, sample_duration: u32) -> (buf: Vec<u8>)
    ensures
        buf@ == spec_stts(frame_count, sample_duration),
{
    reveal(spec_stts);
    let mut buf = Vec::new();
    push_be32(&mut buf, 24);
    push_fourcc(&mut buf, 's', 't', 't', 's');
    push_zeros(&mut buf, 4);
    push_be32(&mut buf, 1);
    push_be32(&mut buf, frame_count);
    push_be32(&mut buf, sample_duration);
    assert(buf@ =~= spec_stts(frame_count, sample_duration));
    buf
}

pub fn build_stsc(frame_count: u32) -> (buf: Vec<u8>)
    ensures
        buf@ == spec_stsc(frame_count),
{
    reveal(spec_stsc);
    let mut buf = Vec::new();
    push_be32(&mut buf, 28);
    push_fourcc(&mut buf, 's', 't', 's', 'c');
    push_zeros(&mut buf, 4);
    push_be32(&mut buf, 1);
    push_be32(&mut buf, 1);
    push_be32(&mut buf, frame_count);
    push_be32(&mut buf, 1);
    assert(buf@ =~= spec_stsc(frame_count));
    buf
}

pub fn build_stsz(sizes: &[u32]) -> (buf: Vec<u8>)
    requires
        20 + 4 * sizes@.len() <= u32::MAX,
    ensures
        buf@ == spec_stsz(sizes@),
{
    reveal(spec_stsz);
    let mut buf = Vec::new();
    let size = 20u32 + (sizes.len() as u32 * 4);
    push_be32(&mut buf, size);
    push_fourcc(&mut buf, 's', 't', 's', 'z');
    push_zeros(&mut buf, 4);
    push_be32(&mut buf, 0);
    push_be32(&mut buf, sizes.len() as u32);
    push_be32_all(&mut buf, sizes);
    assert(buf@ =~= spec_stsz(sizes@));
    buf
}

pub fn build_stco(offset: u32) -> (buf: Vec<u8>)
    ensures
        buf@ == spec_stco(offset),
{
    reveal(spec_stco);
    let mut buf = Vec::new();
    push_be32(&mut buf, 20);
    push_fourcc(&mut buf, 's', 't', 'c', 'o');
    push_zeros(&mut buf, 4);
    push_be32(&mut buf, 1);
    push_be32(&mut buf, offset);
    assert(buf@ =~= spec_stco(offset));
    buf
}

pub fn build_stss(sync_samples: &[u32]) -> (buf: Vec<u8>)
    requires
        16 + 4 * sync_samples@.len() <= u32::MAX,
    ensures
        buf@ == spec_stss(sync_samples@),
{
    reveal(spec_stss);
    let mut buf = Vec::new();
    let size = 16u32 + (sync_samples.len() as u32 * 4);
    push_be32(&mut buf, size);
    push_fourcc(&mut buf, 's', 't', 's', 's');
    push_zeros(&mut buf, 4);
    push_be32(&mut buf, sync_samples.len() as u32);
    push_be32_all(&mut buf, sync_samples);
    assert(buf@ =~= spec_stss(sync_samples@));
    buf
}

/// The lengths of the boxes.
pub proof fn lemma_box_lengths(
    timescale: u32,
    duration: u32,
    width: u32,
    height: u32,
    sps: Seq<u8>,
    pps: Seq<u8>,
    avcc: Seq<u8>,
    frame_count: u32,
    sample_duration: u32,
    sizes: Seq<u32>,
    offset: u32,
    sync: Seq<u32>,
)
    ensures
        spec_ftyp().len() == 32,
        spec_mvhd(timescale, duration).len() == 108,
        spec_tkhd(width, height, duration).len() == 92,
        spec_mdhd(timescale, duration).len() == 32,
        spec_hdlr_video().len() == 45,
        spec_vmhd().len() == 20,
        spec_dinf().len() == 36,
        spec_avcc(sps, pps).len() == 11 + sps.len() + pps.len(),
        spec_stsd_avc1(width, height, avcc).len() == 110 + avcc.len(),
        spec_stts(frame_count, sample_duration).len() == 24,
        spec_stsc(frame_count).len() == 28,
        spec_stsz(sizes).len() == 20 + 4 * sizes.len(),
        spec_stco(offset).len() == 20,
        spec_stss(sync).len() == 16 + 4 * sync.len(),
{
    reveal(spec_ftyp);
    reveal(spec_mvhd);
    reveal(spec_tkhd);
    reveal(spec_mdhd);
    reveal(spec_hdlr_video);
    reveal(spec_vmhd);
    reveal(spec_dinf);
    reveal(spec_avcc);
    reveal(spec_stsd_avc1);
    reveal(spec_stts);
    reveal(spec_stsc);
    reveal(spec_stsz);
    reveal(spec_stco);
    reveal(spec_stss);
    lemma_be32_all_len(sizes);
    lemma_be32_all_len(sync);
}

/// Every box begins with a size field equal to its own length in bytes, as
/// ISO 14496-12 asks: the fixed-size boxes, the tables whose length grows
/// with their entries, and every container built from a tag and its content.
pub proof fn law_box_size_fields(
    timescale: u32,
    duration: u32,
    width: u32,
    height: u32,
    frame_count: u32,
    sample_duration: u32,
    sizes: Seq<u32>,
    offset: u32,
    sync: Seq<u32>,
    tag: Seq<u8>,
    content: Seq<u8>,
)
    requires
        20 + 4 * sizes.len() <= u32::MAX,
        16 + 4 * sync.len() <= u32::MAX,
        tag.len() == 4,
        8 + content.len() <= u32::MAX,
    ensures
        spec_ftyp().subrange(0, 4) == be32(spec_ftyp().len() as u32),
        spec_mvhd(timescale, duration).subrange(0, 4) == be32(
            spec_mvhd(timescale, duration).len() as u32,
        ),
        spec_tkhd(width, height, duration).subrange(0, 4) == be32(
            spec_tkhd(width, height, duration).len() as u32,
        ),
        spec_mdhd(timescale, duration).subrange(0, 4) == be32(
            spec_mdhd(timescale, duration).len() as u32,
        ),
        spec_hdlr_video().subrange(0, 4) == be32(spec_hdlr_video().len() as u32),
        spec_vmhd().subrange(0, 4) == be32(spec_vmhd().len() as u32),
        spec_stts(frame_count, sample_duration).subrange(0, 4) == be32(
            spec_stts(frame_count, sample_duration).len() as u32,
        ),
        spec_stsc(frame_count).subrange(0, 4) == be32(spec_stsc(frame_count).len() as u32),
        spec_stsz(sizes).subrange(0, 4) == be32(spec_stsz(sizes).len() as u32),
        spec_stco(offset).subrange(0, 4) == be32(spec_stco(offset).len() as u32),
        spec_stss(sync).subrange(0, 4) == be32(spec_stss(sync).len() as u32),
        box_bytes(tag, content).subrange(0, 4) == be32(box_bytes(tag, content).len() as u32),
{
    lemma_box_lengths(
        timescale,
        duration,
        width,
        height,
        Seq::empty(),
        Seq::empty(),
        Seq::empty(),
        frame_count,
        sample_duration,
        sizes,
        offset,
        sync,
    );
    reveal(spec_ftyp);
    reveal(spec_mvhd);
    reveal(spec_tkhd);
    reveal(spec_mdhd);
    reveal(spec_hdlr_video);
    reveal(spec_vmhd);
    reveal(spec_stts);
    reveal(spec_stsc);
    reveal(spec_stsz);
    reveal(spec_stco);
    reveal(spec_stss);
    assert(spec_ftyp().subrange(0, 4) =~= be32(32));
    assert(spec_mvhd(timescale, duration).subrange(0, 4) =~= be32(108));
    assert(spec_tkhd(width, height, duration).subrange(0, 4) =~= be32(92));
    assert(spec_mdhd(timescale, duration).subrange(0, 4) =~= be32(32));
    assert(spec_hdlr_video().subrange(0, 4) =~= be32(45));
    assert(spec_vmhd().subrange(0, 4) =~= be32(20));
    assert(spec_stts(frame_count, sample_duration).subrange(0, 4) =~= be32(24));
    assert(spec_stsc(frame_count).subrange(0, 4) =~= be32(28));
    assert(spec_stsz(sizes).subrange(0, 4) =~= be32((20 + 4 * sizes.len()) as u32));
    assert(spec_stco(offset).subrange(0, 4) =~= be32(20));
    assert(spec_stss(sync).subrange(0, 4) =~= be32((16 + 4 * sync.len()) as u32));
    assert(box_bytes(tag, content).subrange(0, 4) =~= be32((8 + content.len()) as u32));
}

} // verus!
