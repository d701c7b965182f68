use quickshotter::error::AppError;
use quickshotter::recording::annexb::split_annex_b;
use quickshotter::recording::boxes::{
    build_avcc, build_ftyp, build_hdlr_video, build_mvhd, build_stco, build_stsz, build_stts,
    build_tkhd, wrap_box,
};
use quickshotter::recording::gif_frames::{
    gif_frame_pixels, gif_output_dims, quantize_frame, rgba_to_rgb, GifEncoderState, GifFramePlan,
};
use quickshotter::recording::gif_stream::{gif_frame_block, gif_stream_end, gif_stream_start};
use quickshotter::recording::pipeline::GifConfig;
use quickshotter::recording::mp4_muxer::Mp4Muxer;
use quickshotter::recording::pipeline::{
    compute_bitrate, even_encoder_dims, frame_crop, gif_frame_delay_cs, plan_region_recording,
    recording_file_name, recording_format_from, should_auto_stop, CaptureSource, RecordingFormat,
    RecordingRegion,
};
use quickshotter::geometry::ListedMonitor;
use quickshotter::recording::pipeline::{gif_finish_check, FrameStep, Mp4EncodeState};

const SPS: [u8; 4] = [0x67, 0x42, 0x00, 0x1f];
const PPS: [u8; 4] = [0x68, 0xce, 0x3c, 0x80];

fn stream_with_keyframe() -> Vec<u8> {
    let mut d = vec![0, 0, 0, 1];
    d.extend_from_slice(&SPS);
    d.extend_from_slice(&[0, 0, 0, 1]);
    d.extend_from_slice(&PPS);
    d.extend_from_slice(&[0, 0, 1, 0x65, 0x88, 0x84]);
    d
}

fn find(hay: &[u8], needle: &[u8]) -> Option<usize> {
    hay.windows(needle.len()).position(|w| w == needle)
}

fn be32_at(b: &[u8], i: usize) -> u32 {
    u32::from_be_bytes([b[i], b[i + 1], b[i + 2], b[i + 3]])
}

#[test]
fn split_annex_b_finds_units_after_both_start_codes() {
    let data = [0u8, 0, 1, 9, 9, 0, 0, 0, 1, 7];
    let nals = split_annex_b(&data);
    assert_eq!(nals, vec![&[9u8, 9][..], &[7u8][..]]);
}

#[test]
fn split_annex_b_skips_empty_units_and_leading_garbage() {
    let data = [5u8, 0, 0, 1, 0, 0, 1, 5];
    let nals = split_annex_b(&data);
    assert_eq!(nals, vec![&[5u8][..]]);
    assert!(split_annex_b(&[1, 2, 3]).is_empty());
}

#[test]
fn ftyp_box_exact_bytes() {
    let f = build_ftyp();
    let mut want = vec![0u8, 0, 0, 32];
    want.extend_from_slice(b"ftypisom");
    want.extend_from_slice(&[0, 0, 2, 0]);
    want.extend_from_slice(b"isomiso2avc1mp41");
    assert_eq!(f, want);
}

#[test]
fn small_boxes_exact_bytes() {
    let mut want = vec![0u8, 0, 0, 24];
    want.extend_from_slice(b"stts");
    want.extend_from_slice(&[0, 0, 0, 0, 0, 0, 0, 1, 0, 0, 0, 5, 0, 0, 0x0b, 0xb8]);
    assert_eq!(build_stts(5, 3000), want);

    let mut want = vec![0u8, 0, 0, 20];
    want.extend_from_slice(b"stco");
    want.extend_from_slice(&[0, 0, 0, 0, 0, 0, 0, 1, 0x12, 0x34, 0x56, 0x78]);
    assert_eq!(build_stco(0x12345678), want);

    let mut want = vec![0u8, 0, 0, 28];
    want.extend_from_slice(b"stsz");
    want.extend_from_slice(&[0, 0, 0, 0, 0, 0, 0, 0, 0, 0, 0, 2, 0, 0, 0, 7, 0, 0, 1, 0]);
    assert_eq!(build_stsz(&[7, 256]), want);

    let inner = vec![1u8, 2];
    let b = wrap_box(b"abcd", &[&inner[..], &[3u8][..]]);
    assert_eq!(b, vec![0, 0, 0, 11, b'a', b'b', b'c', b'd', 1, 2, 3]);
}

#[test]
fn avcc_record_copies_profile_and_parameter_sets() {
    let a = build_avcc(&SPS, &PPS);
    assert_eq!(
        a,
        vec![1, 0x42, 0x00, 0x1f, 0xff, 0xe1, 0, 4, 0x67, 0x42, 0x00, 0x1f, 1, 0, 4, 0x68, 0xce, 0x3c, 0x80]
    );
    // A too-short SPS falls back to baseline profile 3.0.
    let b = build_avcc(&[0x67], &[0x68]);
    assert_eq!(&b[..6], &[1, 66, 0, 30, 0xff, 0xe1]);
}

#[test]
fn muxer_reports_missing_parameter_sets_and_frames() {
    let m = Mp4Muxer::new(64, 48, 30);
    assert_eq!(m.finish(), Err(AppError::Recording("No SPS found in H.264 stream".to_string())));

    let mut m = Mp4Muxer::new(64, 48, 30);
    let mut only_sps = vec![0, 0, 0, 1];
    only_sps.extend_from_slice(&SPS);
    m.add_frame(&only_sps, true);
    assert_eq!(m.finish(), Err(AppError::Recording("No PPS found in H.264 stream".to_string())));

    let mut params = only_sps.clone();
    params.extend_from_slice(&[0, 0, 0, 1]);
    params.extend_from_slice(&PPS);
    let mut m = Mp4Muxer::new(64, 48, 30);
    m.add_frame(&params, true);
    assert_eq!(m.finish(), Err(AppError::Recording("No frames to write".to_string())));
}

#[test]
fn muxer_writes_ftyp_moov_mdat_with_chunk_offset_at_payload() {
    let mut m = Mp4Muxer::new(64, 48, 30);
    m.add_frame(&stream_with_keyframe(), true);
    assert!(m.can_finish());
    let file = m.finish().expect("file");

    assert_eq!(&file[..32], &build_ftyp()[..]);
    assert_eq!(&file[36..40], b"moov");
    let moov_len = be32_at(&file, 32) as usize;
    // mdat follows moov: 8-byte header then one AVCC sample (length + IDR unit).
    let mdat = &file[32 + moov_len..];
    assert_eq!(mdat, &[0, 0, 0, 15, b'm', b'd', b'a', b't', 0, 0, 0, 3, 0x65, 0x88, 0x84]);

    // mvhd: millisecond timescale, duration 33 ms (1 frame at 30 fps).
    assert_eq!(&file[44..48], b"mvhd");
    assert_eq!(be32_at(&file, 60), 1000);
    assert_eq!(be32_at(&file, 64), 33);

    // The chunk offset points at the first byte of the sample data.
    let stco = find(&file, b"stco").expect("stco");
    assert_eq!(be32_at(&file, stco + 12) as usize, file.len() - 7);

    // One keyframe: sync sample table lists sample 1.
    let stss = find(&file, b"stss").expect("stss");
    assert_eq!(be32_at(&file, stss + 8), 1);
    assert_eq!(be32_at(&file, stss + 12), 1);
}

#[test]
fn muxer_keeps_only_keyframes_in_sync_table() {
    let mut m = Mp4Muxer::new(64, 48, 10);
    m.add_frame(&stream_with_keyframe(), true);
    m.add_frame(&[0, 0, 1, 0x41, 0x9a], false);
    m.add_frame(&[0, 0, 1, 0x65, 0x01], true);
    let file = m.finish().expect("file");
    let stss = find(&file, b"stss").expect("stss");
    assert_eq!(be32_at(&file, stss + 8), 2);
    assert_eq!(be32_at(&file, stss + 12), 1);
    assert_eq!(be32_at(&file, stss + 16), 3);
    let stsz = find(&file, b"stsz").expect("stsz");
    assert_eq!(be32_at(&file, stsz + 12), 3);
    assert_eq!(be32_at(&file, stsz + 16), 7);
    assert_eq!(be32_at(&file, stsz + 20), 6);
    assert_eq!(be32_at(&file, stsz + 24), 6);
}

#[test]
fn muxer_with_zero_fps_cannot_finish() {
    let mut m = Mp4Muxer::new(64, 48, 0);
    m.add_frame(&stream_with_keyframe(), true);
    assert!(!m.can_finish());
    assert!(Mp4Muxer::new(64, 48, 0).can_finish());
}

#[test]
fn bitrate_scales_and_clamps() {
    assert_eq!(compute_bitrate(1920, 1080, 30), 10_368_000);
    assert_eq!(compute_bitrate(640, 480, 30), 1_536_000);
    assert_eq!(compute_bitrate(100, 100, 30), 1_000_000);
    assert_eq!(compute_bitrate(7680, 4320, 60), 50_000_000);
    assert_eq!(compute_bitrate(1920, 1080, 0), 1_000_000);
}

#[test]
fn gif_delay_rounds_and_has_floor() {
    assert_eq!(gif_frame_delay_cs(10), 10);
    assert_eq!(gif_frame_delay_cs(15), 7);
    assert_eq!(gif_frame_delay_cs(24), 4);
    assert_eq!(gif_frame_delay_cs(30), 3);
    assert_eq!(gif_frame_delay_cs(60), 2);
    assert_eq!(gif_frame_delay_cs(100), 2);
    assert_eq!(gif_frame_delay_cs(0), u16::MAX);
}

#[test]
fn encoder_dims_are_even() {
    assert_eq!(even_encoder_dims(1921, 1081), Some((1920, 1080)));
    assert_eq!(even_encoder_dims(64, 48), Some((64, 48)));
    assert_eq!(even_encoder_dims(1, 100), None);
}

#[test]
fn recording_names_and_formats() {
    assert_eq!(recording_format_from("gif"), RecordingFormat::Gif);
    assert_eq!(recording_format_from("mp4"), RecordingFormat::Mp4);
    assert_eq!(recording_format_from("GIF"), RecordingFormat::Mp4);
    assert_eq!(
        recording_file_name("2026-01-02_03-04-05", &RecordingFormat::Gif),
        "recording_2026-01-02_03-04-05.gif"
    );
    assert_eq!(recording_file_name("t", &RecordingFormat::Mp4), "recording_t.mp4");
}

#[test]
fn gif_recordings_stop_at_max_duration() {
    assert!(should_auto_stop(&RecordingFormat::Gif, 10, 10));
    assert!(!should_auto_stop(&RecordingFormat::Gif, 10, 9));
    assert!(!should_auto_stop(&RecordingFormat::Gif, 0, 1000));
    assert!(!should_auto_stop(&RecordingFormat::Mp4, 10, 100));
}

#[test]
fn frame_crop_clamps_to_frame() {
    let r = RecordingRegion { x: 90, y: 40, width: 20, height: 20 };
    assert_eq!(frame_crop(100, 50, &r), Some((90, 40, 10, 10)));
    let r = RecordingRegion { x: 200, y: 40, width: 20, height: 20 };
    assert_eq!(frame_crop(100, 50, &r), Some((99, 40, 1, 10)));
    let r = RecordingRegion { x: 0, y: 0, width: 0, height: 20 };
    assert_eq!(frame_crop(100, 50, &r), None);
}

fn mon(x: i32, y: i32, w: u32, h: u32) -> ListedMonitor {
    ListedMonitor { x: Some(x), y: Some(y), width: Some(w), height: Some(h) }
}

#[test]
fn region_recording_uses_single_monitor_when_it_fits() {
    let ms = vec![mon(0, 0, 1920, 1080), mon(1920, 0, 1280, 1024)];
    let (region, source) = plan_region_recording(2000, 100, 200, 100, (0, 0), &ms).unwrap();
    assert_eq!(region, RecordingRegion { x: 80, y: 100, width: 200, height: 100 });
    assert_eq!(source, CaptureSource::SingleMonitor(1));

    let (region, source) = plan_region_recording(1800, 100, 300, 100, (0, 0), &ms).unwrap();
    assert_eq!(region, RecordingRegion { x: 1800, y: 100, width: 300, height: 100 });
    assert_eq!(source, CaptureSource::FullDesktop);

    // Desktop origin left of the primary monitor.
    let ms = vec![mon(-1280, 0, 1280, 1024), mon(0, 0, 1920, 1080)];
    let (region, source) = plan_region_recording(10, 20, 100, 100, (-1280, 0), &ms).unwrap();
    assert_eq!(region, RecordingRegion { x: 10, y: 20, width: 100, height: 100 });
    assert_eq!(source, CaptureSource::SingleMonitor(0));

    assert_eq!(
        plan_region_recording(0, 0, 10, 10, (0, 0), &[]),
        Err(AppError::Recording("No monitors found".to_string()))
    );
}

#[test]
fn gif_frames_are_scaled_to_max_width() {
    assert_eq!(gif_output_dims(1920, 1080, 800), (800, 450));
    assert_eq!(gif_output_dims(1000, 333, 800), (800, 266));
    assert_eq!(gif_output_dims(1000, 335, 800), (800, 268));
    assert_eq!(gif_output_dims(640, 480, 800), (640, 480));
}

#[test]
fn gif_quantization_drops_alpha_and_indexes_each_pixel() {
    let rgba = [1u8, 2, 3, 4, 5, 6, 7, 8, 9];
    assert_eq!(rgba_to_rgb(&rgba), vec![1, 2, 3, 5, 6, 7]);
    let frame: Vec<u8> = (0..64u32).flat_map(|i| [i as u8 * 4, 255 - i as u8, 128, 255]).collect();
    let q = quantize_frame(&frame);
    assert_eq!(q.palette.len(), 768);
    assert_eq!(q.indices.len(), 64);
    // The palette and indices are those of the network trained on the RGB bytes.
    let rgb = rgba_to_rgb(&frame);
    let nq = color_quant::NeuQuant::new(10, 256, &rgb);
    assert_eq!(q.palette, nq.color_map_rgb());
    for (k, px) in frame.chunks_exact(4).enumerate() {
        assert_eq!(q.indices[k], nq.index_of(&[px[0], px[1], px[2], 255]) as u8);
    }
}

#[test]
fn box_size_fields_equal_box_lengths() {
    let be = |b: &[u8]| u32::from_be_bytes([b[0], b[1], b[2], b[3]]) as usize;
    let mvhd = build_mvhd(1000, 33);
    assert_eq!(mvhd.len(), 108);
    assert_eq!(be(&mvhd), 108);
    assert_eq!(&mvhd[4..8], b"mvhd");
    assert_eq!(&mvhd[20..24], &1000u32.to_be_bytes());
    assert_eq!(&mvhd[104..108], &2u32.to_be_bytes());
    let tkhd = build_tkhd(16, 16, 33);
    assert_eq!(tkhd.len(), 92);
    assert_eq!(be(&tkhd), 92);
    assert_eq!(&tkhd[84..88], &(16u32 << 16).to_be_bytes());
    let hdlr = build_hdlr_video();
    assert_eq!(hdlr.len(), 45);
    assert_eq!(be(&hdlr), 45);
    assert_eq!(&hdlr[32..45], b"VideoHandler\0");
}

#[test]
fn splitting_a_joined_stream_gives_back_its_units() {
    let units: Vec<Vec<u8>> = vec![vec![0x67, 0x42, 0x00, 0x1e], vec![0x68, 0xce], vec![0x65, 0x88, 0x84]];
    let mut data = Vec::new();
    data.extend_from_slice(&[0, 0, 0, 1]);
    data.extend_from_slice(&units[0]);
    data.extend_from_slice(&[0, 0, 1]);
    data.extend_from_slice(&units[1]);
    data.extend_from_slice(&[0, 0, 0, 1]);
    data.extend_from_slice(&units[2]);
    let got: Vec<Vec<u8>> = split_annex_b(&data).into_iter().map(|u| u.to_vec()).collect();
    assert_eq!(got, units);
}

#[test]
fn gif_encoder_state_fixes_size_on_first_frame() {
    let mut s = GifEncoderState::new();
    assert_eq!(s.max_width, 800);
    assert_eq!(s.frame_delay_cs, 10);
    s.init(&GifConfig { max_width: 400, frame_delay_cs: 7 });
    let p = s.plan_frame(800, 600);
    assert_eq!(p, GifFramePlan { width: 400, height: 300, delay_cs: 7, open_writer: true });
    assert_eq!((s.output_width, s.output_height), (400, 300));
    s.writer_opened();
    s.frame_written();
    let p2 = s.plan_frame(200, 100);
    assert_eq!(p2, GifFramePlan { width: 200, height: 100, delay_cs: 7, open_writer: false });
    assert_eq!((s.output_width, s.output_height), (400, 300));
    s.frame_written();
    assert_eq!(s.frame_count(), 2);
    s.finish();
    assert!(!s.writer_open);
}


#[test]
fn mp4_encoding_loop_sets_up_on_first_usable_frame() {
    let mut s = Mp4EncodeState::new();
    assert_eq!(s.next_frame(1, 720, 30), FrameStep::Skip);
    assert_eq!(s.frame_count, 0);
    assert_eq!(s.finish_check(0), Err(AppError::Recording("No frames captured for MP4".to_string())));
    assert_eq!(
        s.next_frame(1281, 720, 30),
        FrameStep::Encode { init_bitrate: Some(4_608_000), width: 1280, height: 720, crop: true }
    );
    assert_eq!(
        s.next_frame(1280, 720, 30),
        FrameStep::Encode { init_bitrate: None, width: 1280, height: 720, crop: false }
    );
    assert_eq!(s.frame_count, 2);
    assert_eq!(
        s.finish_check(0),
        Err(AppError::Recording(
            "Encoder produced empty file after 2 frames - encoding may have failed silently".to_string()
        ))
    );
    assert_eq!(s.finish_check(10), Ok(()));
    assert_eq!(gif_finish_check(0), Err(AppError::Recording("No frames captured for GIF".to_string())));
    assert_eq!(gif_finish_check(3), Ok(()));
}

#[test]
fn gif_frames_are_downscaled_with_the_triangle_filter() {
    let frame: Vec<u8> = (0..(8 * 4 * 4) as u32).map(|i| (i * 7 % 256) as u8).collect();
    let same = GifFramePlan { width: 8, height: 4, delay_cs: 10, open_writer: false };
    assert_eq!(gif_frame_pixels(&frame, 8, 4, &same), frame);
    let half = GifFramePlan { width: 4, height: 2, delay_cs: 10, open_writer: false };
    let out = gif_frame_pixels(&frame, 8, 4, &half);
    assert_eq!(out.len(), 4 * 2 * 4);
    let src = image::RgbaImage::from_raw(8, 4, frame.clone()).unwrap();
    let expected =
        image::imageops::resize(&src, 4, 2, image::imageops::FilterType::Triangle).into_raw();
    assert_eq!(out, expected);
}

#[test]
fn muxer_can_finish_needs_a_frame_rate() {
    let mut m = Mp4Muxer::new(64, 48, 0);
    m.add_frame(&stream_with_keyframe(), true);
    assert!(!m.can_finish());
    let mut m = Mp4Muxer::new(64, 48, 30);
    m.add_frame(&stream_with_keyframe(), true);
    assert!(m.can_finish());
    let file = m.finish().expect("file");
    // 642 fixed bytes, the SPS and PPS, one size entry, one sync entry, and
    // the payload.
    assert_eq!(file.len(), 642 + SPS.len() + PPS.len() + 4 + 4 + 7);
}

#[test]
fn gif_stream_matches_the_gif_encoder() {
    let rgba: Vec<u8> = (0..(6 * 4) as u32).flat_map(|i| [(i * 9) as u8, 40, (255 - i * 3) as u8, 255]).collect();
    let plan = GifFramePlan { width: 6, height: 4, delay_cs: 7, open_writer: true };
    let q = quantize_frame(&rgba);
    let mut ours = gif_stream_start(&plan).expect("start");
    ours.extend(gif_frame_block(&plan, &q).expect("frame"));
    ours.extend(gif_stream_end());

    let mut direct = Vec::new();
    {
        let mut e = gif::Encoder::new(&mut direct, 6, 4, &[]).unwrap();
        e.set_repeat(gif::Repeat::Infinite).unwrap();
        let mut frame = gif::Frame::default();
        frame.width = 6;
        frame.height = 4;
        frame.delay = 7;
        frame.palette = Some(q.palette.clone());
        frame.buffer = std::borrow::Cow::Borrowed(&q.indices);
        e.write_frame(&frame).unwrap();
    }
    assert_eq!(ours, direct);
    assert_eq!(&ours[..6], b"GIF89a");
    assert_eq!(*ours.last().unwrap(), 0x3B);
}
