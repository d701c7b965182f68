use base64::Engine;
use quickshotter::annotation::{
    annotated_file_name, capture_outputs, decode_annotated_image, effective_save_to_disk, image_from_decoded,
    payload_bytes, payload_bytes_from, RgbaFrame, MAX_BASE64_LEN,
};
use quickshotter::cli::{cli_action, image_extension, CliAction};
use quickshotter::context_menu::{set_context_menu, RegistryOp};
use quickshotter::encode::{encode_annotated, encode_capture};
use quickshotter::error::AppError;
use quickshotter::geometry::safe_crop;
use quickshotter::ocr::{decode_ocr_image, ocr_selection, ocr_text_preview, ocr_upscale_dims, rgba_to_bgra};
use quickshotter::selection::{
    check_region_size, check_selection_size, check_window_bounds, image_selection, screen_selection, should_annotate,
    window_extent,
};

fn png_bytes(w: u32, h: u32, px: Vec<u8>) -> Vec<u8> {
    let img = image::RgbaImage::from_raw(w, h, px).unwrap();
    let mut out = std::io::Cursor::new(Vec::new());
    img.write_to(&mut out, image::ImageFormat::Png).unwrap();
    out.into_inner()
}

#[test]
fn base64_payload_decodes() {
    assert_eq!(payload_bytes("aGVsbG8="), Ok(b"hello".to_vec()));
    match payload_bytes("!!!!") {
        Err(AppError::Annotation(m)) => assert!(m.starts_with("Failed to decode base64: "), "{m}"),
        other => panic!("unexpected {other:?}"),
    }
    assert_eq!(payload_bytes_from(Ok(vec![1, 2])), Ok(vec![1, 2]));
    assert_eq!(
        payload_bytes_from(Err("Invalid padding".to_string())),
        Err(AppError::Annotation("Failed to decode base64: Invalid padding".to_string()))
    );
}

#[test]
fn oversized_payload_is_refused_before_decoding() {
    let big = "A".repeat(MAX_BASE64_LEN + 1);
    assert_eq!(payload_bytes(&big), Err(AppError::Annotation("Image data too large".to_string())));
}

#[test]
fn annotated_png_round_trips() {
    let px = vec![255, 0, 0, 255, 0, 255, 0, 128];
    let b64 = base64::engine::general_purpose::STANDARD.encode(png_bytes(2, 1, px.clone()));
    let frame = decode_annotated_image(&b64).expect("image");
    assert_eq!(frame, RgbaFrame { width: 2, height: 1, pixels: px });

    let not_png = base64::engine::general_purpose::STANDARD.encode(b"plain text");
    match decode_annotated_image(&not_png) {
        Err(AppError::Annotation(m)) => assert!(m.starts_with("Failed to decode PNG: "), "{m}"),
        other => panic!("unexpected {other:?}"),
    }
    assert_eq!(
        image_from_decoded(Err("bad".to_string())),
        Err(AppError::Annotation("Failed to decode PNG: bad".to_string()))
    );
}

#[test]
fn annotated_copy_name() {
    assert_eq!(annotated_file_name(Some("photo"), Some("jpg")), "photo-annotated.jpg");
    assert_eq!(annotated_file_name(None, None), "annotated-annotated.png");
}

#[test]
fn alt_toggles_save_for_one_capture() {
    assert!(effective_save_to_disk(true, false));
    assert!(!effective_save_to_disk(true, true));
    assert!(effective_save_to_disk(false, true));
    assert!(!effective_save_to_disk(false, false));
    assert!(should_annotate(true, false));
    assert!(should_annotate(false, true));
    assert!(!should_annotate(false, false));
}

#[test]
fn ocr_preparation() {
    assert_eq!(ocr_upscale_dims(100, 300), Some((200, 600)));
    assert_eq!(ocr_upscale_dims(300, 255), Some((600, 510)));
    assert_eq!(ocr_upscale_dims(300, 300), None);
    assert_eq!(rgba_to_bgra(&[1, 2, 3, 4, 5, 6, 7, 8, 9]), vec![3, 2, 1, 4, 7, 6, 5, 8, 9]);
}

#[test]
fn context_menu_registry_changes() {
    let ops = set_context_menu("C:\\qs.exe", true);
    assert_eq!(ops.len(), 15);
    let base = "Software\\Classes\\SystemFileAssociations\\.png\\shell\\QuickShotter".to_string();
    assert_eq!(
        ops[0],
        RegistryOp::SetValue { subkey: base.clone(), name: String::new(), value: "Annotate with QuickShotter".to_string() }
    );
    assert_eq!(
        ops[1],
        RegistryOp::SetValue { subkey: base.clone(), name: "Icon".to_string(), value: "C:\\qs.exe".to_string() }
    );
    assert_eq!(
        ops[2],
        RegistryOp::SetValue {
            subkey: format!("{base}\\command"),
            name: String::new(),
            value: "\"C:\\qs.exe\" \"--annotate\" \"%1\"".to_string(),
        }
    );
    let ops = set_context_menu("C:\\qs.exe", false);
    assert_eq!(ops.len(), 5);
    assert_eq!(
        ops[4],
        RegistryOp::DeleteTree { subkey: "Software\\Classes\\SystemFileAssociations\\.bmp\\shell\\QuickShotter".to_string() }
    );
}

#[test]
fn selections_are_checked() {
    assert_eq!(image_selection(50, 60, 10, 20), Ok((10, 20, 40, 40)));
    assert_eq!(image_selection(10, 10, 12, 50), Err(AppError::Capture("Selection too small".to_string())));
    assert_eq!(screen_selection(5, -5, -5, 5), (-5, -5, 10, 10));
    assert_eq!(check_selection_size(3, 3), Ok(()));
    assert_eq!(check_selection_size(2, 30), Err(AppError::Capture("Selection too small".to_string())));
    assert_eq!(check_window_bounds(0, 0, 0, 10), Err(AppError::Capture("Invalid window bounds".to_string())));
    assert_eq!(check_window_bounds(0, 0, 2, 10), Err(AppError::Capture("Window too small".to_string())));
    assert_eq!(check_window_bounds(-5, 0, 5, 10), Ok((10, 10)));
    assert_eq!(window_extent(10, 10, 5, 20), (0, 10));
}

#[test]
fn command_line_opens_editor() {
    let args = vec!["app".to_string(), "--annotate".to_string(), "x.png".to_string()];
    let exts = vec![None, None, Some("png".to_string())];
    assert_eq!(cli_action(&args, &exts, &[true, false, true]), CliAction::AnnotateFile(2));
    assert_eq!(cli_action(&args, &exts, &[true, false, false]), CliAction::FileNotFound(2));

    let args = vec!["app".to_string(), "notes.txt".to_string(), "pic.JPG".to_string()];
    let exts = vec![None, Some("txt".to_string()), Some("JPG".to_string())];
    assert_eq!(cli_action(&args, &exts, &[true, true, true]), CliAction::AnnotateFile(2));
    assert_eq!(cli_action(&args, &exts, &[true, true, false]), CliAction::Nothing);
    let args = vec!["app".to_string(), "--annotate".to_string()];
    assert_eq!(cli_action(&args, &[None, None], &[true, true]), CliAction::Nothing);
    assert!(image_extension("WebP"));
    assert!(!image_extension("gif"));
}

#[test]
fn ocr_checks_and_preview() {
    assert_eq!(ocr_selection(10, 10, 40, 30), Ok((10, 10, 30, 20)));
    assert_eq!(ocr_selection(10, 10, 12, 30), Err(AppError::Ocr("Selection too small".to_string())));
    assert_eq!(ocr_text_preview("short"), "short");
    let long = "x".repeat(100);
    assert_eq!(ocr_text_preview(&long), format!("{}...", "x".repeat(80)));
    // 80 characters but more than 80 bytes: the ellipsis follows the full text.
    let wide = "\u{e9}".repeat(80);
    assert_eq!(ocr_text_preview(&wide), format!("{wide}..."));
    let b64 = base64::engine::general_purpose::STANDARD.encode(png_bytes(1, 1, vec![1, 2, 3, 4]));
    assert_eq!(decode_ocr_image(&b64), Ok(RgbaFrame { width: 1, height: 1, pixels: vec![1, 2, 3, 4] }));
    match decode_ocr_image("%%%") {
        Err(AppError::Ocr(m)) => assert!(m.starts_with("Failed to decode base64: "), "{m}"),
        other => panic!("unexpected {other:?}"),
    }
    let junk = base64::engine::general_purpose::STANDARD.encode(b"not an image");
    match decode_ocr_image(&junk) {
        Err(AppError::Ocr(m)) => assert!(m.starts_with("Failed to decode image: "), "{m}"),
        other => panic!("unexpected {other:?}"),
    }
}

#[test]
fn capture_outputs_follow_clipboard_action_and_alt() {
    let mut c = quickshotter::config::AppConfig::with_save_folder("/tmp".to_string());
    let o = capture_outputs(&c, false);
    assert_eq!((o.copy_image, o.save_to_disk, o.upload), (true, true, false));
    let o = capture_outputs(&c, true);
    assert_eq!((o.copy_image, o.save_to_disk, o.upload), (true, false, false));
    assert!(c.save_to_disk);
    c.clipboard_action = "url".to_string();
    c.save_to_disk = false;
    let o = capture_outputs(&c, true);
    assert_eq!((o.copy_image, o.save_to_disk, o.upload), (false, true, true));
    c.clipboard_action = "none".to_string();
    let o = capture_outputs(&c, false);
    assert_eq!((o.copy_image, o.save_to_disk, o.upload), (false, false, false));
}

#[test]
fn empty_regions_are_not_captured() {
    assert_eq!(check_region_size(0, 5), Err(AppError::Capture("Region too small".to_string())));
    assert_eq!(check_region_size(5, 0), Err(AppError::Capture("Region too small".to_string())));
    assert_eq!(check_region_size(1, 1), Ok(()));
}

#[test]
fn safe_crop_copies_the_clamped_rectangle() {
    // A 3 x 2 image whose pixel (i, j) is [i, j, 7, 255].
    let mut pixels = Vec::new();
    for j in 0..2u8 {
        for i in 0..3u8 {
            pixels.extend_from_slice(&[i, j, 7, 255]);
        }
    }
    let img = RgbaFrame { width: 3, height: 2, pixels };
    let c = safe_crop(&img, 1, 1, 5, 5).expect("crop");
    assert_eq!((c.width, c.height), (2, 1));
    assert_eq!(c.pixels, vec![1, 1, 7, 255, 2, 1, 7, 255]);
    let c = safe_crop(&img, 0, 0, 2, 2).expect("crop");
    assert_eq!(c.pixels, vec![0, 0, 7, 255, 1, 0, 7, 255, 0, 1, 7, 255, 1, 1, 7, 255]);
    assert_eq!(
        safe_crop(&img, 1, 1, 0, 1),
        Err(AppError::Capture("Crop region outside image bounds".to_string()))
    );
}

fn gradient(w: u32, h: u32) -> Vec<u8> {
    (0..w * h).flat_map(|i| [(i * 3) as u8, (i * 5) as u8, 200, 255]).collect()
}

#[test]
fn captures_are_encoded_in_the_configured_format() {
    let px = gradient(4, 3);
    let png = encode_capture(&px, 4, 3, "png").expect("png");
    let mut direct = Vec::new();
    image::ImageEncoder::write_image(
        image::codecs::png::PngEncoder::new_with_quality(
            &mut direct,
            image::codecs::png::CompressionType::Fast,
            image::codecs::png::FilterType::Sub,
        ),
        &px,
        4,
        3,
        image::ExtendedColorType::Rgba8,
    )
    .unwrap();
    assert_eq!(png, direct);
    assert_eq!(&png[..4], &[0x89, b'P', b'N', b'G']);

    let jpg = encode_capture(&px, 4, 3, "jpeg").expect("jpeg");
    let rgb: Vec<u8> = px.chunks(4).flat_map(|p| [p[0], p[1], p[2]]).collect();
    let mut direct = Vec::new();
    image::codecs::jpeg::JpegEncoder::new_with_quality(&mut direct, 85)
        .encode(&rgb, 4, 3, image::ExtendedColorType::Rgb8)
        .unwrap();
    assert_eq!(jpg, direct);
    assert_eq!(encode_capture(&px, 4, 3, "jpg").expect("jpg"), jpg);

    let webp = encode_capture(&px, 4, 3, "webp").expect("webp");
    assert_eq!(&webp[..4], b"RIFF");
    assert_eq!(&webp[8..12], b"WEBP");

    // Unknown formats are written as PNG.
    assert_eq!(encode_capture(&px, 4, 3, "tiff").expect("png"), png);
    // A JPEG needs at least one pixel in each direction.
    assert!(matches!(encode_capture(&[], 0, 3, "jpg"), Err(AppError::Capture(_))));
}

#[test]
fn annotated_images_are_encoded_by_extension() {
    let frame = RgbaFrame { width: 2, height: 2, pixels: gradient(2, 2) };
    let png = encode_annotated(&frame, "shot-annotated.png").expect("png");
    let img = image::RgbaImage::from_raw(2, 2, frame.pixels.clone()).unwrap();
    let mut direct = std::io::Cursor::new(Vec::new());
    image::DynamicImage::ImageRgba8(img).write_to(&mut direct, image::ImageFormat::Png).unwrap();
    assert_eq!(png, direct.into_inner());
    let jpg = encode_annotated(&frame, "shot-annotated.jpg").expect("jpg");
    assert_eq!(&jpg[..2], &[0xFF, 0xD8]);
    match encode_annotated(&frame, "shot-annotated.nope") {
        Err(AppError::Annotation(m)) => assert!(m.starts_with("Failed to save annotated image: "), "{m}"),
        other => panic!("{other:?}"),
    }
}
