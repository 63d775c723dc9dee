use c2pa_reader::analyze::merge_exif_into;
use c2pa_reader::analyze::{analyze_c2pa_from_bytes, c2pa_sdk_version, is_c2pa_available};
use c2pa_reader::tags::{build_exif_info, parse_exif_from_bytes};
use c2pa_reader::{AiInfo, C2paAnalysisResult, ExifInfo, VerificationStatus};

fn exif_with_ai(generator: &str) -> ExifInfo {
    ExifInfo {
        software: None,
        make: None,
        model: None,
        artist: None,
        copyright: None,
        user_comment: None,
        image_description: None,
        date_time_original: None,
        ai_detected: true,
        ai_generator: Some(generator.to_string()),
    }
}

fn manifest_result_with_ai(generator: Option<&str>) -> C2paAnalysisResult {
    C2paAnalysisResult {
        status: VerificationStatus::Verified,
        signer: None,
        actions: vec![],
        ai_info: Some(AiInfo {
            is_ai_generated: true,
            generator_name: generator.map(|g| g.to_string()),
            model_name: None,
            detection_source: Some("c2pa".to_string()),
        }),
        exif_info: None,
        claim_generator: Some("tool".to_string()),
        title: None,
        format: Some("image/jpeg".to_string()),
        instance_id: Some("id".to_string()),
        raw_manifest_json: None,
    }
}

#[test]
fn merge_upgrades_source_to_both_and_keeps_generator() {
    let mut result = manifest_result_with_ai(Some("Manifest Tool"));
    merge_exif_into(&mut result, exif_with_ai("metadata tool"));
    let ai = result.ai_info.unwrap();
    assert_eq!(ai.detection_source, Some("both".to_string()));
    assert_eq!(ai.generator_name, Some("Manifest Tool".to_string()));
    assert!(ai.is_ai_generated);
    assert!(result.exif_info.is_some());
}

#[test]
fn merge_backfills_missing_generator_name() {
    let mut result = manifest_result_with_ai(None);
    merge_exif_into(&mut result, exif_with_ai("metadata tool"));
    let ai = result.ai_info.unwrap();
    assert_eq!(ai.detection_source, Some("both".to_string()));
    assert_eq!(ai.generator_name, Some("metadata tool".to_string()));
}

#[test]
fn merge_synthesizes_tag_record_when_manifest_found_none() {
    let mut result = C2paAnalysisResult::no_manifest();
    merge_exif_into(&mut result, exif_with_ai("metadata tool"));
    let ai = result.ai_info.unwrap();
    assert_eq!(ai.detection_source, Some("exif".to_string()));
    assert_eq!(ai.generator_name, Some("metadata tool".to_string()));
    assert_eq!(ai.model_name, None);
}

#[test]
fn merge_without_tag_detection_only_attaches_record() {
    let mut result = manifest_result_with_ai(Some("Manifest Tool"));
    let mut exif = exif_with_ai("ignored");
    exif.ai_detected = false;
    exif.ai_generator = None;
    merge_exif_into(&mut result, exif);
    let ai = result.ai_info.unwrap();
    assert_eq!(ai.detection_source, Some("c2pa".to_string()));
    assert!(result.exif_info.is_some());
}

#[test]
fn no_manifest_constructors() {
    let bare = C2paAnalysisResult::no_manifest();
    assert!(matches!(bare.status, VerificationStatus::NoManifest));
    assert!(bare.ai_info.is_none());
    assert!(bare.exif_info.is_none());
    assert!(bare.actions.is_empty());

    let with_tags = C2paAnalysisResult::no_manifest_with_exif(exif_with_ai("tool"));
    assert!(matches!(with_tags.status, VerificationStatus::NoManifest));
    let ai = with_tags.ai_info.unwrap();
    assert_eq!(ai.detection_source, Some("exif".to_string()));
    assert_eq!(ai.generator_name, Some("tool".to_string()));

    let mut quiet = exif_with_ai("tool");
    quiet.ai_detected = false;
    let with_quiet_tags = C2paAnalysisResult::no_manifest_with_exif(quiet);
    assert!(with_quiet_tags.ai_info.is_none());
    assert!(with_quiet_tags.exif_info.is_some());
}

#[test]
fn error_and_corrupt_constructors() {
    let err = C2paAnalysisResult::error("boom".to_string());
    match err.status {
        VerificationStatus::Error { message } => assert_eq!(message, "boom"),
        _ => panic!("expected an error status"),
    }
    assert!(err.exif_info.is_none());

    let corrupt = C2paAnalysisResult::corrupt_manifest(Some(exif_with_ai("tool")));
    match &corrupt.status {
        VerificationStatus::Error { message } => assert_eq!(
            message,
            "This image contains C2PA data that could not be parsed. It may be corrupted or use an unsupported format."
        ),
        _ => panic!("expected an error status"),
    }
    assert!(corrupt.exif_info.is_some());
    let ai = corrupt.ai_info.unwrap();
    assert_eq!(ai.detection_source, Some("exif".to_string()));
}

#[test]
fn exif_heuristics_table_order_wins() {
    // "midjourney" stands before "copilot" in the fingerprint table, so it
    // wins even though the copilot text comes first in the joined fields
    let info = build_exif_info(
        None,
        Some("Copilot".to_string()),
        Some("Midjourney".to_string()),
        None,
        None,
        None,
        None,
        None,
    );
    assert!(info.ai_detected);
    assert_eq!(info.ai_generator, Some("midjourney".to_string()));
}

#[test]
fn exif_heuristics_software_overwrites_with_verbatim_string() {
    let info = build_exif_info(
        Some("MyPaint powered by ComfyUI".to_string()),
        None,
        None,
        None,
        None,
        None,
        None,
        None,
    );
    assert!(info.ai_detected);
    assert_eq!(info.ai_generator, Some("MyPaint powered by ComfyUI".to_string()));
}

#[test]
fn exif_heuristics_comment_sets_generic_label_only_as_fallback() {
    let info = build_exif_info(
        None,
        None,
        None,
        None,
        None,
        Some("Steps: 20, Sampler: Euler, CFG scale: 7, Seed: 123".to_string()),
        None,
        None,
    );
    assert!(info.ai_detected);
    assert_eq!(info.ai_generator, Some("AI Generator (from metadata)".to_string()));

    let info = build_exif_info(
        Some("NovelAI".to_string()),
        None,
        None,
        None,
        None,
        Some("prompt: a cat".to_string()),
        None,
        None,
    );
    assert!(info.ai_detected);
    assert_eq!(info.ai_generator, Some("NovelAI".to_string()));
}

#[test]
fn exif_heuristics_plain_camera_detects_nothing() {
    let info = build_exif_info(
        Some("Firmware 1.0".to_string()),
        Some("Nikon".to_string()),
        Some("D850".to_string()),
        Some("Jane Doe".to_string()),
        Some("(c) 2024".to_string()),
        None,
        Some("Holiday snapshot".to_string()),
        Some("2024:01:01 00:00:00".to_string()),
    );
    assert!(!info.ai_detected);
    assert_eq!(info.ai_generator, None);
    assert_eq!(info.make, Some("Nikon".to_string()));
    assert_eq!(info.copyright, Some("(c) 2024".to_string()));
}

fn raw_exif_bytes(software: &str) -> Vec<u8> {
    let field = exif::Field {
        tag: exif::Tag::Software,
        ifd_num: exif::In::PRIMARY,
        value: exif::Value::Ascii(vec![software.as_bytes().to_vec()]),
    };
    let mut writer = exif::experimental::Writer::new();
    let mut buf = std::io::Cursor::new(Vec::new());
    writer.push_field(&field);
    writer.write(&mut buf, false).unwrap();
    buf.into_inner()
}

#[test]
fn raw_exif_tags_are_read_and_scanned() {
    let bytes = raw_exif_bytes("Midjourney v6");
    let info = parse_exif_from_bytes(&bytes).unwrap();
    // the tag reader displays ASCII values quoted; the verbatim displayed
    // string is what the heuristics see and report
    assert_eq!(info.software, Some("\"Midjourney v6\"".to_string()));
    assert!(info.ai_detected);
    assert_eq!(info.ai_generator, Some("\"Midjourney v6\"".to_string()));

    assert!(parse_exif_from_bytes(&b"hello".to_vec()).is_none());
}

fn jpeg_with_exif(software: &str) -> Vec<u8> {
    let tiff = raw_exif_bytes(software);
    let mut v = vec![0xFF, 0xD8];
    let payload_len = (tiff.len() + 8) as u16;
    v.extend_from_slice(&[0xFF, 0xE1]);
    v.extend_from_slice(&payload_len.to_be_bytes());
    v.extend_from_slice(b"Exif\0\0");
    v.extend_from_slice(&tiff);
    v.extend_from_slice(&[0xFF, 0xD9]);
    v
}

#[test]
fn container_tags_are_located_and_scanned() {
    let bytes = jpeg_with_exif("ComfyUI");
    let info = c2pa_reader::tags::parse_exif_from_container(&bytes).unwrap();
    assert_eq!(info.software, Some("\"ComfyUI\"".to_string()));
    assert!(info.ai_detected);
    assert_eq!(info.ai_generator, Some("\"ComfyUI\"".to_string()));

    assert!(c2pa_reader::tags::parse_exif_from_container(&b"not a container".to_vec()).is_none());
}

fn minimal_png() -> Vec<u8> {
    let mut v = vec![137, 80, 78, 71, 13, 10, 26, 10];
    v.extend_from_slice(&[0, 0, 0, 13]);
    v.extend_from_slice(b"IHDR");
    v.extend_from_slice(&[0, 0, 0, 1, 0, 0, 0, 1, 8, 0, 0, 0, 0]);
    v.extend_from_slice(&[0, 0, 0, 0]);
    v.extend_from_slice(&[0, 0, 0, 0]);
    v.extend_from_slice(b"IEND");
    v.extend_from_slice(&[0, 0, 0, 0]);
    v
}

#[test]
fn bare_bytes_give_a_bare_no_manifest_result() {
    // a well-formed container with no embedded manifest and no
    // recognizable tags
    let r = analyze_c2pa_from_bytes(minimal_png(), "image/png".to_string());
    assert!(matches!(r.status, VerificationStatus::NoManifest));
    assert!(r.ai_info.is_none());
    assert!(r.exif_info.is_none());
}

#[test]
fn unparseable_bytes_give_a_generic_error() {
    let r = analyze_c2pa_from_bytes(vec![0xFF, 0xD8, 0xFF, 0xD9], "image/jpeg".to_string());
    match r.status {
        VerificationStatus::Error { message } => {
            assert_eq!(message, "type is unsupported");
        },
        _ => panic!("expected an error status"),
    }
    assert!(r.ai_info.is_none());
    assert!(r.exif_info.is_none());
}

#[test]
fn repeated_analysis_is_identical() {
    let bytes = raw_exif_bytes("Stable Diffusion");
    let a = analyze_c2pa_from_bytes(bytes.clone(), "image/tiff".to_string());
    let b = analyze_c2pa_from_bytes(bytes, "image/tiff".to_string());
    assert_eq!(a, b);
}

#[test]
fn version_and_availability() {
    assert_eq!(c2pa_sdk_version(), "c2pa-rs 0.32");
    assert!(is_c2pa_available());
}
