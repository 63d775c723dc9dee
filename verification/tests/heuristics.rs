use c2pa_reader::analyze::{classify_open_error, mime_for_extension, OpenErrorKind};
use c2pa_reader::cert::build_signer;
use c2pa_reader::detect::{check_json_for_ai_indicators, scan_claim_generator};
use c2pa_reader::extract_cert_field;
use c2pa_reader::extract_model_name;
use c2pa_reader::jsonwalk::extract_generator_from_json;
use c2pa_reader::status::classify_validation_codes;
use c2pa_reader::VerificationStatus;

#[test]
fn cert_field_comma_separated() {
    let dn = "CN=Acme Corp, O=Acme Inc, C=US";
    assert_eq!(extract_cert_field(dn, "CN="), Some("Acme Corp".to_string()));
    assert_eq!(extract_cert_field(dn, "O="), Some("Acme Inc".to_string()));
    assert_eq!(extract_cert_field(dn, "C="), Some("US".to_string()));
    assert_eq!(extract_cert_field(dn, "OU="), None);
}

#[test]
fn cert_field_slash_separated() {
    let dn = "CN=Foo/O=Bar Ltd";
    assert_eq!(extract_cert_field(dn, "CN="), Some("Foo".to_string()));
    assert_eq!(extract_cert_field(dn, "O="), Some("Bar Ltd".to_string()));
}

#[test]
fn cert_field_quotes_are_stripped() {
    let dn = "O=\"Quoted Org\", CN='Single'";
    assert_eq!(extract_cert_field(dn, "O="), Some("Quoted Org".to_string()));
    assert_eq!(extract_cert_field(dn, "CN="), Some("Single".to_string()));
}

#[test]
fn cert_field_empty_value_falls_through() {
    let dn = "O=, O=Real Org";
    assert_eq!(extract_cert_field(dn, "O="), Some("Real Org".to_string()));
    assert_eq!(extract_cert_field("O=", "O="), None);
    assert_eq!(extract_cert_field("", "O="), None);
}

#[test]
fn signer_prefers_common_name_and_organization() {
    let signer = build_signer(
        Some("CN=Acme Corp, O=Acme Inc, C=US".to_string()),
        Some("2024-01-01T00:00:00Z".to_string()),
    );
    assert_eq!(signer.name, Some("Acme Corp".to_string()));
    assert_eq!(signer.organization, Some("Acme Inc".to_string()));
    assert_eq!(signer.issued_by, Some("CN=Acme Corp, O=Acme Inc, C=US".to_string()));
    assert_eq!(signer.timestamp, Some("2024-01-01T00:00:00Z".to_string()));
}

#[test]
fn signer_falls_back_to_raw_issuer_and_org_unit() {
    let signer = build_signer(Some("Plain Issuer Text".to_string()), None);
    assert_eq!(signer.name, Some("Plain Issuer Text".to_string()));
    assert_eq!(signer.organization, None);

    let signer = build_signer(Some("CN=X, OU=Unit".to_string()), None);
    assert_eq!(signer.organization, Some("Unit".to_string()));

    let signer = build_signer(None, Some("t".to_string()));
    assert_eq!(signer.name, None);
    assert_eq!(signer.issued_by, None);
    assert_eq!(signer.timestamp, Some("t".to_string()));
}

#[test]
fn model_name_exact_matches() {
    assert_eq!(extract_model_name("midjourney v6"), Some("Midjourney v6".to_string()));
    assert_eq!(extract_model_name("uses sdxl today"), Some("Stable Diffusion XL".to_string()));
    assert_eq!(extract_model_name("dall-e-3 dall-e-2"), Some("DALL-E 3".to_string()));
    assert_eq!(extract_model_name("nothing to see"), None);
    // matching is literal: callers fold case first
    assert_eq!(extract_model_name("Midjourney V6"), None);
}

#[test]
fn claim_generator_scan_is_case_insensitive_substring() {
    let r = scan_claim_generator("Generated using Midjourney v6").unwrap();
    assert!(r.is_ai_generated);
    assert_eq!(r.generator_name, Some("Generated using Midjourney v6".to_string()));
    assert_eq!(r.model_name, Some("Midjourney v6".to_string()));
    assert_eq!(r.detection_source, Some("c2pa".to_string()));

    assert!(scan_claim_generator("An ordinary camera app").is_none());
}

#[test]
fn json_scan_source_type_has_priority() {
    let json = "{\"digitalSourceType\": \"http://cv.iptc.org/newscodes/digitalsourcetype/trainedAlgorithmicMedia\"}";
    let r = check_json_for_ai_indicators(json, None).unwrap();
    assert!(r.is_ai_generated);
    assert_eq!(r.generator_name, Some("AI Generated (from digitalSourceType)".to_string()));
    assert_eq!(r.detection_source, Some("c2pa".to_string()));
}

#[test]
fn json_scan_source_type_uses_extracted_generator() {
    let json = "{\"x\": \"trainedAlgorithmicMedia\"}";
    let r = check_json_for_ai_indicators(json, Some("Tool X".to_string())).unwrap();
    assert_eq!(r.generator_name, Some("Tool X".to_string()));
}

#[test]
fn json_scan_ai_assertion_marker() {
    let json = "{\"label\": \"c2pa.ai_generative_training\"}";
    let r = check_json_for_ai_indicators(json, None).unwrap();
    assert_eq!(r.generator_name, Some("AI Generated".to_string()));
}

#[test]
fn json_scan_fingerprint_fallback() {
    let json = "{\"note\": \"made with gemini\"}";
    let r = check_json_for_ai_indicators(json, None).unwrap();
    assert_eq!(r.generator_name, Some("Detected: gemini".to_string()));
    assert_eq!(r.model_name, None);
}

#[test]
fn json_scan_trained_algorithmic_cooccurrence() {
    let json = "{\"a\": \"trained model\", \"b\": \"algorithmic media\"}";
    let r = check_json_for_ai_indicators(json, None).unwrap();
    assert_eq!(r.generator_name, Some("AI/ML Generated Content".to_string()));
}

#[test]
fn json_scan_synthetic_marker() {
    let json = "{\"x\": \"synthetic media\"}";
    let r = check_json_for_ai_indicators(json, None).unwrap();
    assert_eq!(r.generator_name, Some("Synthetic/AI Generated".to_string()));
}

#[test]
fn json_scan_clean_snapshot_detects_nothing() {
    assert!(check_json_for_ai_indicators("{\"camera\": \"X100\"}", None).is_none());
}

#[test]
fn json_generator_extraction_prefers_claim_generator() {
    let v: serde_json::Value =
        serde_json::from_str("{\"manifests\": {\"m1\": {\"claim_generator\": \"Tool A\"}}}")
            .unwrap();
    assert_eq!(extract_generator_from_json(&v), Some("Tool A".to_string()));
}

#[test]
fn json_generator_extraction_scans_software_agents() {
    let with_agent = "{\"manifests\": {\"m1\": {\"assertions\": \
        [{\"data\": {\"actions\": [{\"softwareAgent\": \"Firefly 2.0\"}]}}]}}}";
    let v: serde_json::Value = serde_json::from_str(with_agent).unwrap();
    assert_eq!(extract_generator_from_json(&v), Some("Firefly 2.0".to_string()));

    // an agent that matches no fingerprint is not reported
    let plain_agent = "{\"manifests\": {\"m1\": {\"assertions\": \
        [{\"data\": {\"actions\": [{\"softwareAgent\": \"Plain Editor\"}]}}]}}}";
    let v: serde_json::Value = serde_json::from_str(plain_agent).unwrap();
    assert_eq!(extract_generator_from_json(&v), None);

    let empty: serde_json::Value = serde_json::from_str("{}").unwrap();
    assert_eq!(extract_generator_from_json(&empty), None);
}

#[test]
fn validation_codes_classification() {
    assert!(matches!(classify_validation_codes(&None), VerificationStatus::Verified));
    let sig = Some(vec!["timestamp.signature.mismatch".to_string()]);
    assert!(matches!(classify_validation_codes(&sig), VerificationStatus::SignatureInvalid));
    // matching is case-sensitive on the raw code text
    let cased = Some(vec!["claimSignature.mismatch".to_string()]);
    assert!(matches!(classify_validation_codes(&cased), VerificationStatus::Verified));
    let expired = Some(vec!["signingCredential.expired".to_string()]);
    assert!(matches!(classify_validation_codes(&expired), VerificationStatus::CertificateExpired));
    let untrusted = Some(vec!["signingCredential.untrusted".to_string()]);
    assert!(matches!(
        classify_validation_codes(&untrusted),
        VerificationStatus::CertificateUntrusted
    ));
    let unknown = Some(vec!["assertion.hashedURI.mismatch".to_string()]);
    assert!(matches!(classify_validation_codes(&unknown), VerificationStatus::Verified));
    let empty: Option<Vec<String>> = Some(vec![]);
    assert!(matches!(classify_validation_codes(&empty), VerificationStatus::Verified));
}

#[test]
fn signature_code_dominates_expired() {
    let both = Some(vec![
        "signingCredential.expired".to_string(),
        "timestamp.signature.mismatch".to_string(),
    ]);
    assert!(matches!(classify_validation_codes(&both), VerificationStatus::SignatureInvalid));
}

#[test]
fn open_error_classification() {
    assert_eq!(classify_open_error("no JUMBF data found"), OpenErrorKind::NoManifest);
    assert_eq!(classify_open_error("manifest not found"), OpenErrorKind::NoManifest);
    assert_eq!(classify_open_error("CBOR decoding failure"), OpenErrorKind::CorruptManifest);
    assert_eq!(classify_open_error("the claim could not be parsed"), OpenErrorKind::CorruptManifest);
    assert_eq!(classify_open_error("deserialization broke"), OpenErrorKind::CorruptManifest);
    assert_eq!(classify_open_error("invalid asset"), OpenErrorKind::CorruptManifest);
    assert_eq!(classify_open_error("type is unsupported"), OpenErrorKind::Other);
    // the no-manifest bucket is checked before the corrupt bucket
    assert_eq!(classify_open_error("cbor not found"), OpenErrorKind::NoManifest);
}

#[test]
fn mime_from_extension() {
    assert_eq!(mime_for_extension("jpg"), "image/jpeg");
    assert_eq!(mime_for_extension("JPG"), "image/jpeg");
    assert_eq!(mime_for_extension("jpeg"), "image/jpeg");
    assert_eq!(mime_for_extension("png"), "image/png");
    assert_eq!(mime_for_extension("webp"), "image/webp");
    assert_eq!(mime_for_extension("gif"), "image/gif");
    assert_eq!(mime_for_extension("avif"), "image/avif");
    assert_eq!(mime_for_extension("heic"), "image/heif");
    assert_eq!(mime_for_extension("heif"), "image/heif");
    assert_eq!(mime_for_extension("tif"), "image/tiff");
    assert_eq!(mime_for_extension("TIFF"), "image/tiff");
    assert_eq!(mime_for_extension("mp4"), "video/mp4");
    assert_eq!(mime_for_extension("mov"), "video/quicktime");
    assert_eq!(mime_for_extension("bin"), "application/octet-stream");
}
