//! The two entry points and the evidence fusion around them: opening the
//! manifest through the outside reader, classifying an open failure into
//! its three buckets, merging manifest-sourced and tag-sourced AI
//! signals, and the extension-to-MIME mapping used by path-based callers.

use vstd::prelude::*;

use crate::manifest::{open_manifest_reader, parse_manifest_reader};
use crate::tables::{corrupt_token_table, corrupt_token_table_x, no_manifest_token_table,
    no_manifest_token_table_x};
use crate::tags::{parse_exif_from_bytes, parse_exif_from_container, tag_record_consistent};
use crate::text::{eq_chars, chars_to_vec, first_sub_match, lower, lower_chars, any_match_in, str_eq};
use crate::types::{
    AiInfo, AiInfoV, C2paAnalysisResult, C2paAnalysisResultV, ExifInfo, ExifInfoV, ai_record_ok,
};

verus! {

/// The three buckets an open failure falls into.
#[derive(Debug, Clone, Copy, PartialEq, Eq, Structural)]
pub enum OpenErrorKind {
    /// The stream holds no embedded manifest at all.
    NoManifest,
    /// A manifest is present but cannot be decoded.
    CorruptManifest,
    /// Any other failure.
    Other,
}

/// Classification of a reader error message, by substring match on its
/// case-folded text: container-not-found tokens first, then decode-layer
/// tokens, else other.
pub open spec fn spec_classify_open_error(msg: Seq<char>) -> OpenErrorKind {
    let low = lower(msg);
    if first_sub_match(low, no_manifest_token_table()) is Some {
        OpenErrorKind::NoManifest
    } else if first_sub_match(low, corrupt_token_table()) is Some {
        OpenErrorKind::CorruptManifest
    } else {
        OpenErrorKind::Other
    }
}

/// Classify a reader error message into its failure bucket.
pub fn classify_open_error(msg: &str) -> (k: OpenErrorKind)
    ensures
        k == spec_classify_open_error(msg@),
{
    let low = lower_chars(msg);
    let no_manifest_tokens = no_manifest_token_table_x();
    if any_match_in(&low, &no_manifest_tokens) {
        return OpenErrorKind::NoManifest;
    }
    let corrupt_tokens = corrupt_token_table_x();
    if any_match_in(&low, &corrupt_tokens) {
        return OpenErrorKind::CorruptManifest;
    }
    OpenErrorKind::Other
}

/// The merged result: when the tags flagged AI, a manifest-sourced record
/// is upgraded to `both` (its generator backfilled only when missing) and
/// a missing record is synthesized from the tag evidence; the tag record
/// itself is attached either way.
pub open spec fn spec_merge(r: C2paAnalysisResultV, e: ExifInfoV) -> C2paAnalysisResultV {
    let with_ai = if e.ai_detected {
        match r.ai_info {
            Some(ai) => C2paAnalysisResultV {
                ai_info: Some(
                    AiInfoV {
                        is_ai_generated: ai.is_ai_generated,
                        generator_name: if ai.generator_name is None {
                            e.ai_generator
                        } else {
                            ai.generator_name
                        },
                        model_name: ai.model_name,
                        detection_source: if ai.detection_source == Some("c2pa"@) {
                            Some("both"@)
                        } else {
                            ai.detection_source
                        },
                    },
                ),
                ..r
            },
            None => C2paAnalysisResultV {
                ai_info: Some(
                    AiInfoV {
                        is_ai_generated: true,
                        generator_name: e.ai_generator,
                        model_name: None,
                        detection_source: Some("exif"@),
                    },
                ),
                ..r
            },
        }
    } else {
        r
    };
    C2paAnalysisResultV { exif_info: Some(e), ..with_ai }
}

/// Merging never invalidates the AI-record invariant.
pub proof fn lemma_merge_keeps_record_ok(r: C2paAnalysisResultV, e: ExifInfoV)
    requires
        ai_record_ok(r.ai_info),
    ensures
        ai_record_ok(spec_merge(r, e).ai_info),
{
}

fn clone_opt_string(o: &Option<String>) -> (r: Option<String>)
    ensures
        r.deep_view() == o.deep_view(),
{
    match o {
        Some(s) => Some(s.clone()),
        None => None,
    }
}

/// Merge tag evidence into a manifest-derived result.
pub fn merge_exif_into(result: &mut C2paAnalysisResult, exif: ExifInfo)
    ensures
        final(result)@ == spec_merge(old(result)@, exif@),
{
    if exif.ai_detected {
        let new_ai: AiInfo = match &result.ai_info {
            Some(ai) => {
                let is_c2pa = match &ai.detection_source {
                    Some(s) => str_eq(s.as_str(), "c2pa"),
                    None => false,
                };
                let detection_source = if is_c2pa {
                    Some("both".to_owned())
                } else {
                    clone_opt_string(&ai.detection_source)
                };
                let generator_name = if ai.generator_name.is_none() {
                    clone_opt_string(&exif.ai_generator)
                } else {
                    clone_opt_string(&ai.generator_name)
                };
                AiInfo {
                    is_ai_generated: ai.is_ai_generated,
                    generator_name,
                    model_name: clone_opt_string(&ai.model_name),
                    detection_source,
                }
            },
            None => AiInfo {
                is_ai_generated: true,
                generator_name: clone_opt_string(&exif.ai_generator),
                model_name: None,
                detection_source: Some("exif".to_owned()),
            },
        };
        result.ai_info = Some(new_ai);
    }
    result.exif_info = Some(exif);
}

/// The MIME type for a case-folded file extension.
pub open spec fn spec_mime_for_extension(low: Seq<char>) -> Seq<char> {
    if low == "jpg"@ || low == "jpeg"@ {
        "image/jpeg"@
    } else if low == "png"@ {
        "image/png"@
    } else if low == "webp"@ {
        "image/webp"@
    } else if low == "gif"@ {
        "image/gif"@
    } else if low == "avif"@ {
        "image/avif"@
    } else if low == "heic"@ || low == "heif"@ {
        "image/heif"@
    } else if low == "tif"@ || low == "tiff"@ {
        "image/tiff"@
    } else if low == "mp4"@ {
        "video/mp4"@
    } else if low == "mov"@ {
        "video/quicktime"@
    } else {
        "application/octet-stream"@
    }
}

fn ext_is(low: &Vec<char>, lit: &str) -> (r: bool)
    ensures
        r == (low@ == lit@),
{
    let lv = chars_to_vec(lit);
    eq_chars(low, &lv)
}

/// The MIME type for a file extension, case-insensitively.
pub fn mime_for_extension(ext: &str) -> (r: &'static str)
    ensures
        r@ == spec_mime_for_extension(lower(ext@)),
{
    let low = lower_chars(ext);
    if ext_is(&low, "jpg") || ext_is(&low, "jpeg") {
        "image/jpeg"
    } else if ext_is(&low, "png") {
        "image/png"
    } else if ext_is(&low, "webp") {
        "image/webp"
    } else if ext_is(&low, "gif") {
        "image/gif"
    } else if ext_is(&low, "avif") {
        "image/avif"
    } else if ext_is(&low, "heic") || ext_is(&low, "heif") {
        "image/heif"
    } else if ext_is(&low, "tif") || ext_is(&low, "tiff") {
        "image/tiff"
    } else if ext_is(&low, "mp4") {
        "video/mp4"
    } else if ext_is(&low, "mov") {
        "video/quicktime"
    } else {
        "application/octet-stream"
    }
}

/// The failure path shared by both entry points, after the tag evidence
/// for the stream has been read (or found absent).
fn failure_result(kind: OpenErrorKind, msg: String, exif: Option<ExifInfo>) -> (r:
    C2paAnalysisResult)
    ensures
        r@ == match kind {
            OpenErrorKind::NoManifest => match exif.deep_view() {
                Some(e) => crate::types::spec_no_manifest_with_exif_result(e),
                None => crate::types::spec_no_manifest_result(),
            },
            OpenErrorKind::CorruptManifest => crate::types::spec_corrupt_manifest_result(
                exif.deep_view(),
            ),
            OpenErrorKind::Other => crate::types::spec_error_result(msg@),
        },
        ai_record_ok(r@.ai_info),
{
    match kind {
        OpenErrorKind::NoManifest => match exif {
            Some(e) => C2paAnalysisResult::no_manifest_with_exif(e),
            None => C2paAnalysisResult::no_manifest(),
        },
        OpenErrorKind::CorruptManifest => C2paAnalysisResult::corrupt_manifest(exif),
        OpenErrorKind::Other => C2paAnalysisResult::error(msg),
    }
}

/// Analyze raw Exif-bearing bytes with an explicit MIME type: open and
/// interpret the embedded manifest, independently read the tags, and fuse
/// both AI signals.  Any AI record in the result is positive and names a
/// known detection source.
pub fn analyze_c2pa_from_bytes(data: Vec<u8>, mime_type: String) -> (r: C2paAnalysisResult)
    ensures
        ai_record_ok(r@.ai_info),
        r@.exif_info is Some ==> tag_record_consistent(r@.exif_info->0),
{
    match open_manifest_reader(mime_type.as_str(), &data) {
        Ok(reader) => {
            let mut result = parse_manifest_reader(&reader);
            let ghost before = result@;
            if let Some(exif_info) = parse_exif_from_bytes(&data) {
                merge_exif_into(&mut result, exif_info);
                proof {
                    lemma_merge_keeps_record_ok(before, result@.exif_info->0);
                }
            }
            result
        },
        Err(msg) => {
            let kind = classify_open_error(msg.as_str());
            let exif = if matches!(kind, OpenErrorKind::Other) {
                None
            } else {
                parse_exif_from_bytes(&data)
            };
            failure_result(kind, msg, exif)
        },
    }
}

/// Analyze the byte content of a media file: the same fusion as
/// `analyze_c2pa_from_bytes`, with the tags located inside the container
/// format rather than read as raw attribute data.
pub fn analyze_c2pa_from_file_bytes(data: Vec<u8>, mime_type: String) -> (r: C2paAnalysisResult)
    ensures
        ai_record_ok(r@.ai_info),
        r@.exif_info is Some ==> tag_record_consistent(r@.exif_info->0),
{
    match open_manifest_reader(mime_type.as_str(), &data) {
        Ok(reader) => {
            let mut result = parse_manifest_reader(&reader);
            let ghost before = result@;
            if let Some(exif_info) = parse_exif_from_container(&data) {
                merge_exif_into(&mut result, exif_info);
                proof {
                    lemma_merge_keeps_record_ok(before, result@.exif_info->0);
                }
            }
            result
        },
        Err(msg) => {
            let kind = classify_open_error(msg.as_str());
            let exif = if matches!(kind, OpenErrorKind::Other) {
                None
            } else {
                parse_exif_from_container(&data)
            };
            failure_result(kind, msg, exif)
        },
    }
}

/// The version of the underlying manifest SDK.
pub fn c2pa_sdk_version() -> (r: String)
    ensures
        r@ == "c2pa-rs 0.32"@,
{
    "c2pa-rs 0.32".to_owned()
}

/// Whether the analysis engine is available.
pub fn is_c2pa_available() -> (r: bool)
    ensures
        r,
{
    true
}

} // verus!
