//! The library's cross-cutting guarantees, stated and proved once over
//! the spec-level model that every contract uses.

use vstd::prelude::*;

use crate::analyze::spec_merge;
use crate::detect::spec_detect_ai;
use crate::manifest::spec_manifest_result;
use crate::tags::spec_exif_detection;
use crate::tables::{lowered_table, source_type_table, spec_generator_hit, spec_model_name};
use crate::text::{
    first_sub_match, has_sub, lemma_first_sub_match, lemma_has_sub_lower, lemma_lower_stable,
    lower,
};
use crate::types::{
    C2paAnalysisResultV, ContentActionV, ExifInfoV, spec_no_manifest_result,
};

verus! {

/// With no embedded manifest and no recognizable tags, the result is a
/// bare no-manifest outcome: status `NoManifest`, no AI record, no tag
/// record.
pub proof fn lemma_no_evidence_is_bare()
    ensures
        spec_no_manifest_result().status is NoManifest,
        spec_no_manifest_result().ai_info is None,
        spec_no_manifest_result().exif_info is None,
{
}

/// A manifest whose validation reported zero status codes is `Verified`,
/// whatever the other evidence says.
pub proof fn lemma_clean_validation_is_verified(
    signature: Option<(Option<Seq<char>>, Option<Seq<char>>)>,
    actions: Seq<ContentActionV>,
    claim_generator: Seq<char>,
    title: Option<Seq<char>>,
    format: Seq<char>,
    instance_id: Seq<char>,
    raw_manifest_json: Option<Seq<char>>,
    json_text: Option<Seq<char>>,
    extracted_generator: Option<Seq<char>>,
)
    ensures
        spec_manifest_result(
            signature,
            actions,
            claim_generator,
            title,
            format,
            instance_id,
            raw_manifest_json,
            json_text,
            extracted_generator,
            None,
        ).status is Verified,
{
}

/// The analysis is a pure function of the evidence: two runs over equal
/// manifest evidence and equal tag evidence build identical results, so
/// repeating an analysis on the same bytes cannot differ unless the
/// outside readers themselves hand back something different.
pub proof fn lemma_analysis_deterministic(
    signature: Option<(Option<Seq<char>>, Option<Seq<char>>)>,
    actions: Seq<ContentActionV>,
    claim_generator: Seq<char>,
    title: Option<Seq<char>>,
    format: Seq<char>,
    instance_id: Seq<char>,
    raw_manifest_json: Option<Seq<char>>,
    json_text: Option<Seq<char>>,
    extracted_generator: Option<Seq<char>>,
    validation_codes: Option<Seq<Seq<char>>>,
    tag_evidence: Option<ExifInfoV>,
    other_tag_evidence: Option<ExifInfoV>,
)
    requires
        tag_evidence == other_tag_evidence,
    ensures
        ({
            let first = spec_manifest_result(
                signature,
                actions,
                claim_generator,
                title,
                format,
                instance_id,
                raw_manifest_json,
                json_text,
                extracted_generator,
                validation_codes,
            );
            let second = spec_manifest_result(
                signature,
                actions,
                claim_generator,
                title,
                format,
                instance_id,
                raw_manifest_json,
                json_text,
                extracted_generator,
                validation_codes,
            );
            match (tag_evidence, other_tag_evidence) {
                (Some(e1), Some(e2)) => spec_merge(first, e1) == spec_merge(second, e2),
                _ => first == second,
            }
        }),
{
}

/// Merge correctness: when the manifest path already detected AI and the
/// tags corroborate it, the merged source is upgraded to `both`, an
/// already-set generator name is never overwritten, and the tag record is
/// attached.
pub proof fn lemma_merge_upgrades_to_both(r: C2paAnalysisResultV, e: ExifInfoV)
    requires
        r.ai_info is Some,
        r.ai_info->0.detection_source == Some("c2pa"@),
        e.ai_detected,
    ensures
        spec_merge(r, e).ai_info is Some,
        spec_merge(r, e).ai_info->0.detection_source == Some("both"@),
        r.ai_info->0.generator_name is Some ==> spec_merge(r, e).ai_info->0.generator_name
            == r.ai_info->0.generator_name,
        spec_merge(r, e).exif_info == Some(e),
{
}

/// Fingerprint matching is case-insensitive: two texts with the same
/// case-fold produce the same fingerprint hit and the same model name, so
/// only the verbatim label a detection carries can tell them apart.  With
/// `lemma_lower_stable`, a text and its own case-fold are such a pair.
pub proof fn lemma_matching_is_case_insensitive(a: Seq<char>, b: Seq<char>)
    requires
        lower(a) == lower(b),
    ensures
        spec_generator_hit(lower(a)) == spec_generator_hit(lower(b)),
        spec_model_name(lower(a)) == spec_model_name(lower(b)),
        lower(lower(a)) == lower(a),
{
    lemma_lower_stable(a);
}

/// A tag record never carries a generator label without the detection
/// flag: when the heuristics name a generator, they have flagged AI.
pub proof fn lemma_tag_label_implies_detection(
    software: Option<Seq<char>>,
    make: Option<Seq<char>>,
    model: Option<Seq<char>>,
    artist: Option<Seq<char>>,
    user_comment: Option<Seq<char>>,
    image_description: Option<Seq<char>>,
)
    ensures
        spec_exif_detection(
            software,
            make,
            model,
            artist,
            user_comment,
            image_description,
        ).1 is Some ==> spec_exif_detection(
            software,
            make,
            model,
            artist,
            user_comment,
            image_description,
        ).0,
{
}

/// A JSON snapshot that parsed and contains the trained-algorithmic
/// digital-source-type code always yields a positive detection attributed
/// to the manifest source, whatever the actions and claim generator say.
pub proof fn lemma_source_type_snapshot_detects(
    actions: Seq<ContentActionV>,
    claim_generator: Seq<char>,
    json_text: Seq<char>,
    extracted_generator: Option<Seq<char>>,
)
    requires
        has_sub(json_text, "trainedAlgorithmicMedia"@),
    ensures
        spec_detect_ai(actions, claim_generator, Some(json_text), extracted_generator) is Some,
        spec_detect_ai(
            actions,
            claim_generator,
            Some(json_text),
            extracted_generator,
        )->0.is_ai_generated,
        spec_detect_ai(
            actions,
            claim_generator,
            Some(json_text),
            extracted_generator,
        )->0.detection_source == Some("c2pa"@),
{
    lemma_has_sub_lower(json_text, "trainedAlgorithmicMedia"@);
    let low = lower(json_text);
    let lowtab = lowered_table(source_type_table());
    assert(lowtab[3] == lower(source_type_table()[3]));
    assert(source_type_table()[3] == "trainedAlgorithmicMedia"@);
    assert(has_sub(low, lowtab[3]));
    lemma_first_sub_match(low, lowtab);
    assert(first_sub_match(low, lowtab) is Some);
    crate::detect::lemma_detect_source_is_manifest(
        actions,
        claim_generator,
        Some(json_text),
        extracted_generator,
    );
}

} // verus!
