//! Manifest-sourced AI detection: the strict priority cascade over the
//! recorded actions, the claim-generator string, and the manifest's JSON
//! snapshot.  Every detection is attributed to the manifest source.

use vstd::prelude::*;

use crate::tables::{
    action_token_table, action_token_table_x, generator_table, spec_generator_hit, spec_model_name,
    spec_source_type_hit, generator_fingerprint, model_name_lookup, source_type_hit,
};
use crate::text::{
    chars_to_vec, contains_chars, first_sub_match, has_sub, lower, lower_chars, any_match_in,
};
use crate::types::{AiInfo, AiInfoV, ContentAction, ContentActionV};

verus! {

/// Whether an action identifier (case-folded) marks a creation or edit of
/// interest for AI detection.
pub open spec fn spec_action_of_interest(action_low: Seq<char>) -> bool {
    first_sub_match(action_low, action_token_table()) is Some
}

/// The detection record produced by one recorded action: the software
/// agent is consulted first, then the free-text description.
pub open spec fn spec_scan_action(a: ContentActionV) -> Option<AiInfoV> {
    if spec_action_of_interest(lower(a.action)) {
        if a.software_agent is Some && spec_generator_hit(lower(a.software_agent->0)) is Some {
            Some(
                AiInfoV {
                    is_ai_generated: true,
                    generator_name: Some(a.software_agent->0),
                    model_name: spec_model_name(lower(a.software_agent->0)),
                    detection_source: Some("c2pa"@),
                },
            )
        } else if a.description is Some && spec_generator_hit(lower(a.description->0)) is Some {
            Some(
                AiInfoV {
                    is_ai_generated: true,
                    generator_name: Some(a.description->0),
                    model_name: spec_model_name(lower(a.description->0)),
                    detection_source: Some("c2pa"@),
                },
            )
        } else {
            None
        }
    } else {
        None
    }
}

/// The first action, in stored order, that yields a detection.
pub open spec fn spec_scan_actions(acts: Seq<ContentActionV>) -> Option<AiInfoV>
    decreases acts.len(),
{
    if acts.len() == 0 {
        None
    } else {
        match spec_scan_action(acts[0]) {
            Some(x) => Some(x),
            None => spec_scan_actions(acts.drop_first()),
        }
    }
}

/// The detection record produced by the claim-generator string alone.
pub open spec fn spec_scan_claim(claim: Seq<char>) -> Option<AiInfoV> {
    if spec_generator_hit(lower(claim)) is Some {
        Some(
            AiInfoV {
                is_ai_generated: true,
                generator_name: Some(claim),
                model_name: spec_model_name(lower(claim)),
                detection_source: Some("c2pa"@),
            },
        )
    } else {
        None
    }
}

/// The generator label reported by the JSON scan: the extracted generator
/// when one was found, otherwise the given fallback.
pub open spec fn spec_json_label(extracted: Option<Seq<char>>, fallback: Seq<char>) -> Seq<char> {
    match extracted {
        Some(g) => g,
        None => fallback,
    }
}

/// The layered scan of the manifest's JSON text: digital-source-type
/// codes, then AI assertion markers, then the full fingerprint table, then
/// trained/algorithmic co-occurrence, then synthetic markers.
pub open spec fn spec_classify_json(json: Seq<char>, extracted: Option<Seq<char>>) -> Option<
    AiInfoV,
> {
    let low = lower(json);
    if spec_source_type_hit(low) {
        Some(
            AiInfoV {
                is_ai_generated: true,
                generator_name: Some(
                    spec_json_label(extracted, "AI Generated (from digitalSourceType)"@),
                ),
                model_name: None,
                detection_source: Some("c2pa"@),
            },
        )
    } else if has_sub(low, "c2pa.ai"@) || has_sub(low, "\"ai\""@) {
        Some(
            AiInfoV {
                is_ai_generated: true,
                generator_name: Some(spec_json_label(extracted, "AI Generated"@)),
                model_name: None,
                detection_source: Some("c2pa"@),
            },
        )
    } else if spec_generator_hit(low) is Some {
        Some(
            AiInfoV {
                is_ai_generated: true,
                generator_name: Some("Detected: "@ + generator_table()[spec_generator_hit(low)->Some_0]),
                model_name: spec_model_name(low),
                detection_source: Some("c2pa"@),
            },
        )
    } else if has_sub(low, "trained"@) && has_sub(low, "algorithmic"@) {
        Some(
            AiInfoV {
                is_ai_generated: true,
                generator_name: Some("AI/ML Generated Content"@),
                model_name: None,
                detection_source: Some("c2pa"@),
            },
        )
    } else if has_sub(low, "synthetic"@) || has_sub(low, "artificially generated"@) {
        Some(
            AiInfoV {
                is_ai_generated: true,
                generator_name: Some("Synthetic/AI Generated"@),
                model_name: None,
                detection_source: Some("c2pa"@),
            },
        )
    } else {
        None
    }
}

/// The full manifest-sourced cascade: actions first, then the claim
/// generator, then the JSON snapshot when one parsed.
pub open spec fn spec_detect_ai(
    acts: Seq<ContentActionV>,
    claim: Seq<char>,
    json_text: Option<Seq<char>>,
    extracted: Option<Seq<char>>,
) -> Option<AiInfoV> {
    match spec_scan_actions(acts) {
        Some(x) => Some(x),
        None => match spec_scan_claim(claim) {
            Some(x) => Some(x),
            None => match json_text {
                Some(t) => spec_classify_json(t, extracted),
                None => None,
            },
        },
    }
}

/// Every detection of the manifest cascade is positive and attributed to
/// the manifest source.
pub proof fn lemma_detect_source_is_manifest(
    acts: Seq<ContentActionV>,
    claim: Seq<char>,
    json_text: Option<Seq<char>>,
    extracted: Option<Seq<char>>,
)
    ensures
        match spec_detect_ai(acts, claim, json_text, extracted) {
            Some(ai) => ai.is_ai_generated && ai.detection_source == Some("c2pa"@),
            None => true,
        },
    decreases acts.len(),
{
    if acts.len() > 0 && spec_scan_action(acts[0]) is None {
        lemma_detect_source_is_manifest(acts.drop_first(), claim, json_text, extracted);
    }
}

fn opt_owned(s: Option<&'static str>) -> (r: Option<String>)
    ensures
        r.deep_view() == match s {
            Some(x) => Some(x@),
            None => None::<Seq<char>>,
        },
{
    match s {
        Some(x) => Some(x.to_owned()),
        None => None,
    }
}

/// Scan the recorded actions, in stored order, for an AI detection.
pub fn scan_actions(actions: &Vec<ContentAction>) -> (r: Option<AiInfo>)
    ensures
        r.deep_view() == spec_scan_actions(actions.deep_view()),
{
    let ghost av = actions.deep_view();
    proof {
        assert(forall|j: int| 0 <= j < actions@.len() ==> av[j] == #[trigger] actions@[j]@);
        assert(av.subrange(0, av.len() as int) =~= av);
    }
    let mut i: usize = 0;
    while i < actions.len()
        invariant
            i <= actions.len(),
            av == actions.deep_view(),
            av.len() == actions@.len(),
            forall|j: int| 0 <= j < actions@.len() ==> av[j] == #[trigger] actions@[j]@,
            spec_scan_actions(av) == spec_scan_actions(av.subrange(i as int, av.len() as int)),
        decreases actions.len() - i,
    {
        let ghost suffix = av.subrange(i as int, av.len() as int);
        proof {
            assert(suffix[0] == av[i as int]);
            assert(suffix.drop_first() =~= av.subrange(i + 1, av.len() as int));
        }
        let a = &actions[i];
        let action_low = lower_chars(a.action.as_str());
        let tokens = action_token_table_x();
        if any_match_in(&action_low, &tokens) {
            if let Some(agent) = &a.software_agent {
                let agent_low = lower_chars(agent.as_str());
                if let Some(_hit) = generator_fingerprint(&agent_low) {
                    let model = opt_owned(model_name_lookup(&agent_low));
                    let r = AiInfo {
                        is_ai_generated: true,
                        generator_name: Some(agent.clone()),
                        model_name: model,
                        detection_source: Some("c2pa".to_owned()),
                    };
                    proof {
                        assert(spec_scan_action(av[i as int]) == Some(r@));
                    }
                    return Some(r);
                }
            }
            if let Some(desc) = &a.description {
                let desc_low = lower_chars(desc.as_str());
                if let Some(_hit) = generator_fingerprint(&desc_low) {
                    let model = opt_owned(model_name_lookup(&desc_low));
                    let r = AiInfo {
                        is_ai_generated: true,
                        generator_name: Some(desc.clone()),
                        model_name: model,
                        detection_source: Some("c2pa".to_owned()),
                    };
                    proof {
                        let sa = av[i as int].software_agent;
                        if sa is Some {
                            assert(spec_generator_hit(lower(sa->0)) is None);
                        }
                        assert(spec_scan_action(av[i as int]) == Some(r@));
                    }
                    return Some(r);
                }
            }
        }
        proof {
            assert(spec_scan_action(av[i as int]) is None);
        }
        i = i + 1;
    }
    proof {
        assert(av.subrange(av.len() as int, av.len() as int) =~= Seq::<ContentActionV>::empty());
    }
    None
}

/// Scan the claim-generator string for an AI detection.
pub fn scan_claim_generator(claim_generator: &str) -> (r: Option<AiInfo>)
    ensures
        r.deep_view() == spec_scan_claim(claim_generator@),
{
    let low = lower_chars(claim_generator);
    if let Some(_hit) = generator_fingerprint(&low) {
        let model = opt_owned(model_name_lookup(&low));
        let r = AiInfo {
            is_ai_generated: true,
            generator_name: Some(claim_generator.to_owned()),
            model_name: model,
            detection_source: Some("c2pa".to_owned()),
        };
        Some(r)
    } else {
        None
    }
}

/// Scan the manifest's JSON text for AI indicators; `extracted_generator`
/// is the more specific generator name pulled out of the JSON structure,
/// when one was found, and replaces the generic fallback labels.
pub fn check_json_for_ai_indicators(json_text: &str, extracted_generator: Option<String>) -> (r:
    Option<AiInfo>)
    ensures
        r.deep_view() == spec_classify_json(json_text@, extracted_generator.deep_view()),
{
    let low = lower_chars(json_text);
    if source_type_hit(&low) {
        let generator_name = match extracted_generator {
            Some(g) => g,
            None => "AI Generated (from digitalSourceType)".to_owned(),
        };
        return Some(
            AiInfo {
                is_ai_generated: true,
                generator_name: Some(generator_name),
                model_name: None,
                detection_source: Some("c2pa".to_owned()),
            },
        );
    }
    let marker1 = chars_to_vec("c2pa.ai");
    let marker2 = chars_to_vec("\"ai\"");
    if contains_chars(&low, &marker1) || contains_chars(&low, &marker2) {
        let generator_name = match extracted_generator {
            Some(g) => g,
            None => "AI Generated".to_owned(),
        };
        return Some(
            AiInfo {
                is_ai_generated: true,
                generator_name: Some(generator_name),
                model_name: None,
                detection_source: Some("c2pa".to_owned()),
            },
        );
    }
    if let Some(hit) = generator_fingerprint(&low) {
        let mut label = "Detected: ".to_owned();
        label.append(hit);
        let model = opt_owned(model_name_lookup(&low));
        return Some(
            AiInfo {
                is_ai_generated: true,
                generator_name: Some(label),
                model_name: model,
                detection_source: Some("c2pa".to_owned()),
            },
        );
    }
    let trained = chars_to_vec("trained");
    let algorithmic = chars_to_vec("algorithmic");
    if contains_chars(&low, &trained) && contains_chars(&low, &algorithmic) {
        return Some(
            AiInfo {
                is_ai_generated: true,
                generator_name: Some("AI/ML Generated Content".to_owned()),
                model_name: None,
                detection_source: Some("c2pa".to_owned()),
            },
        );
    }
    let synthetic = chars_to_vec("synthetic");
    let artificially = chars_to_vec("artificially generated");
    if contains_chars(&low, &synthetic) || contains_chars(&low, &artificially) {
        return Some(
            AiInfo {
                is_ai_generated: true,
                generator_name: Some("Synthetic/AI Generated".to_owned()),
                model_name: None,
                detection_source: Some("c2pa".to_owned()),
            },
        );
    }
    None
}

/// The canonical model name recognized in a generator string, by literal
/// substring match against the pattern table; callers pass text already
/// case-folded when they want case-insensitive matching.
pub fn extract_model_name(generator: &str) -> (r: Option<String>)
    ensures
        r.deep_view() == spec_model_name(generator@),
{
    let chars = chars_to_vec(generator);
    opt_owned(model_name_lookup(&chars))
}

/// The full manifest-sourced cascade over plain values: the recorded
/// actions, then the claim generator, then the JSON text when the
/// snapshot parsed.
pub fn detect_ai_generation(
    actions: &Vec<ContentAction>,
    claim_generator: &str,
    json_text: Option<&String>,
    extracted_generator: Option<String>,
) -> (r: Option<AiInfo>)
    ensures
        r.deep_view() == spec_detect_ai(
            actions.deep_view(),
            claim_generator@,
            match json_text {
                Some(t) => Some(t@),
                None => None,
            },
            extracted_generator.deep_view(),
        ),
{
    if let Some(r) = scan_actions(actions) {
        return Some(r);
    }
    if let Some(r) = scan_claim_generator(claim_generator) {
        return Some(r);
    }
    match json_text {
        Some(t) => check_json_for_ai_indicators(t.as_str(), extracted_generator),
        None => None,
    }
}

} // verus!
