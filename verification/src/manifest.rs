//! Manifest evidence: the outside manifest reader opens and validates the
//! container, and each value it exposes is pulled through a small trusted
//! wrapper; everything derived from those values - signer parsing, the
//! detection cascade, the status taxonomy and the assembled result - is
//! verified over `build_manifest_result`.

use vstd::prelude::*;

use crate::cert::{build_signer, spec_signer};
use crate::detect::{detect_ai_generation, spec_detect_ai};
use crate::jsonwalk::{extract_generator_from_json, json_parse, json_to_text};
use crate::status::{classify_validation_codes, spec_classify_status};
use crate::types::{
    C2paAnalysisResult, C2paAnalysisResultV, ContentAction, ContentActionV, ai_record_ok,
};

verus! {

/// An open manifest store, produced and read only by the outside
/// manifest reader.
#[verifier::external_type_specification]
#[verifier::external_body]
pub struct ExC2paReader(c2pa::Reader);

/// One manifest of a store, read only through the outside reader.
#[verifier::external_type_specification]
#[verifier::external_body]
pub struct ExC2paManifest(c2pa::Manifest);

/// The action-assertion list of a manifest.
#[verifier::external_type_specification]
#[verifier::external_body]
pub struct ExC2paActions(c2pa::assertions::Actions);

/// One recorded action of an action assertion.
#[verifier::external_type_specification]
#[verifier::external_body]
pub struct ExC2paAction(c2pa::assertions::Action);

/// Relies on c2pa::Reader::from_stream: parses the container and
/// validates the embedded manifest store; an error becomes its message.
#[verifier::external_body]
pub(crate) fn open_manifest_reader(format: &str, data: &Vec<u8>) -> Result<c2pa::Reader, String> {
    c2pa::Reader::from_stream(format, std::io::Cursor::new(data.clone())).map_err(
        |e| e.to_string(),
    )
}

/// Relies on c2pa::Reader::active_manifest: the most recent manifest of
/// the store, if the store holds one.
#[verifier::external_body]
fn reader_active_manifest<'a>(r: &'a c2pa::Reader) -> Option<&'a c2pa::Manifest> {
    r.active_manifest()
}

/// Relies on c2pa::Reader::json: the manifest store serialized as a
/// pretty-printed JSON snapshot.
#[verifier::external_body]
fn reader_json(r: &c2pa::Reader) -> String {
    r.json()
}

/// Relies on c2pa::Reader::validation_status and ValidationStatus::code:
/// the status codes reported when the store was validated, or `None` when
/// validation reported no issue.
#[verifier::external_body]
fn reader_validation_codes(r: &c2pa::Reader) -> Option<Vec<String>> {
    r.validation_status().map(|ss| ss.iter().map(|s| s.code().to_string()).collect())
}

/// Relies on c2pa::Manifest::signature_info: the issuer string and
/// signing time of the manifest signature, when signature information is
/// present.
#[verifier::external_body]
fn manifest_signature_issuer_time(m: &c2pa::Manifest) -> Option<(Option<String>, Option<String>)> {
    m.signature_info().map(|sig| (sig.issuer.clone(), sig.time.clone()))
}

/// Relies on c2pa::Manifest::claim_generator: the tool that produced the
/// manifest.
#[verifier::external_body]
fn manifest_claim_generator(m: &c2pa::Manifest) -> String {
    m.claim_generator().to_string()
}

/// Relies on c2pa::Manifest::title.
#[verifier::external_body]
fn manifest_title(m: &c2pa::Manifest) -> Option<String> {
    m.title().map(|s| s.to_string())
}

/// Relies on c2pa::Manifest::format: the MIME type of the asset.
#[verifier::external_body]
fn manifest_format(m: &c2pa::Manifest) -> String {
    m.format().to_string()
}

/// Relies on c2pa::Manifest::instance_id.
#[verifier::external_body]
fn manifest_instance_id(m: &c2pa::Manifest) -> String {
    m.instance_id().to_string()
}

/// Relies on c2pa::Manifest::find_assertion: the action assertion of the
/// manifest, when one is recorded; an error becomes `None`.
#[verifier::external_body]
fn manifest_actions_assertion(m: &c2pa::Manifest) -> Option<c2pa::assertions::Actions> {
    m.find_assertion::<c2pa::assertions::Actions>(c2pa::assertions::Actions::LABEL).ok()
}

/// Relies on c2pa::assertions::Actions::actions: the recorded actions in
/// stored order.
#[verifier::external_body]
fn actions_list(a: &c2pa::assertions::Actions) -> Vec<c2pa::assertions::Action> {
    a.actions().to_vec()
}

/// Relies on c2pa::assertions::Action::action: the action identifier.
#[verifier::external_body]
fn action_label(a: &c2pa::assertions::Action) -> String {
    a.action().to_string()
}

/// Relies on c2pa::assertions::Action::software_agent: the display name
/// of the agent, whether it was recorded as a bare string or as a richer
/// descriptor.
#[verifier::external_body]
fn action_agent(a: &c2pa::assertions::Action) -> Option<String> {
    match a.software_agent() {
        Some(c2pa::assertions::SoftwareAgent::String(s)) => Some(s.clone()),
        Some(c2pa::assertions::SoftwareAgent::ClaimGeneratorInfo(info)) => Some(info.name.clone()),
        None => None,
    }
}

/// Relies on c2pa::assertions::Action::when: the timestamp of the action.
#[verifier::external_body]
fn action_when(a: &c2pa::assertions::Action) -> Option<String> {
    a.when().map(|t| t.to_string())
}

/// The recorded actions of a manifest as plain records, in stored order;
/// no description is carried from this path.
fn collect_actions(m: &c2pa::Manifest) -> (r: Vec<ContentAction>)
    ensures
        forall|i: int| 0 <= i < r@.len() ==> (#[trigger] r@[i]@).description is None,
{
    match manifest_actions_assertion(m) {
        None => Vec::new(),
        Some(assertion) => {
            let list = actions_list(&assertion);
            let mut out: Vec<ContentAction> = Vec::new();
            let mut i: usize = 0;
            while i < list.len()
                invariant
                    forall|k: int| 0 <= k < out@.len() ==> (#[trigger] out@[k]@).description
                        is None,
                decreases list.len() - i,
            {
                let a = &list[i];
                out.push(
                    ContentAction {
                        action: action_label(a),
                        software_agent: action_agent(a),
                        when: action_when(a),
                        description: None,
                    },
                );
                i = i + 1;
            }
            out
        },
    }
}

/// The assembled result for an open, validated manifest, as a function of
/// the plain values pulled from the reader.
pub open spec fn spec_manifest_result(
    signature: Option<(Option<Seq<char>>, Option<Seq<char>>)>,
    actions: Seq<ContentActionV>,
    claim_generator: Seq<char>,
    title: Option<Seq<char>>,
    format: Seq<char>,
    instance_id: Seq<char>,
    raw_manifest_json: Option<Seq<char>>,
    json_text: Option<Seq<char>>,
    extracted_generator: Option<Seq<char>>,
    validation_codes: Option<Seq<Seq<char>>>,
) -> C2paAnalysisResultV {
    C2paAnalysisResultV {
        status: spec_classify_status(validation_codes),
        signer: match signature {
            Some((issuer, time)) => Some(spec_signer(issuer, time)),
            None => None,
        },
        actions,
        ai_info: spec_detect_ai(actions, claim_generator, json_text, extracted_generator),
        exif_info: None,
        claim_generator: Some(claim_generator),
        title,
        format: Some(format),
        instance_id: Some(instance_id),
        raw_manifest_json,
    }
}

/// Assemble the result for an open, validated manifest from the plain
/// values pulled from the reader: the status classified from the
/// validation codes, the signer parsed from the issuer string, and the
/// detection cascade over actions, claim generator and JSON snapshot.
pub fn build_manifest_result(
    signature: Option<(Option<String>, Option<String>)>,
    actions: Vec<ContentAction>,
    claim_generator: String,
    title: Option<String>,
    format: String,
    instance_id: String,
    raw_manifest_json: Option<String>,
    json_text: Option<String>,
    extracted_generator: Option<String>,
    validation_codes: Option<Vec<String>>,
) -> (r: C2paAnalysisResult)
    ensures
        r@ == spec_manifest_result(
            signature.deep_view(),
            actions.deep_view(),
            claim_generator@,
            title.deep_view(),
            format@,
            instance_id@,
            raw_manifest_json.deep_view(),
            json_text.deep_view(),
            extracted_generator.deep_view(),
            validation_codes.deep_view(),
        ),
{
    let status = classify_validation_codes(&validation_codes);
    let signer = match signature {
        Some((issuer, time)) => Some(build_signer(issuer, time)),
        None => None,
    };
    let ai_info = detect_ai_generation(
        &actions,
        claim_generator.as_str(),
        json_text.as_ref(),
        extracted_generator,
    );
    C2paAnalysisResult {
        status,
        signer,
        actions,
        ai_info,
        exif_info: None,
        claim_generator: Some(claim_generator),
        title,
        format: Some(format),
        instance_id: Some(instance_id),
        raw_manifest_json,
    }
}

/// Interpret an open manifest store: extract the evidence, classify the
/// status and run the detection cascade.  Tag evidence is attached by the
/// caller, never here, and any AI record present is positive and
/// attributed to a known source.
pub fn parse_manifest_reader(reader: &c2pa::Reader) -> (r: C2paAnalysisResult)
    ensures
        r@.exif_info is None,
        ai_record_ok(r@.ai_info),
{
    match reader_active_manifest(reader) {
        None => C2paAnalysisResult::no_manifest(),
        Some(m) => {
            let signature = manifest_signature_issuer_time(m);
            let actions = collect_actions(m);
            let claim_generator = manifest_claim_generator(m);
            let title = manifest_title(m);
            let format = manifest_format(m);
            let instance_id = manifest_instance_id(m);
            let raw_json = reader_json(reader);
            let (json_text, extracted_generator) = match json_parse(raw_json.as_str()) {
                Some(v) => {
                    let text = json_to_text(&v);
                    let extracted = extract_generator_from_json(&v);
                    (Some(text), extracted)
                },
                None => (None, None),
            };
            let validation_codes = reader_validation_codes(reader);
            let ghost g_actions = actions.deep_view();
            let ghost g_claim = claim_generator@;
            let ghost g_json = json_text.deep_view();
            let ghost g_extracted = extracted_generator.deep_view();
            let r = build_manifest_result(
                signature,
                actions,
                claim_generator,
                title,
                format,
                instance_id,
                Some(raw_json),
                json_text,
                extracted_generator,
                validation_codes,
            );
            proof {
                crate::detect::lemma_detect_source_is_manifest(
                    g_actions,
                    g_claim,
                    g_json,
                    g_extracted,
                );
            }
            r
        },
    }
}

} // verus!
