//! The result data model: trust status, signer identity, recorded actions,
//! AI-detection record, tag evidence, and the aggregate analysis result.
//! Every type has a ghost mirror used by the contracts, reached through
//! `View`.

use vstd::prelude::*;

verus! {

/// Verification status of an embedded provenance manifest.
#[derive(Debug, Clone, PartialEq)]
pub enum VerificationStatus {
    Verified,
    SignatureInvalid,
    CertificateExpired,
    CertificateUntrusted,
    NoManifest,
    Error { message: String },
}

pub enum VerificationStatusV {
    Verified,
    SignatureInvalid,
    CertificateExpired,
    CertificateUntrusted,
    NoManifest,
    Error { message: Seq<char> },
}

impl View for VerificationStatus {
    type V = VerificationStatusV;

    open spec fn view(&self) -> VerificationStatusV {
        match self {
            VerificationStatus::Verified => VerificationStatusV::Verified,
            VerificationStatus::SignatureInvalid => VerificationStatusV::SignatureInvalid,
            VerificationStatus::CertificateExpired => VerificationStatusV::CertificateExpired,
            VerificationStatus::CertificateUntrusted => VerificationStatusV::CertificateUntrusted,
            VerificationStatus::NoManifest => VerificationStatusV::NoManifest,
            VerificationStatus::Error { message } => VerificationStatusV::Error {
                message: message@,
            },
        }
    }
}

/// Information about the content signer.
#[derive(Debug, Clone, PartialEq)]
pub struct SignerInfo {
    pub name: Option<String>,
    pub organization: Option<String>,
    pub issued_by: Option<String>,
    pub timestamp: Option<String>,
}

pub struct SignerInfoV {
    pub name: Option<Seq<char>>,
    pub organization: Option<Seq<char>>,
    pub issued_by: Option<Seq<char>>,
    pub timestamp: Option<Seq<char>>,
}

impl View for SignerInfo {
    type V = SignerInfoV;

    open spec fn view(&self) -> SignerInfoV {
        SignerInfoV {
            name: self.name.deep_view(),
            organization: self.organization.deep_view(),
            issued_by: self.issued_by.deep_view(),
            timestamp: self.timestamp.deep_view(),
        }
    }
}

/// A single action in the content's edit history.
#[derive(Debug, Clone, PartialEq)]
pub struct ContentAction {
    pub action: String,
    pub software_agent: Option<String>,
    pub when: Option<String>,
    pub description: Option<String>,
}

pub struct ContentActionV {
    pub action: Seq<char>,
    pub software_agent: Option<Seq<char>>,
    pub when: Option<Seq<char>>,
    pub description: Option<Seq<char>>,
}

impl View for ContentAction {
    type V = ContentActionV;

    open spec fn view(&self) -> ContentActionV {
        ContentActionV {
            action: self.action@,
            software_agent: self.software_agent.deep_view(),
            when: self.when.deep_view(),
            description: self.description.deep_view(),
        }
    }
}

impl DeepView for ContentAction {
    type V = ContentActionV;

    open spec fn deep_view(&self) -> ContentActionV {
        self.view()
    }
}

/// AI generation information.  The record exists only when AI involvement
/// was detected: absence, not a `false` flag, means "not detected".
#[derive(Debug, Clone, PartialEq)]
pub struct AiInfo {
    pub is_ai_generated: bool,
    pub generator_name: Option<String>,
    pub model_name: Option<String>,
    pub detection_source: Option<String>,
}

pub struct AiInfoV {
    pub is_ai_generated: bool,
    pub generator_name: Option<Seq<char>>,
    pub model_name: Option<Seq<char>>,
    pub detection_source: Option<Seq<char>>,
}

impl View for AiInfo {
    type V = AiInfoV;

    open spec fn view(&self) -> AiInfoV {
        AiInfoV {
            is_ai_generated: self.is_ai_generated,
            generator_name: self.generator_name.deep_view(),
            model_name: self.model_name.deep_view(),
            detection_source: self.detection_source.deep_view(),
        }
    }
}

impl DeepView for AiInfo {
    type V = AiInfoV;

    open spec fn deep_view(&self) -> AiInfoV {
        self.view()
    }
}

/// Normalized tag (metadata) evidence.
#[derive(Debug, Clone, PartialEq)]
pub struct ExifInfo {
    pub software: Option<String>,
    pub make: Option<String>,
    pub model: Option<String>,
    pub artist: Option<String>,
    pub copyright: Option<String>,
    pub user_comment: Option<String>,
    pub image_description: Option<String>,
    pub date_time_original: Option<String>,
    pub ai_detected: bool,
    pub ai_generator: Option<String>,
}

pub struct ExifInfoV {
    pub software: Option<Seq<char>>,
    pub make: Option<Seq<char>>,
    pub model: Option<Seq<char>>,
    pub artist: Option<Seq<char>>,
    pub copyright: Option<Seq<char>>,
    pub user_comment: Option<Seq<char>>,
    pub image_description: Option<Seq<char>>,
    pub date_time_original: Option<Seq<char>>,
    pub ai_detected: bool,
    pub ai_generator: Option<Seq<char>>,
}

impl View for ExifInfo {
    type V = ExifInfoV;

    open spec fn view(&self) -> ExifInfoV {
        ExifInfoV {
            software: self.software.deep_view(),
            make: self.make.deep_view(),
            model: self.model.deep_view(),
            artist: self.artist.deep_view(),
            copyright: self.copyright.deep_view(),
            user_comment: self.user_comment.deep_view(),
            image_description: self.image_description.deep_view(),
            date_time_original: self.date_time_original.deep_view(),
            ai_detected: self.ai_detected,
            ai_generator: self.ai_generator.deep_view(),
        }
    }
}

impl DeepView for ExifInfo {
    type V = ExifInfoV;

    open spec fn deep_view(&self) -> ExifInfoV {
        self.view()
    }
}

/// The full analysis result: the sole externally observable artifact of an
/// analysis run.
#[derive(Debug, Clone, PartialEq)]
pub struct C2paAnalysisResult {
    pub status: VerificationStatus,
    pub signer: Option<SignerInfo>,
    pub actions: Vec<ContentAction>,
    pub ai_info: Option<AiInfo>,
    pub exif_info: Option<ExifInfo>,
    pub claim_generator: Option<String>,
    pub title: Option<String>,
    pub format: Option<String>,
    pub instance_id: Option<String>,
    pub raw_manifest_json: Option<String>,
}

pub struct C2paAnalysisResultV {
    pub status: VerificationStatusV,
    pub signer: Option<SignerInfoV>,
    pub actions: Seq<ContentActionV>,
    pub ai_info: Option<AiInfoV>,
    pub exif_info: Option<ExifInfoV>,
    pub claim_generator: Option<Seq<char>>,
    pub title: Option<Seq<char>>,
    pub format: Option<Seq<char>>,
    pub instance_id: Option<Seq<char>>,
    pub raw_manifest_json: Option<Seq<char>>,
}

pub open spec fn view_opt_signer(s: Option<SignerInfo>) -> Option<SignerInfoV> {
    match s {
        Some(x) => Some(x@),
        None => None,
    }
}

impl View for C2paAnalysisResult {
    type V = C2paAnalysisResultV;

    open spec fn view(&self) -> C2paAnalysisResultV {
        C2paAnalysisResultV {
            status: self.status@,
            signer: view_opt_signer(self.signer),
            actions: self.actions.deep_view(),
            ai_info: self.ai_info.deep_view(),
            exif_info: self.exif_info.deep_view(),
            claim_generator: self.claim_generator.deep_view(),
            title: self.title.deep_view(),
            format: self.format.deep_view(),
            instance_id: self.instance_id.deep_view(),
            raw_manifest_json: self.raw_manifest_json.deep_view(),
        }
    }
}

/// An AI record, when present, is positive and names a known detection
/// source: the manifest, the tags, or both.
pub open spec fn ai_record_ok(ai: Option<AiInfoV>) -> bool {
    match ai {
        Some(a) => a.is_ai_generated && (a.detection_source == Some("c2pa"@)
            || a.detection_source == Some("exif"@) || a.detection_source == Some("both"@)),
        None => true,
    }
}

/// The AI record that tag evidence alone supports: present exactly when
/// the tags flagged AI, attributed to the tag source.
pub open spec fn spec_exif_ai_record(e: ExifInfoV) -> Option<AiInfoV> {
    if e.ai_detected {
        Some(
            AiInfoV {
                is_ai_generated: true,
                generator_name: e.ai_generator,
                model_name: None,
                detection_source: Some("exif"@),
            },
        )
    } else {
        None
    }
}

/// The result reported when no manifest and no tag evidence were found.
pub open spec fn spec_no_manifest_result() -> C2paAnalysisResultV {
    C2paAnalysisResultV {
        status: VerificationStatusV::NoManifest,
        signer: None,
        actions: Seq::empty(),
        ai_info: None,
        exif_info: None,
        claim_generator: None,
        title: None,
        format: None,
        instance_id: None,
        raw_manifest_json: None,
    }
}

/// The result reported when no manifest was found but tags were read.
pub open spec fn spec_no_manifest_with_exif_result(e: ExifInfoV) -> C2paAnalysisResultV {
    C2paAnalysisResultV {
        status: VerificationStatusV::NoManifest,
        signer: None,
        actions: Seq::empty(),
        ai_info: spec_exif_ai_record(e),
        exif_info: Some(e),
        claim_generator: None,
        title: None,
        format: None,
        instance_id: None,
        raw_manifest_json: None,
    }
}

/// The result reported for a failure that carries only a message.
pub open spec fn spec_error_result(message: Seq<char>) -> C2paAnalysisResultV {
    C2paAnalysisResultV {
        status: VerificationStatusV::Error { message },
        signer: None,
        actions: Seq::empty(),
        ai_info: None,
        exif_info: None,
        claim_generator: None,
        title: None,
        format: None,
        instance_id: None,
        raw_manifest_json: None,
    }
}

/// The fixed user-facing message for a manifest that is present but cannot
/// be decoded.
pub open spec fn corrupt_manifest_message() -> Seq<char> {
    "This image contains C2PA data that could not be parsed. It may be corrupted or use an unsupported format."@
}

/// The result reported for a manifest that is present but cannot be
/// decoded; tag evidence is still attached when available.
pub open spec fn spec_corrupt_manifest_result(e: Option<ExifInfoV>) -> C2paAnalysisResultV {
    C2paAnalysisResultV {
        status: VerificationStatusV::Error { message: corrupt_manifest_message() },
        signer: None,
        actions: Seq::empty(),
        ai_info: match e {
            Some(info) => spec_exif_ai_record(info),
            None => None,
        },
        exif_info: e,
        claim_generator: None,
        title: None,
        format: None,
        instance_id: None,
        raw_manifest_json: None,
    }
}

impl C2paAnalysisResult {
    /// A bare no-manifest result: expected for ordinary media with no
    /// embedded provenance and no recognizable tags.
    pub fn no_manifest() -> (r: Self)
        ensures
            r@ == spec_no_manifest_result(),
    {
        let r = C2paAnalysisResult {
            status: VerificationStatus::NoManifest,
            signer: None,
            actions: Vec::new(),
            ai_info: None,
            exif_info: None,
            claim_generator: None,
            title: None,
            format: None,
            instance_id: None,
            raw_manifest_json: None,
        };
        proof {
            assert(r@.actions =~= spec_no_manifest_result().actions);
        }
        r
    }

    /// A no-manifest result carrying tag evidence; the AI record is
    /// attributed to the tag source exactly when the tags flagged AI.
    pub fn no_manifest_with_exif(exif: ExifInfo) -> (r: Self)
        ensures
            r@ == spec_no_manifest_with_exif_result(exif@),
    {
        let ai_info = if exif.ai_detected {
            Some(
                AiInfo {
                    is_ai_generated: true,
                    generator_name: exif.ai_generator.clone(),
                    model_name: None,
                    detection_source: Some("exif".to_owned()),
                },
            )
        } else {
            None
        };
        let r = C2paAnalysisResult {
            status: VerificationStatus::NoManifest,
            signer: None,
            actions: Vec::new(),
            ai_info,
            exif_info: Some(exif),
            claim_generator: None,
            title: None,
            format: None,
            instance_id: None,
            raw_manifest_json: None,
        };
        proof {
            assert(r@.actions =~= spec_no_manifest_with_exif_result(exif@).actions);
        }
        r
    }

    /// A failure result that carries only the underlying message.
    pub fn error(message: String) -> (r: Self)
        ensures
            r@ == spec_error_result(message@),
    {
        let ghost m = message@;
        let r = C2paAnalysisResult {
            status: VerificationStatus::Error { message },
            signer: None,
            actions: Vec::new(),
            ai_info: None,
            exif_info: None,
            claim_generator: None,
            title: None,
            format: None,
            instance_id: None,
            raw_manifest_json: None,
        };
        proof {
            assert(r@.actions =~= spec_error_result(m).actions);
        }
        r
    }

    /// The result for a manifest that is present but cannot be decoded,
    /// with whatever tag evidence could still be read.
    pub fn corrupt_manifest(exif: Option<ExifInfo>) -> (r: Self)
        ensures
            r@ == spec_corrupt_manifest_result(exif.deep_view()),
    {
        let ai_info = match &exif {
            Some(e) => {
                if e.ai_detected {
                    Some(
                        AiInfo {
                            is_ai_generated: true,
                            generator_name: e.ai_generator.clone(),
                            model_name: None,
                            detection_source: Some("exif".to_owned()),
                        },
                    )
                } else {
                    None
                }
            },
            None => None,
        };
        let r = C2paAnalysisResult {
            status: VerificationStatus::Error {
                message:
                    "This image contains C2PA data that could not be parsed. It may be corrupted or use an unsupported format.".to_owned(),
            },
            signer: None,
            actions: Vec::new(),
            ai_info,
            exif_info: exif,
            claim_generator: None,
            title: None,
            format: None,
            instance_id: None,
            raw_manifest_json: None,
        };
        proof {
            assert(r@.actions =~= spec_corrupt_manifest_result(r.exif_info.deep_view()).actions);
        }
        r
    }
}

} // verus!
