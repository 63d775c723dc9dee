//! Provenance analysis for media files.
//!
//! The crate inspects a media byte stream for an embedded, signed
//! content-provenance manifest and, independently, for legacy descriptive
//! metadata tags, then reconciles both sources into one combined outcome:
//! a trust status, the signer identity, the recorded edit history, and a
//! best-effort judgement on whether the content was produced by an AI
//! generation tool.
//!
//! The container parsing, signature validation and tag decoding are done by
//! outside libraries behind small trusted wrappers; everything that
//! interprets their output - the status taxonomy, the signer-name parsing,
//! the fingerprint heuristics and the evidence fusion - is verified.

pub mod analyze;
pub mod cert;
pub mod detect;
pub mod jsonwalk;
pub mod laws;
pub mod manifest;
pub mod status;
pub mod tables;
pub mod tags;
pub mod text;
pub mod types;

pub use analyze::analyze_c2pa_from_bytes;
pub use analyze::analyze_c2pa_from_file_bytes;
pub use analyze::c2pa_sdk_version;
pub use analyze::is_c2pa_available;
pub use analyze::mime_for_extension;
pub use cert::extract_cert_field;
pub use detect::extract_model_name;
pub use types::AiInfo;
pub use types::C2paAnalysisResult;
pub use types::ContentAction;
pub use types::ExifInfo;
pub use types::SignerInfo;
pub use types::VerificationStatus;
