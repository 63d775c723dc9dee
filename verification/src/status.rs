//! Maps the raw validation outcome - a list of status codes, or none -
//! onto the closed trust-status taxonomy.  An absent list means
//! validation ran with zero reported issues; unrecognized codes are
//! deliberately non-fatal and leave the outcome `Verified`.

use vstd::prelude::*;

use crate::text::{chars_to_vec, contains_chars, has_sub};
use crate::types::{VerificationStatus, VerificationStatusV};

verus! {

/// Whether any code in the list contains the token.
pub open spec fn any_code_has(codes: Seq<Seq<char>>, token: Seq<char>) -> bool {
    exists|i: int| 0 <= i < codes.len() && has_sub(#[trigger] codes[i], token)
}

/// The trust status derived from the validation outcome: an absent list
/// is `Verified`; otherwise signature problems dominate, then expiry,
/// then trust, and anything else is still `Verified`.
pub open spec fn spec_classify_status(codes: Option<Seq<Seq<char>>>) -> VerificationStatusV {
    match codes {
        None => VerificationStatusV::Verified,
        Some(cs) => if any_code_has(cs, "signature"@) {
            VerificationStatusV::SignatureInvalid
        } else if any_code_has(cs, "expired"@) {
            VerificationStatusV::CertificateExpired
        } else if any_code_has(cs, "trust"@) {
            VerificationStatusV::CertificateUntrusted
        } else {
            VerificationStatusV::Verified
        },
    }
}

fn any_code_contains(codes: &Vec<String>, token: &str) -> (r: bool)
    ensures
        r == any_code_has(codes.deep_view(), token@),
{
    let ghost cv = codes.deep_view();
    proof {
        assert(forall|j: int| 0 <= j < codes@.len() ==> cv[j] == #[trigger] codes@[j]@);
    }
    let needle = chars_to_vec(token);
    let mut i: usize = 0;
    while i < codes.len()
        invariant
            i <= codes.len(),
            cv == codes.deep_view(),
            cv.len() == codes@.len(),
            needle@ == token@,
            forall|j: int| 0 <= j < codes@.len() ==> cv[j] == #[trigger] codes@[j]@,
            forall|j: int| 0 <= j < i ==> !has_sub(#[trigger] cv[j], token@),
        decreases codes.len() - i,
    {
        let code_chars = chars_to_vec(codes[i].as_str());
        if contains_chars(&code_chars, &needle) {
            return true;
        }
        i = i + 1;
    }
    false
}

/// Classify the validation outcome into the trust-status taxonomy.
pub fn classify_validation_codes(codes: &Option<Vec<String>>) -> (r: VerificationStatus)
    ensures
        r@ == spec_classify_status(codes.deep_view()),
{
    match codes {
        None => VerificationStatus::Verified,
        Some(cs) => {
            if any_code_contains(cs, "signature") {
                VerificationStatus::SignatureInvalid
            } else if any_code_contains(cs, "expired") {
                VerificationStatus::CertificateExpired
            } else if any_code_contains(cs, "trust") {
                VerificationStatus::CertificateUntrusted
            } else {
                VerificationStatus::Verified
            }
        },
    }
}

} // verus!
