//! Signer identity from a certificate distinguished-name string:
//! comma- or slash-delimited `KEY=value` pairs, with the common name
//! preferred for the display name and the organization fields for the
//! organization.

use vstd::prelude::*;

use crate::text::{
    chars_to_vec, find_ch_x, has_ch, has_ch_x, lemma_find_ch, split_from, trim_ch_spec,
    trim_ch_range, trim_ws_spec, trim_ws_range,
};
use crate::types::{SignerInfo, SignerInfoV};

verus! {

/// The delimited parts of a distinguished name: split at commas when any
/// comma occurs, else at slashes when any slash occurs, else the whole
/// string as one part.
pub open spec fn dn_parts(dn: Seq<char>) -> Seq<Seq<char>> {
    if has_ch(dn, ',') {
        split_from(dn, 0, ',')
    } else if has_ch(dn, '/') {
        split_from(dn, 0, '/')
    } else {
        seq![dn]
    }
}

/// The value a part carries for a prefix: the part trimmed, the prefix
/// removed, trimmed again, and surrounding double then single quotes
/// stripped.
pub open spec fn clean_value(part: Seq<char>, prefix: Seq<char>) -> Seq<char> {
    let t = trim_ws_spec(part);
    let v = trim_ws_spec(t.subrange(prefix.len() as int, t.len() as int));
    trim_ch_spec(trim_ch_spec(v, '"'), '\'')
}

/// Whether a part starts with the prefix (after trimming) and carries a
/// non-empty value for it.
pub open spec fn part_yields(part: Seq<char>, prefix: Seq<char>) -> bool {
    let t = trim_ws_spec(part);
    t.len() >= prefix.len() && t.subrange(0, prefix.len() as int) == prefix && clean_value(
        part,
        prefix,
    ).len() > 0
}

/// The value of the first part that yields one.
pub open spec fn scan_parts(parts: Seq<Seq<char>>, prefix: Seq<char>) -> Option<Seq<char>>
    decreases parts.len(),
{
    if parts.len() == 0 {
        None
    } else if part_yields(parts[0], prefix) {
        Some(clean_value(parts[0], prefix))
    } else {
        scan_parts(parts.drop_first(), prefix)
    }
}

/// The field a distinguished name holds under a `KEY=` prefix, if any.
pub open spec fn spec_extract_cert_field(dn: Seq<char>, prefix: Seq<char>) -> Option<Seq<char>> {
    scan_parts(dn_parts(dn), prefix)
}

/// Check one part, given as the range `[pa, pb)` of `v`, and return the
/// bounds of its cleaned value when it yields one.
fn check_part(v: &Vec<char>, pa: usize, pb: usize, prefix: &Vec<char>) -> (r: Option<
    (usize, usize),
>)
    requires
        pa <= pb <= v@.len(),
    ensures
        match r {
            Some((a, b)) => pa <= a <= b <= pb && part_yields(
                v@.subrange(pa as int, pb as int),
                prefix@,
            ) && clean_value(v@.subrange(pa as int, pb as int), prefix@) == v@.subrange(
                a as int,
                b as int,
            ),
            None => !part_yields(v@.subrange(pa as int, pb as int), prefix@),
        },
{
    let ghost part = v@.subrange(pa as int, pb as int);
    let (t1, t2) = trim_ws_range(v, pa, pb);
    let ghost t = trim_ws_spec(part);
    let plen = prefix.len();
    if t2 - t1 < plen {
        return None;
    }
    let mut j: usize = 0;
    while j < plen
        invariant
            j <= plen,
            plen == prefix@.len(),
            pa <= t1 <= t2 <= pb <= v@.len(),
            t2 - t1 >= plen,
            t == trim_ws_spec(part),
            part == v@.subrange(pa as int, pb as int),
            t == v@.subrange(t1 as int, t2 as int),
            forall|k: int| 0 <= k < j ==> t[k] == prefix@[k],
        decreases plen - j,
    {
        if v[t1 + j] != prefix[j] {
            proof {
                assert(t[j as int] == v@[t1 + j]);
                assert(t.subrange(0, plen as int)[j as int] != prefix@[j as int]);
            }
            return None;
        }
        proof {
            assert(t[j as int] == v@[t1 + j]);
        }
        j = j + 1;
    }
    proof {
        assert(t.subrange(0, plen as int) =~= prefix@);
    }
    let (w1, w2) = trim_ws_range(v, t1 + plen, t2);
    proof {
        assert(t.subrange(plen as int, t.len() as int) =~= v@.subrange((t1 + plen) as int, t2 as int));
    }
    let (q1, q2) = trim_ch_range(v, w1, w2, '"');
    let (e1, e2) = trim_ch_range(v, q1, q2, '\'');
    if e2 > e1 {
        Some((e1, e2))
    } else {
        None
    }
}

/// Extract a field from a certificate distinguished-name string, e.g.
/// `CN=Name, O=Organization, C=US` with prefix `O=` gives `Organization`.
pub fn extract_cert_field(dn: &str, field_prefix: &str) -> (r: Option<String>)
    ensures
        r.deep_view() == spec_extract_cert_field(dn@, field_prefix@),
{
    let dnv = chars_to_vec(dn);
    let prefix = chars_to_vec(field_prefix);
    let n = dnv.len();
    let sep: char = if has_ch_x(&dnv, ',') {
        ','
    } else if has_ch_x(&dnv, '/') {
        '/'
    } else {
        // neither separator occurs: the whole string is the only part
        proof {
            assert(dn_parts(dn@) == seq![dn@]);
            assert(dn@.subrange(0, dn@.len() as int) =~= dn@);
            assert(seq![dn@].drop_first() =~= Seq::<Seq<char>>::empty());
        }
        match check_part(&dnv, 0, n, &prefix) {
            Some((a, b)) => {
                let s = dn.substring_char(a, b);
                return Some(s.to_owned());
            },
            None => {
                proof {
                    assert(!part_yields(dn@, field_prefix@));
                    assert(scan_parts(seq![dn@], field_prefix@) == scan_parts(
                        seq![dn@].drop_first(),
                        field_prefix@,
                    ));
                    assert(scan_parts(Seq::<Seq<char>>::empty(), field_prefix@) is None);
                }
                return None;
            },
        }
    };
    let mut start: usize = 0;
    loop
        invariant
            start <= n,
            n == dn@.len(),
            dnv@ == dn@,
            prefix@ == field_prefix@,
            (sep == ',' && has_ch(dn@, ',')) || (sep == '/' && !has_ch(dn@, ',') && has_ch(
                dn@,
                '/',
            )),
            spec_extract_cert_field(dn@, field_prefix@) == scan_parts(
                split_from(dn@, start as int, sep),
                field_prefix@,
            ),
        decreases n - start,
    {
        let k = find_ch_x(&dnv, start, sep);
        let ghost parts = split_from(dn@, start as int, sep);
        proof {
            lemma_find_ch(dn@, start as int, sep);
        }
        match check_part(&dnv, start, k, &prefix) {
            Some((a, b)) => {
                proof {
                    assert(parts[0] == dn@.subrange(start as int, k as int));
                }
                let s = dn.substring_char(a, b);
                return Some(s.to_owned());
            },
            None => {
                if k == n {
                    proof {
                        assert(parts[0] == dn@.subrange(start as int, n as int));
                        assert(parts.len() == 1);
                        assert(parts.drop_first() =~= Seq::<Seq<char>>::empty());
                        assert(scan_parts(parts, field_prefix@) == scan_parts(
                            parts.drop_first(),
                            field_prefix@,
                        ));
                        assert(scan_parts(Seq::<Seq<char>>::empty(), field_prefix@) is None);
                    }
                    return None;
                }
                proof {
                    assert(parts[0] == dn@.subrange(start as int, k as int));
                    assert(parts.drop_first() =~= split_from(dn@, k + 1, sep));
                }
                start = k + 1;
            },
        }
    }
}

/// The signer record parsed from an issuer string and timestamp: the name
/// prefers `CN=` falling back to the raw issuer, the organization prefers
/// `O=` falling back to `OU=`.
pub open spec fn spec_signer(issuer: Option<Seq<char>>, time: Option<Seq<char>>) -> SignerInfoV {
    SignerInfoV {
        name: match issuer {
            Some(iss) => match spec_extract_cert_field(iss, "CN="@) {
                Some(v) => Some(v),
                None => Some(iss),
            },
            None => None,
        },
        organization: match issuer {
            Some(iss) => match spec_extract_cert_field(iss, "O="@) {
                Some(v) => Some(v),
                None => spec_extract_cert_field(iss, "OU="@),
            },
            None => None,
        },
        issued_by: issuer,
        timestamp: time,
    }
}

/// Build the signer record from the issuer string and timestamp.
pub fn build_signer(issuer: Option<String>, time: Option<String>) -> (r: SignerInfo)
    ensures
        r@ == spec_signer(issuer.deep_view(), time.deep_view()),
{
    let (name, organization) = match &issuer {
        Some(iss) => {
            let organization = match extract_cert_field(iss.as_str(), "O=") {
                Some(v) => Some(v),
                None => extract_cert_field(iss.as_str(), "OU="),
            };
            let name = match extract_cert_field(iss.as_str(), "CN=") {
                Some(v) => Some(v),
                None => Some(iss.clone()),
            };
            (name, organization)
        },
        None => (None, None),
    };
    SignerInfo { name, organization, issued_by: issuer, timestamp: time }
}

} // verus!
