//! Certificate Policies extension model.
use vstd::prelude::*;
use crate::oid::same_oid;
use crate::text::{chars_of, same_text, string_of};

verus! {

/// Object identifier of the Certificate Policies extension.
pub open spec fn certificate_policies_oid() -> Seq<u32> {
    seq![2, 5, 29, 32]
}

/// Object identifier of the Certificate Policies extension.
pub fn certificate_policies_oid_vec() -> (r: Vec<u32>)
    ensures
        r@ == certificate_policies_oid(),
{
    let r = vec![2u32, 5, 29, 32];
    assert(r@ =~= certificate_policies_oid());
    r
}

/// Object identifier of the CPS pointer policy qualifier.
pub open spec fn qualifier_cps_oid() -> Seq<u32> {
    seq![1, 3, 6, 1, 5, 5, 7, 2, 1]
}

/// Object identifier of the user notice policy qualifier.
pub open spec fn qualifier_user_notice_oid() -> Seq<u32> {
    seq![1, 3, 6, 1, 5, 5, 7, 2, 2]
}

/// Maximum number of characters of an emitted explicit user notice text.
pub const MAX_EXPLICIT_TEXT_CHARS: usize = 200;

/// Common certificate policy object identifiers.
#[derive(Debug, Clone, Copy, PartialEq, Eq, Structural)]
pub enum WellKnownCertificatePolicy {
    /// RFC 5280 `2.5.29.32.0`: no limit on the set of policies.
    AnyPolicy,
    /// CAB Forum `2.23.140.1.1`: Extended Validation.
    CabfExtendedValidation,
    /// CAB Forum `2.23.140.1.2`: TLS Baseline Requirements.
    CabfBaselineRequirements,
    /// CAB Forum `2.23.140.1.2.1`: Domain Validated.
    CabfDomainValidated,
    /// CAB Forum `2.23.140.1.2.2`: Organization Validated.
    CabfOrganizationValidated,
    /// CAB Forum `2.23.140.1.2.3`: Individual Validated.
    CabfIndividualValidated,
    /// CAB Forum `2.23.140.1.3`: EV Code Signing.
    CabfExtendedValidationCodeSigning,
    /// CAB Forum `2.23.140.1.4.1`: Code Signing.
    CabfCodeSigningRequirementsCodeSigning,
    /// CAB Forum `2.23.140.1.4.2`: Timestamping.
    CabfCodeSigningRequirementsTimestamping,
}

/// The object identifier of a well-known policy.
pub open spec fn well_known_policy_oid(p: WellKnownCertificatePolicy) -> Seq<u32> {
    match p {
        WellKnownCertificatePolicy::AnyPolicy => seq![2, 5, 29, 32, 0],
        WellKnownCertificatePolicy::CabfExtendedValidation => seq![2, 23, 140, 1, 1],
        WellKnownCertificatePolicy::CabfBaselineRequirements => seq![2, 23, 140, 1, 2],
        WellKnownCertificatePolicy::CabfDomainValidated => seq![2, 23, 140, 1, 2, 1],
        WellKnownCertificatePolicy::CabfOrganizationValidated => seq![2, 23, 140, 1, 2, 2],
        WellKnownCertificatePolicy::CabfIndividualValidated => seq![2, 23, 140, 1, 2, 3],
        WellKnownCertificatePolicy::CabfExtendedValidationCodeSigning => seq![2, 23, 140, 1, 3],
        WellKnownCertificatePolicy::CabfCodeSigningRequirementsCodeSigning => seq![2, 23, 140, 1, 4, 1],
        WellKnownCertificatePolicy::CabfCodeSigningRequirementsTimestamping => seq![2, 23, 140, 1, 4, 2],
    }
}

impl WellKnownCertificatePolicy {
    /// Return the policy object identifier.
    pub fn as_oid(&self) -> (r: Vec<u32>)
        ensures
            r@ == well_known_policy_oid(*self),
    {
        let r = match self {
            WellKnownCertificatePolicy::AnyPolicy => vec![2u32, 5, 29, 32, 0],
            WellKnownCertificatePolicy::CabfExtendedValidation => vec![2u32, 23, 140, 1, 1],
            WellKnownCertificatePolicy::CabfBaselineRequirements => vec![2u32, 23, 140, 1, 2],
            WellKnownCertificatePolicy::CabfDomainValidated => vec![2u32, 23, 140, 1, 2, 1],
            WellKnownCertificatePolicy::CabfOrganizationValidated => vec![2u32, 23, 140, 1, 2, 2],
            WellKnownCertificatePolicy::CabfIndividualValidated => vec![2u32, 23, 140, 1, 2, 3],
            WellKnownCertificatePolicy::CabfExtendedValidationCodeSigning => vec![2u32, 23, 140, 1, 3],
            WellKnownCertificatePolicy::CabfCodeSigningRequirementsCodeSigning => vec![2u32, 23, 140, 1, 4, 1],
            WellKnownCertificatePolicy::CabfCodeSigningRequirementsTimestamping => vec![2u32, 23, 140, 1, 4, 2],
        };
        assert(r@ =~= well_known_policy_oid(*self));
        r
    }
}

/// A certificate policy with its optional qualifier.
#[derive(Debug, Clone, PartialEq)]
pub enum CertificatePolicy {
    /// Policy given by object identifier alone.
    OidPolicy { oid: Vec<u32> },
    /// Policy with a pointer to the Certification Practice Statement.
    CspPolicy { oid: Vec<u32>, uri: String },
    /// Policy with a notice intended for display to a relying party.
    UserNoticePolicy {
        oid: Vec<u32>,
        notice_ref: Option<(String, Vec<isize>)>,
        explicit_text: Option<String>,
    },
}

/// Two optional notice references hold the same organisation and numbers.
pub open spec fn notice_ref_eq(a: Option<(String, Vec<isize>)>, b: Option<(String, Vec<isize>)>) -> bool {
    match (a, b) {
        (None, None) => true,
        (Some(x), Some(y)) => x.0@ == y.0@ && x.1@ == y.1@,
        _ => false,
    }
}

/// Two optional texts hold the same characters.
pub open spec fn text_opt_eq(a: Option<String>, b: Option<String>) -> bool {
    match (a, b) {
        (None, None) => true,
        (Some(x), Some(y)) => x@ == y@,
        _ => false,
    }
}

/// Two policies have the same variant and the same contents.
pub open spec fn policy_eq(a: CertificatePolicy, b: CertificatePolicy) -> bool {
    match (a, b) {
        (CertificatePolicy::OidPolicy { oid: x }, CertificatePolicy::OidPolicy { oid: y }) => x@ == y@,
        (CertificatePolicy::CspPolicy { oid: x, uri: u }, CertificatePolicy::CspPolicy { oid: y, uri: v }) =>
            x@ == y@ && u@ == v@,
        (
            CertificatePolicy::UserNoticePolicy { oid: x, notice_ref: n, explicit_text: t },
            CertificatePolicy::UserNoticePolicy { oid: y, notice_ref: m, explicit_text: s },
        ) => x@ == y@ && notice_ref_eq(n, m) && text_opt_eq(t, s),
        _ => false,
    }
}

fn same_numbers(a: &Vec<isize>, b: &Vec<isize>) -> (r: bool)
    ensures
        r == (a@ == b@),
{
    if a.len() != b.len() {
        return false;
    }
    let mut i: usize = 0;
    while i < a.len()
        invariant
            a@.len() == b@.len(),
            i <= a@.len(),
            forall|j: int| 0 <= j < i ==> a@[j] == b@[j],
        decreases a@.len() - i,
    {
        if a[i] != b[i] {
            return false;
        }
        i += 1;
    }
    assert(a@ =~= b@);
    true
}

fn same_text_opt(a: &Option<String>, b: &Option<String>) -> (r: bool)
    ensures
        r == text_opt_eq(*a, *b),
{
    match (a, b) {
        (None, None) => true,
        (Some(x), Some(y)) => same_text(x.as_str(), y.as_str()),
        _ => false,
    }
}

/// `true` when `text` holds more than `n` characters and will be cut.
pub open spec fn truncated_text(text: Seq<char>) -> Seq<char> {
    if text.len() > MAX_EXPLICIT_TEXT_CHARS {
        text.subrange(0, MAX_EXPLICIT_TEXT_CHARS as int)
    } else {
        text
    }
}

/// The explicit text that an emitted user notice carries: absent when
/// missing or empty, else its first 200 characters.
pub open spec fn emitted_explicit_text(text: Option<Seq<char>>) -> Option<Seq<char>> {
    match text {
        Some(t) => if t.len() == 0 { None } else { Some(truncated_text(t)) },
        None => None,
    }
}

impl CertificatePolicy {
    /// The policy object identifier.
    pub open spec fn spec_oid(&self) -> Seq<u32> {
        match self {
            CertificatePolicy::OidPolicy { oid } => oid@,
            CertificatePolicy::CspPolicy { oid, .. } => oid@,
            CertificatePolicy::UserNoticePolicy { oid, .. } => oid@,
        }
    }

    /// Return `true` when both policies have the same variant and contents.
    pub fn same_as(&self, other: &CertificatePolicy) -> (r: bool)
        ensures
            r == policy_eq(*self, *other),
    {
        match (self, other) {
            (CertificatePolicy::OidPolicy { oid: x }, CertificatePolicy::OidPolicy { oid: y }) => same_oid(
                x.as_slice(),
                y.as_slice(),
            ),
            (CertificatePolicy::CspPolicy { oid: x, uri: u }, CertificatePolicy::CspPolicy { oid: y, uri: v }) =>
                same_oid(x.as_slice(), y.as_slice()) && same_text(u.as_str(), v.as_str()),
            (
                CertificatePolicy::UserNoticePolicy { oid: x, notice_ref: n, explicit_text: t },
                CertificatePolicy::UserNoticePolicy { oid: y, notice_ref: m, explicit_text: s },
            ) => {
                let refs = match (n, m) {
                    (None, None) => true,
                    (Some(p), Some(q)) => same_text(p.0.as_str(), q.0.as_str()) && same_numbers(&p.1, &q.1),
                    _ => false,
                };
                same_oid(x.as_slice(), y.as_slice()) && refs && same_text_opt(t, s)
            },
            _ => false,
        }
    }

    /// The explicit text as emitted: `None` when missing or empty, else cut to
    /// its first 200 characters.
    pub fn explicit_text_for_emission(explicit_text: &Option<String>) -> (r: Option<String>)
        ensures
            match (r, *explicit_text) {
                (None, None) => true,
                (None, Some(t)) => t@.len() == 0,
                (Some(x), Some(t)) => t@.len() > 0 && x@ == truncated_text(t@) && x@.len() <= MAX_EXPLICIT_TEXT_CHARS,
                (Some(_), None) => false,
            },
    {
        match explicit_text {
            None => None,
            Some(t) => {
                let chars = chars_of(t.as_str());
                if chars.len() == 0 {
                    None
                } else if chars.len() > MAX_EXPLICIT_TEXT_CHARS {
                    Some(string_of(&chars.as_slice()[0..MAX_EXPLICIT_TEXT_CHARS]))
                } else {
                    Some(string_of(chars.as_slice()))
                }
            },
        }
    }
}

} // verus!
