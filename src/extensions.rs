//! The extensions of a certificate being built: an insertion-ordered list of
//! `(oid, critical, DER value)` with at most one extension per object
//! identifier.
use vstd::prelude::*;
use crate::authority_information_access::AuthorityInfoAccessDescription;
use crate::basic_constraints::{basic_constraints_oid, BasicConstraints};
use crate::certificate_policies::{emitted_explicit_text, qualifier_cps_oid, qualifier_user_notice_oid, CertificatePolicy};
use crate::der;
use crate::extended_key_usage::ExtendedKeyUsage;
use crate::general_name::{GeneralNameValue, WellKnownGeneralName};
use crate::key_identifier::{AuthorityKeyIdentifier, SubjectKeyIdentifier};
use crate::key_usage::{key_usage_oid, ku_bits, KeyUsage};
use crate::oid::same_oid;
use crate::parse::{copy_bytes, copy_oid, exts_view, RawExtension};

verus! {

/// Object identifier of the Subject Alternative Name extension.
pub open spec fn subject_alternative_name_oid() -> Seq<u32> {
    seq![2, 5, 29, 17]
}

/// Object identifier of the Issuer Alternative Name extension.
pub open spec fn issuer_alternative_name_oid() -> Seq<u32> {
    seq![2, 5, 29, 18]
}

/// Object identifier of the CRL Distribution Points extension.
pub open spec fn crl_distribution_points_oid() -> Seq<u32> {
    seq![2, 5, 29, 31]
}

/// No two extensions share an object identifier.
pub open spec fn oids_distinct(s: Seq<(Seq<u32>, bool, Seq<u8>)>) -> bool {
    forall|i: int, j: int| 0 <= i < s.len() && 0 <= j < s.len() && i != j ==> (#[trigger] s[i]).0 != (#[trigger] s[j]).0
}

/// Position of the extension with object identifier `oid`, or -1.
pub open spec fn index_of_oid(s: Seq<(Seq<u32>, bool, Seq<u8>)>, oid: Seq<u32>) -> int
    decreases s.len(),
{
    if s.len() == 0 {
        -1
    } else if s.last().0 == oid {
        s.len() - 1
    } else {
        index_of_oid(s.drop_last(), oid)
    }
}

/// The list with `e` in place of the extension with the same object
/// identifier, or appended when there is none.
pub open spec fn put(s: Seq<(Seq<u32>, bool, Seq<u8>)>, e: (Seq<u32>, bool, Seq<u8>)) -> Seq<(Seq<u32>, bool, Seq<u8>)> {
    let k = index_of_oid(s, e.0);
    if 0 <= k < s.len() {
        s.update(k, e)
    } else {
        s.push(e)
    }
}

proof fn lemma_index_of_oid(s: Seq<(Seq<u32>, bool, Seq<u8>)>, oid: Seq<u32>)
    ensures
        index_of_oid(s, oid) == -1 ==> forall|i: int| 0 <= i < s.len() ==> (#[trigger] s[i]).0 != oid,
        index_of_oid(s, oid) != -1 ==> 0 <= index_of_oid(s, oid) < s.len() && s[index_of_oid(s, oid)].0 == oid,
    decreases s.len(),
{
    if s.len() > 0 && s.last().0 != oid {
        lemma_index_of_oid(s.drop_last(), oid);
        assert forall|i: int| 0 <= i < s.len() - 1 implies s[i] == s.drop_last()[i] by {}
    }
}

/// Extensions of a certificate being built.
#[derive(Debug, Default)]
pub struct Extensions {
    pub extensions: Vec<RawExtension>,
}

impl Extensions {
    /// No two extensions share an object identifier.
    pub open spec fn wf(&self) -> bool {
        oids_distinct(exts_view(self.extensions@))
    }

    /// The extensions' views.
    pub open spec fn spec_view(&self) -> Seq<(Seq<u32>, bool, Seq<u8>)> {
        exts_view(self.extensions@)
    }

    /// Return an empty list.
    pub fn new() -> (r: Self)
        ensures
            r.wf(),
            r.spec_view().len() == 0,
    {
        let r = Extensions { extensions: Vec::new() };
        assert(r.spec_view() =~= Seq::empty());
        r
    }

    /// Return the extensions in insertion order.
    pub fn extensions(&self) -> (r: &Vec<RawExtension>)
        ensures
            r@ == self.extensions@,
    {
        &self.extensions
    }

    /// Put an extension: replace the one with the same object identifier, or
    /// append it.
    pub fn set_extension(&mut self, oid: Vec<u32>, critical: bool, value: Vec<u8>)
        requires
            old(self).wf(),
        ensures
            final(self).wf(),
            final(self).spec_view() == put(old(self).spec_view(), (oid@, critical, value@)),
    {
        let ghost before = self.spec_view();
        let ghost e = (oid@, critical, value@);
        proof {
            lemma_index_of_oid(before, oid@);
        }
        let mut k: usize = self.extensions.len();
        assert(before.subrange(0, k as int) =~= before);
        while k > 0
            invariant
                k <= self.extensions@.len(),
                before == exts_view(self.extensions@),
                index_of_oid(before, oid@) == index_of_oid(before.subrange(0, k as int), oid@),
            ensures
                k <= self.extensions@.len(),
                index_of_oid(before, oid@) == index_of_oid(before.subrange(0, k as int), oid@),
                k == 0 || before[k - 1].0 == oid@,
            decreases k,
        {
            if same_oid(self.extensions[k - 1].oid.as_slice(), oid.as_slice()) {
                break;
            }
            proof {
                assert(before.subrange(0, k as int).drop_last() =~= before.subrange(0, k - 1));
                assert(before.subrange(0, k as int).last() == before[k - 1]);
            }
            k -= 1;
        }
        let item = RawExtension { oid, critical, value };
        if k > 0 {
            proof {
                assert(before.subrange(0, k as int).last() == before[k - 1]);
                assert(index_of_oid(before, e.0) == k - 1);
            }
            self.extensions.set(k - 1, item);
            assert(self.spec_view() =~= before.update(k - 1, e));
        } else {
            assert(before.subrange(0, 0) =~= Seq::<(Seq<u32>, bool, Seq<u8>)>::empty());
            self.extensions.push(item);
            assert(self.spec_view() =~= before.push(e));
        }
        proof {
            let s = self.spec_view();
            assert forall|i: int, j: int| 0 <= i < s.len() && 0 <= j < s.len() && i != j implies (#[trigger] s[i]).0 != (#[trigger] s[j]).0 by {
                if i < before.len() && j < before.len() {
                    if i != index_of_oid(before, e.0) && j != index_of_oid(before, e.0) {
                        assert(s[i] == before[i] && s[j] == before[j]);
                    }
                }
            }
        }
    }

    /// Add Basic Constraints, critical exactly for a CA. Returns `false`, with
    /// nothing added, when the value does not encode.
    pub fn add_basic_constraints(&mut self, basic_constraints: &BasicConstraints) -> (r: bool)
        requires
            old(self).wf(),
        ensures
            r,
            final(self).wf(),
            r ==> final(self).spec_view() == put(old(self).spec_view(), (basic_constraints_oid(), basic_constraints.ca,
                der::der_basic_constraints(basic_constraints.ca, basic_constraints.path_len))),
            !r ==> final(self).spec_view() == old(self).spec_view(),
    {
        match basic_constraints.to_rasn_type() {
            Some(v) => {
                self.set_extension(crate::basic_constraints::basic_constraints_oid_vec(), basic_constraints.is_ca(), v);
                true
            },
            None => false,
        }
    }

    /// Add Key Usage, always critical, as a BIT STRING without trailing zero
    /// bits. An empty list adds nothing.
    pub fn add_key_usage(&mut self, key_usages: &[KeyUsage]) -> (r: bool)
        requires
            old(self).wf(),
        ensures
            r,
            final(self).wf(),
            key_usages@.len() == 0 ==> r && final(self).spec_view() == old(self).spec_view(),
            key_usages@.len() > 0 && r ==> final(self).spec_view() == put(old(self).spec_view(), (key_usage_oid(), true,
                der::der_bit_string(ku_bits(key_usages@)))),
            !r ==> final(self).spec_view() == old(self).spec_view(),
    {
        if key_usages.len() == 0 {
            return true;
        }
        match KeyUsage::to_rasn_type(key_usages) {
            Some(v) => {
                self.set_extension(crate::key_usage::key_usage_oid_vec(), true, v);
                true
            },
            None => false,
        }
    }

    /// Add Extended Key Usage, not critical. An empty list adds nothing.
    pub fn add_extended_key_usage(&mut self, extended_key_usages: &[ExtendedKeyUsage]) -> (r: bool)
        requires
            old(self).wf(),
        ensures
            (forall|i: int| 0 <= i < extended_key_usages@.len() ==> der::oid_encodes(crate::extended_key_usage::eku_oid(#[trigger] extended_key_usages@[i]))) ==> r,
            final(self).wf(),
            extended_key_usages@.len() == 0 ==> r && final(self).spec_view() == old(self).spec_view(),
            extended_key_usages@.len() > 0 && r ==> final(self).spec_view() == put(old(self).spec_view(), (
                crate::extended_key_usage::extended_key_usage_oid(), false,
                der::der_oids(Seq::new(extended_key_usages@.len(), |i: int| crate::extended_key_usage::eku_oid(extended_key_usages@[i]))))),
            !r ==> final(self).spec_view() == old(self).spec_view(),
    {
        if extended_key_usages.len() == 0 {
            return true;
        }
        let oids = ExtendedKeyUsage::to_rasn_type(extended_key_usages);
        assert(der::oids_view(oids@) =~= Seq::new(extended_key_usages@.len(), |i: int| crate::extended_key_usage::eku_oid(extended_key_usages@[i])));
        match der::encode_oids(&oids) {
            Some(v) => {
                self.set_extension(crate::extended_key_usage::extended_key_usage_oid_vec(), false, v);
                true
            },
            None => false,
        }
    }

    /// Add a Subject Key Identifier, not critical.
    pub fn add_subject_key_identifier(&mut self, subject_key_identifier: &SubjectKeyIdentifier) -> (r: bool)
        requires
            old(self).wf(),
        ensures
            r,
            final(self).wf(),
            r ==> final(self).spec_view() == put(old(self).spec_view(), (crate::key_identifier::subject_key_identifier_oid(), false,
                der::der_octet_string(subject_key_identifier.key_identifier@))),
            !r ==> final(self).spec_view() == old(self).spec_view(),
    {
        match subject_key_identifier.to_rasn_type() {
            Some(v) => {
                self.set_extension(crate::key_identifier::subject_key_identifier_oid_vec(), false, v);
                true
            },
            None => false,
        }
    }

    /// Add an Authority Key Identifier, not critical.
    pub fn add_authority_key_identifier(&mut self, authority_key_identifier: &AuthorityKeyIdentifier) -> (r: bool)
        requires
            old(self).wf(),
        ensures
            r,
            final(self).wf(),
            r ==> final(self).spec_view() == put(old(self).spec_view(), (crate::key_identifier::authority_key_identifier_oid(), false,
                der::der_authority_key_id(authority_key_identifier.key_identifier@))),
            !r ==> final(self).spec_view() == old(self).spec_view(),
    {
        match authority_key_identifier.to_rasn_type() {
            Some(v) => {
                self.set_extension(crate::key_identifier::authority_key_identifier_oid_vec(), false, v);
                true
            },
            None => false,
        }
    }
}

} // verus!

verus! {

/// `v` holds the wire forms of the names, in order.
pub open spec fn wire_forms(names: Seq<(WellKnownGeneralName, String)>, v: Seq<GeneralNameValue>) -> bool {
    v.len() == names.len() && forall|i: int| 0 <= i < v.len() ==> crate::general_name::wire_form(names[i].0, names[i].1@, #[trigger] v[i])
}

/// Alternative names (Subject and Issuer Alternative Name).
pub struct AlternativeName {}

impl AlternativeName {
    /// Return the wire values of the names; `None` when one is not
    /// well-formed for its kind.
    pub fn to_rasn_type(alternative_names: &[(WellKnownGeneralName, String)]) -> (r: Option<Vec<GeneralNameValue>>)
        ensures
            r matches Some(v) ==> v@.len() == alternative_names@.len() && forall|i: int| 0 <= i < v@.len()
                ==> crate::general_name::wire_form(alternative_names@[i].0, alternative_names@[i].1@, #[trigger] v@[i]),
    {
        let mut out: Vec<GeneralNameValue> = Vec::new();
        let mut i: usize = 0;
        while i < alternative_names.len()
            invariant
                i <= alternative_names@.len(),
                out@.len() == i,
                forall|k: int| 0 <= k < i ==> crate::general_name::wire_form(alternative_names@[k].0, alternative_names@[k].1@, #[trigger] out@[k]),
            decreases alternative_names@.len() - i,
        {
            let (kind, value) = &alternative_names[i];
            match kind.to_rasn_type(value.as_str()) {
                Some(g) => {
                    let ghost before = out@;
                    out.push(g);
                    assert(forall|k: int| 0 <= k < i ==> out@[k] == before[k]);
                },
                None => {
                    return None;
                },
            }
            i += 1;
        }
        Some(out)
    }

    /// Return the well-known names among wire values, in order; other kinds
    /// are skipped.
    pub fn from_rasn_type(general_names: &Vec<GeneralNameValue>) -> (r: Vec<(WellKnownGeneralName, String)>)
        ensures
            r@.len() <= general_names@.len(),
    {
        let mut out: Vec<(WellKnownGeneralName, String)> = Vec::new();
        let mut i: usize = 0;
        while i < general_names.len()
            invariant
                i <= general_names@.len(),
                out@.len() <= i,
            decreases general_names@.len() - i,
        {
            match WellKnownGeneralName::from_rasn_type(&general_names[i]) {
                Some(n) => out.push(n),
                None => {},
            }
            i += 1;
        }
        out
    }

    /// DER of the names as GeneralNames.
    fn to_der(alternative_names: &[(WellKnownGeneralName, String)]) -> (r: Option<Vec<u8>>)
        ensures
            r matches Some(b) ==> exists|v: Seq<GeneralNameValue>| #[trigger] wire_forms(alternative_names@, v)
                && b@ == der::der_general_names(v.map_values(|g: GeneralNameValue| der::general_name_view(g))),
    {
        let values = match Self::to_rasn_type(alternative_names) {
            Some(v) => v,
            None => {
                return None;
            },
        };
        let r = der::encode_general_names(&values);
        assert(wire_forms(alternative_names@, values@));
        r
    }
}

/// The qualifier that a policy carries when emitted: none for a policy given
/// by identifier; the CPS pointer as IA5String; or the user notice with its
/// explicit text cut to 200 characters (and left out when empty).
pub open spec fn emitted_qualifier(p: CertificatePolicy) -> Option<(Seq<u32>, Seq<u8>)> {
    match p {
        CertificatePolicy::OidPolicy { .. } => None,
        CertificatePolicy::CspPolicy { uri, .. } => Some((qualifier_cps_oid(), der::der_ia5_string(uri@))),
        CertificatePolicy::UserNoticePolicy { notice_ref, explicit_text, .. } => Some((qualifier_user_notice_oid(),
            der::der_user_notice(
                match notice_ref { Some(n) => Some((n.0@, n.1@)), None => None },
                emitted_explicit_text(match explicit_text { Some(t) => Some(t@), None => None }),
            ))),
    }
}

/// A policy encodes: its identifier is one the encoder accepts and a CPS
/// pointer is IA5 text.
pub open spec fn policy_encodes(p: CertificatePolicy) -> bool {
    der::oid_encodes(p.spec_oid()) && match p {
        CertificatePolicy::CspPolicy { uri, .. } => crate::attributes::fits_alphabet(crate::attributes::Asn1EncodingType::IA5String, uri@),
        _ => true,
    }
}

impl CertificatePolicy {
    /// Return the policy's object identifier and the qualifier it carries
    /// when emitted; `None` when the qualifier does not encode.
    pub fn as_policy_information(&self) -> (r: Option<(Vec<u32>, Option<(Vec<u32>, Vec<u8>)>)>)
        ensures
            r matches Some((oid, q)) ==> oid@ == self.spec_oid() && match (q, emitted_qualifier(*self)) {
                (None, None) => true,
                (Some(x), Some(y)) => x.0@ == y.0 && x.1@ == y.1,
                _ => false,
            },
            r is Some <==> match self {
                CertificatePolicy::CspPolicy { uri, .. } => crate::attributes::fits_alphabet(crate::attributes::Asn1EncodingType::IA5String, uri@),
                _ => true,
            },
    {
        match self {
            CertificatePolicy::OidPolicy { oid } => Some((copy_oid(oid), None)),
            CertificatePolicy::CspPolicy { oid, uri } => {
                let cps = vec![1u32, 3, 6, 1, 5, 5, 7, 2, 1];
                assert(cps@ =~= qualifier_cps_oid());
                match der::encode_ia5_string(uri.as_str()) {
                    Some(v) => Some((copy_oid(oid), Some((cps, v)))),
                    None => None,
                }
            },
            CertificatePolicy::UserNoticePolicy { oid, notice_ref, explicit_text } => {
                let unotice = vec![1u32, 3, 6, 1, 5, 5, 7, 2, 2];
                assert(unotice@ =~= qualifier_user_notice_oid());
                let text = CertificatePolicy::explicit_text_for_emission(explicit_text);
                assert(match text { Some(t) => Some(t@), None => None::<Seq<char>> } == emitted_explicit_text(
                    match explicit_text { Some(t) => Some(t@), None => None }));
                match der::encode_user_notice(notice_ref, &text) {
                    Some(v) => Some((copy_oid(oid), Some((unotice, v)))),
                    None => None,
                }
            },
        }
    }
}

impl Extensions {
    /// Add a Subject Alternative Name, critical exactly when the subject name
    /// is empty. An empty list adds nothing.
    pub fn add_subject_alternative_name(&mut self, subject_alternative_names: &[(WellKnownGeneralName, String)], subject_dn_empty: bool) -> (r: bool)
        requires
            old(self).wf(),
        ensures
            final(self).wf(),
            subject_alternative_names@.len() == 0 ==> r && final(self).spec_view() == old(self).spec_view(),
            subject_alternative_names@.len() > 0 && r ==> exists|v: Seq<GeneralNameValue>| #[trigger] wire_forms(subject_alternative_names@, v)
                && final(self).spec_view() == put(old(self).spec_view(), (subject_alternative_name_oid(), subject_dn_empty,
                    der::der_general_names(v.map_values(|g: GeneralNameValue| der::general_name_view(g))))),
            !r ==> final(self).spec_view() == old(self).spec_view(),
    {
        if subject_alternative_names.len() == 0 {
            return true;
        }
        match AlternativeName::to_der(subject_alternative_names) {
            Some(v) => {
                let oid = vec![2u32, 5, 29, 17];
                assert(oid@ =~= subject_alternative_name_oid());
                self.set_extension(oid, subject_dn_empty, v);
                true
            },
            None => false,
        }
    }

    /// Add an Issuer Alternative Name, not critical. An empty list adds
    /// nothing.
    pub fn add_issuer_alternative_name(&mut self, issuer_alternative_names: &[(WellKnownGeneralName, String)]) -> (r: bool)
        requires
            old(self).wf(),
        ensures
            final(self).wf(),
            issuer_alternative_names@.len() == 0 ==> r && final(self).spec_view() == old(self).spec_view(),
            issuer_alternative_names@.len() > 0 && r ==> exists|v: Seq<GeneralNameValue>| #[trigger] wire_forms(issuer_alternative_names@, v)
                && final(self).spec_view() == put(old(self).spec_view(), (issuer_alternative_name_oid(), false,
                    der::der_general_names(v.map_values(|g: GeneralNameValue| der::general_name_view(g))))),
            !r ==> final(self).spec_view() == old(self).spec_view(),
    {
        if issuer_alternative_names.len() == 0 {
            return true;
        }
        match AlternativeName::to_der(issuer_alternative_names) {
            Some(v) => {
                let oid = vec![2u32, 5, 29, 18];
                assert(oid@ =~= issuer_alternative_name_oid());
                self.set_extension(oid, false, v);
                true
            },
            None => false,
        }
    }

    /// Add a CRL Distribution Point, not critical: one full-name URI for all
    /// reasons, issued by the certificate's issuer.
    pub fn add_crl_distribution_points(&mut self, crl_distribution_point_uri: &str) -> (r: bool)
        requires
            old(self).wf(),
        ensures
            final(self).wf(),
            r <==> crate::attributes::fits_alphabet(crate::attributes::Asn1EncodingType::IA5String, crl_distribution_point_uri@),
            r ==> final(self).spec_view() == put(old(self).spec_view(), (crl_distribution_points_oid(), false,
                der::der_distribution_points(seq![(Some(seq![crl_distribution_point_uri@]), None, None)]))),
            !r ==> final(self).spec_view() == old(self).spec_view(),
    {
        match crate::crl_distribution_points::CrlDistributionPoint::to_rasn_type(crl_distribution_point_uri) {
            Some(v) => {
                let oid = vec![2u32, 5, 29, 31];
                assert(oid@ =~= crl_distribution_points_oid());
                self.set_extension(oid, false, v);
                true
            },
            None => false,
        }
    }

    /// Add Authority Information Access, not critical. An empty list adds
    /// nothing.
    pub fn add_authority_information_access(&mut self, access_descriptions: &[AuthorityInfoAccessDescription]) -> (r: bool)
        requires
            old(self).wf(),
        ensures
            final(self).wf(),
            access_descriptions@.len() == 0 ==> r && final(self).spec_view() == old(self).spec_view(),
            access_descriptions@.len() > 0 && r ==> exists|v: Seq<u8>| final(self).spec_view() == put(old(self).spec_view(), (
                crate::authority_information_access::authority_information_access_oid(), false, v)),
            !r ==> final(self).spec_view() == old(self).spec_view(),
    {
        if access_descriptions.len() == 0 {
            return true;
        }
        match AuthorityInfoAccessDescription::to_rasn_type(access_descriptions) {
            Some(v) => {
                let oid = vec![1u32, 3, 6, 1, 5, 5, 7, 1, 1];
                assert(oid@ =~= crate::authority_information_access::authority_information_access_oid());
                self.set_extension(oid, false, v);
                true
            },
            None => false,
        }
    }

    /// Add Certificate Policies, not critical, each with the qualifier it
    /// carries when emitted. An empty list adds nothing.
    pub fn add_certificate_policies(&mut self, certificate_policies: &[CertificatePolicy]) -> (r: bool)
        requires
            old(self).wf(),
        ensures
            (forall|i: int| 0 <= i < certificate_policies@.len() ==> policy_encodes(#[trigger] certificate_policies@[i])) ==> r,
            final(self).wf(),
            certificate_policies@.len() == 0 ==> r && final(self).spec_view() == old(self).spec_view(),
            certificate_policies@.len() > 0 && r ==> exists|v: Seq<(Seq<u32>, Option<(Seq<u32>, Seq<u8>)>)>|
                emitted_policies(certificate_policies@, v)
                && final(self).spec_view() == put(old(self).spec_view(), (
                    crate::certificate_policies::certificate_policies_oid(), false, der::der_policies(v))),
            !r ==> final(self).spec_view() == old(self).spec_view(),
    {
        if certificate_policies.len() == 0 {
            return true;
        }
        match CertificatePolicy::to_rasn_type(certificate_policies) {
            Some(v) => {
                self.set_extension(crate::certificate_policies::certificate_policies_oid_vec(), false, v);
                true
            },
            None => false,
        }
    }
}

/// `v` lists the policies' identifiers with the qualifiers they carry when
/// emitted.
pub open spec fn emitted_policies(policies: Seq<CertificatePolicy>, v: Seq<(Seq<u32>, Option<(Seq<u32>, Seq<u8>)>)>) -> bool {
    v.len() == policies.len() && forall|i: int| 0 <= i < v.len() ==> (#[trigger] v[i]).0 == policies[i].spec_oid()
        && v[i].1 == emitted_qualifier(policies[i])
}

/// The DER of the access descriptions, one after another, each
/// `SEQUENCE { method, location }` with the given wire locations.
pub open spec fn access_descriptions_content(methods: Seq<Seq<u32>>, locations: Seq<GeneralNameValue>) -> Seq<u8>
    decreases methods.len(),
{
    if methods.len() == 0 || methods.len() != locations.len() {
        seq![]
    } else {
        access_descriptions_content(methods.drop_last(), locations.drop_last()) + crate::der_frame::der_tlv(0x30,
            der::der_oid(methods.last()) + der::der_general_name(der::general_name_view(locations.last())))
    }
}

/// `locations` holds the wire forms of the descriptions' locations.
pub open spec fn location_forms(ds: Seq<AuthorityInfoAccessDescription>, locations: Seq<GeneralNameValue>) -> bool {
    locations.len() == ds.len() && forall|i: int| 0 <= i < locations.len() ==> crate::general_name::wire_form(
        (#[trigger] ds[i]).spec_location_kind(), ds[i].spec_location_text(), locations[i])
}

impl AuthorityInfoAccessDescription {
    /// Return the DER of AuthorityInfoAccessSyntax for the descriptions;
    /// `None` when a location is not well-formed for its kind or its method
    /// is not an identifier the encoder takes.
    pub fn to_rasn_type(access_descriptions: &[AuthorityInfoAccessDescription]) -> (r: Option<Vec<u8>>)
        ensures
            r matches Some(b) ==> exists|locations: Seq<GeneralNameValue>| #[trigger] location_forms(access_descriptions@, locations)
                && b@ == crate::der_frame::der_tlv(0x30, access_descriptions_content(
                    Seq::new(access_descriptions@.len(), |i: int| access_descriptions@[i].spec_access_method()), locations)),
    {
        let mut content: Vec<u8> = Vec::new();
        let mut locations: Vec<GeneralNameValue> = Vec::new();
        let ghost methods = Seq::new(access_descriptions@.len(), |i: int| access_descriptions@[i].spec_access_method());
        let mut i: usize = 0;
        while i < access_descriptions.len()
            invariant
                methods == Seq::new(access_descriptions@.len(), |i: int| access_descriptions@[i].spec_access_method()),
                i <= access_descriptions@.len(),
                locations@.len() == i,
                forall|k: int| 0 <= k < i ==> crate::general_name::wire_form(
                    (#[trigger] access_descriptions@[k]).spec_location_kind(), access_descriptions@[k].spec_location_text(), locations@[k]),
                content@ == access_descriptions_content(methods.subrange(0, i as int), locations@),
            decreases access_descriptions@.len() - i,
        {
            let d = &access_descriptions[i];
            let (kind, text) = d.access_location();
            let value = match kind.to_rasn_type(text) {
                Some(v) => v,
                None => {
                    return None;
                },
            };
            let location = match der::encode_general_name(&value) {
                Some(g) => g,
                None => {
                    return None;
                },
            };
            let method = match der::encode_oid(&d.access_method_oid()) {
                Some(m) => m,
                None => {
                    return None;
                },
            };
            let mut body = method;
            let mut loc = location;
            body.append(&mut loc);
            let mut item = crate::der_frame::tlv(0x30, &body);
            let ghost before_content = content@;
            let ghost before_locations = locations@;
            content.append(&mut item);
            locations.push(value);
            proof {
                let m = methods.subrange(0, i as int + 1);
                assert(m.drop_last() =~= methods.subrange(0, i as int));
                assert(locations@.drop_last() =~= before_locations);
                assert(forall|k: int| 0 <= k < i ==> locations@[k] == before_locations[k]);
            }
            i += 1;
        }
        assert(methods.subrange(0, methods.len() as int) =~= methods);
        assert(location_forms(access_descriptions@, locations@));
        Some(crate::der_frame::tlv(0x30, &content))
    }
}

impl CertificatePolicy {
    /// Return the DER of CertificatePolicies for the policies, each with the
    /// qualifier it carries when emitted.
    pub fn to_rasn_type(certificate_policies: &[CertificatePolicy]) -> (r: Option<Vec<u8>>)
        ensures
            r matches Some(b) ==> exists|v: Seq<(Seq<u32>, Option<(Seq<u32>, Seq<u8>)>)>|
                emitted_policies(certificate_policies@, v) && b@ == der::der_policies(v),
            (forall|i: int| 0 <= i < certificate_policies@.len() ==> policy_encodes(#[trigger] certificate_policies@[i])) ==> r is Some,
    {
        let mut items: Vec<(Vec<u32>, Option<(Vec<u32>, Vec<u8>)>)> = Vec::new();
        let mut i: usize = 0;
        while i < certificate_policies.len()
            invariant
                i <= certificate_policies@.len(),
                items@.len() == i,
                forall|k: int| 0 <= k < i ==> (#[trigger] der::policies_view(items@)[k]).0 == certificate_policies@[k].spec_oid()
                    && der::policies_view(items@)[k].1 == emitted_qualifier(certificate_policies@[k]),
                forall|k: int| 0 <= k < i ==> ((#[trigger] items@[k]).1 matches Some(q) ==> (q.0@ == qualifier_cps_oid() || q.0@ == qualifier_user_notice_oid())),
            decreases certificate_policies@.len() - i,
        {
            match certificate_policies[i].as_policy_information() {
                Some(p) => {
                    let ghost before = items@;
                    items.push(p);
                    proof {
                        assert forall|k: int| 0 <= k < i + 1 implies (#[trigger] der::policies_view(items@)[k]).0 == certificate_policies@[k].spec_oid()
                            && der::policies_view(items@)[k].1 == emitted_qualifier(certificate_policies@[k]) by {
                            if k < i {
                                assert(items@[k] == before[k]);
                                assert(der::policies_view(before)[k] == der::policies_view(items@)[k]);
                            }
                        }
                    }
                },
                None => {
                    return None;
                },
            }
            i += 1;
        }
        proof {
            assert(der::oid_encodes(qualifier_cps_oid()));
            assert(der::oid_encodes(qualifier_user_notice_oid()));
            if forall|i: int| 0 <= i < certificate_policies@.len() ==> policy_encodes(#[trigger] certificate_policies@[i]) {
                assert forall|i: int| 0 <= i < items@.len() implies der::oid_encodes((#[trigger] items@[i]).0@)
                    && (items@[i].1 matches Some(q) ==> der::oid_encodes(q.0@)) by {
                    assert(der::policies_view(items@)[i].0 == items@[i].0@);
                    assert(policy_encodes(certificate_policies@[i]));
                }
            }
        }
        let r = der::encode_policies(&items);
        proof {
            if r is Some {
                assert(emitted_policies(certificate_policies@, der::policies_view(items@)));
            }
        }
        r
    }
}

} // verus!
