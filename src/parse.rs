//! Certificate parser: a DER certificate decoded once into the plain values
//! that readers and the path validator use.
use vstd::prelude::*;
use crate::basic_constraints::BasicConstraints;
use crate::certificate_policies::CertificatePolicy;
use crate::extended_key_usage::ExtendedKeyUsage;
use crate::oid::same_oid;
use crate::validity::Validity;
use crate::serial_number::SerialNumber;
use crate::errors::{CertificateParsingError, CertificateParsingErrorKind};
use crate::basic_constraints::basic_constraints_oid_vec;
use crate::key_usage::{key_usage_oid_vec, KeyUsage};
use crate::extended_key_usage::extended_key_usage_oid_vec;
use crate::certificate_policies::{certificate_policies_oid_vec, qualifier_cps_oid, qualifier_user_notice_oid};
use crate::key_identifier::{authority_key_identifier_oid_vec, subject_key_identifier_oid_vec};
use crate::der;
use crate::text::hex_of;
use crate::digest::sha3_512;

verus! {

/// One extension as carried in the certificate.
#[derive(Debug, Clone)]
pub struct RawExtension {
    pub oid: Vec<u32>,
    pub critical: bool,
    pub value: Vec<u8>,
}

/// A decoded certificate.
#[derive(Debug)]
pub struct CertificateParser {
    /// Lower-case hex SHA3-512 of the encoded certificate.
    pub fingerprint: String,
    /// DER of the part covered by the signature.
    pub tbs_der: Vec<u8>,
    /// DER of the subject name.
    pub subject_der: Vec<u8>,
    /// DER of the issuer name.
    pub issuer_der: Vec<u8>,
    /// DER of the SubjectPublicKeyInfo.
    pub spki_der: Vec<u8>,
    pub validity: Validity,
    pub serial_number: SerialNumber,
    /// Signature algorithm object identifier.
    pub signature_oid: Vec<u32>,
    /// Signature octets.
    pub signature_value: Vec<u8>,
    /// Extensions in certificate order.
    pub extensions: Vec<RawExtension>,
    pub basic_constraints: Option<BasicConstraints>,
    /// Key Usage flags, `[0]` `DigitalSignature` to `[8]` `DecipherOnly`.
    pub key_usage: Option<[bool; 9]>,
    pub extended_key_usage: Vec<ExtendedKeyUsage>,
    /// Key identifier of the Authority Key Identifier extension.
    pub authority_key_identifier: Option<Vec<u8>>,
    /// Key identifier of the Subject Key Identifier extension.
    pub subject_key_identifier: Option<Vec<u8>>,
    pub certificate_policies: Vec<CertificatePolicy>,
}

/// `true` when certificate `c` carries a critical extension with object
/// identifier `o`.
pub open spec fn has_critical(c: CertificateParser, o: Seq<u32>) -> bool {
    exists|i: int| 0 <= i < c.extensions@.len() && c.extensions@[i].critical && (#[trigger] c.extensions@[i]).oid@ == o
}

/// `true` when `s` holds an element whose view is `o`.
pub open spec fn has_oid(s: Seq<Vec<u32>>, o: Seq<u32>) -> bool {
    exists|i: int| 0 <= i < s.len() && (#[trigger] s[i])@ == o
}

/// Return a copy of an object identifier.
pub fn copy_oid(v: &Vec<u32>) -> (r: Vec<u32>)
    ensures
        r@ == v@,
{
    let mut r: Vec<u32> = Vec::new();
    let mut i: usize = 0;
    while i < v.len()
        invariant
            i <= v@.len(),
            r@ == v@.subrange(0, i as int),
        decreases v@.len() - i,
    {
        r.push(v[i]);
        i += 1;
    }
    assert(r@ =~= v@);
    r
}

impl CertificateParser {
    /// Return the object identifiers of all critical extensions, in
    /// certificate order.
    pub fn get_critical_extension_oids(&self) -> (r: Vec<Vec<u32>>)
        ensures
            forall|o: Seq<u32>| has_oid(r@, o) <==> has_critical(*self, o),
    {
        let mut r: Vec<Vec<u32>> = Vec::new();
        let mut i: usize = 0;
        while i < self.extensions.len()
            invariant
                i <= self.extensions@.len(),
                forall|o: Seq<u32>| has_oid(r@, o) <==> exists|k: int| 0 <= k < i && self.extensions@[k].critical && (#[trigger] self.extensions@[k]).oid@ == o,
            decreases self.extensions@.len() - i,
        {
            let e = &self.extensions[i];
            if e.critical {
                let ghost before = r@;
                r.push(copy_oid(&e.oid));
                proof {
                    assert(r@[before.len() as int]@ == self.extensions@[i as int].oid@);
                    assert forall|o: Seq<u32>| has_oid(r@, o) <==> exists|k: int| 0 <= k < i + 1 && self.extensions@[k].critical && (#[trigger] self.extensions@[k]).oid@ == o by {
                        if has_oid(r@, o) {
                            let j = choose|j: int| 0 <= j < r@.len() && (#[trigger] r@[j])@ == o;
                            if j < before.len() {
                                assert(before[j] == r@[j]);
                                assert(has_oid(before, o));
                            }
                        }
                        if exists|k: int| 0 <= k < i + 1 && self.extensions@[k].critical && (#[trigger] self.extensions@[k]).oid@ == o {
                            let k = choose|k: int| 0 <= k < i + 1 && self.extensions@[k].critical && (#[trigger] self.extensions@[k]).oid@ == o;
                            if k < i {
                                assert(has_oid(before, o));
                                let j = choose|j: int| 0 <= j < before.len() && (#[trigger] before[j])@ == o;
                                assert(r@[j] == before[j]);
                            } else {
                                assert(r@[before.len() as int]@ == o);
                            }
                        }
                    }
                }
            } else {
                proof {
                    assert forall|o: Seq<u32>| has_oid(r@, o) <==> exists|k: int| 0 <= k < i + 1 && self.extensions@[k].critical && (#[trigger] self.extensions@[k]).oid@ == o by {
                        if exists|k: int| 0 <= k < i + 1 && self.extensions@[k].critical && (#[trigger] self.extensions@[k]).oid@ == o {
                            let k = choose|k: int| 0 <= k < i + 1 && self.extensions@[k].critical && (#[trigger] self.extensions@[k]).oid@ == o;
                            assert(k < i);
                        }
                    }
                }
            }
            i += 1;
        }
        r
    }

}

} // verus!

verus! {

/// Return a copy of a byte string.
pub fn copy_bytes(v: &Vec<u8>) -> (r: Vec<u8>)
    ensures
        r@ == v@,
{
    let mut r: Vec<u8> = Vec::new();
    let mut i: usize = 0;
    while i < v.len()
        invariant
            i <= v@.len(),
            r@ == v@.subrange(0, i as int),
        decreases v@.len() - i,
    {
        r.push(v[i]);
        i += 1;
    }
    assert(r@ =~= v@);
    r
}

/// Return `true` when both byte strings are equal.
pub fn same_bytes(a: &[u8], b: &[u8]) -> (r: bool)
    ensures
        r == (a@ == b@),
{
    if a.len() != b.len() {
        return false;
    }
    let mut i: usize = 0;
    while i < a.len()
        invariant
            a@.len() == b@.len(),
            i <= a@.len(),
            forall|j: int| 0 <= j < i ==> a@[j] == b@[j],
        decreases a@.len() - i,
    {
        if a[i] != b[i] {
            return false;
        }
        i += 1;
    }
    assert(a@ =~= b@);
    true
}

/// An element of `a + b` with view `o` sits in `a` or in `b`.
pub proof fn lemma_has_oid_concat(a: Seq<Vec<u32>>, b: Seq<Vec<u32>>, o: Seq<u32>)
    ensures
        has_oid(a + b, o) <==> (has_oid(a, o) || has_oid(b, o)),
{
    if has_oid(a + b, o) {
        let i = choose|i: int| 0 <= i < (a + b).len() && (#[trigger] (a + b)[i])@ == o;
        if i < a.len() {
            assert(a[i] == (a + b)[i]);
        } else {
            assert(b[i - a.len()] == (a + b)[i]);
        }
    }
    if has_oid(a, o) {
        let i = choose|i: int| 0 <= i < a.len() && (#[trigger] a[i])@ == o;
        assert((a + b)[i] == a[i]);
    }
    if has_oid(b, o) {
        let i = choose|i: int| 0 <= i < b.len() && (#[trigger] b[i])@ == o;
        assert((a + b)[i + a.len()] == b[i]);
    }
}

} // verus!

verus! {

/// The view of one extension: arcs, criticality, value.
pub open spec fn ext_view(e: RawExtension) -> (Seq<u32>, bool, Seq<u8>) {
    (e.oid@, e.critical, e.value@)
}

/// The views of a list of extensions.
pub open spec fn exts_view(s: Seq<RawExtension>) -> Seq<(Seq<u32>, bool, Seq<u8>)> {
    s.map_values(|e: RawExtension| ext_view(e))
}

/// Position of the first extension at or after `i` with object identifier
/// `oid`, or -1.
pub open spec fn first_ext_from(exts: Seq<(Seq<u32>, bool, Seq<u8>)>, oid: Seq<u32>, i: int) -> int
    decreases exts.len() - i,
{
    if i < 0 || i >= exts.len() {
        -1
    } else if exts[i].0 == oid {
        i
    } else {
        first_ext_from(exts, oid, i + 1)
    }
}

/// The value of the first extension with object identifier `oid`.
pub open spec fn ext_value(exts: Seq<(Seq<u32>, bool, Seq<u8>)>, oid: Seq<u32>) -> Option<Seq<u8>> {
    let k = first_ext_from(exts, oid, 0);
    if 0 <= k < exts.len() {
        Some(exts[k].2)
    } else {
        None
    }
}

/// Basic Constraints as decoded from the extensions: `Some(None)` when
/// absent, `None` when the value does not decode.
pub open spec fn decoded_basic_constraints(exts: Seq<(Seq<u32>, bool, Seq<u8>)>) -> Option<Option<BasicConstraints>> {
    match ext_value(exts, crate::basic_constraints::basic_constraints_oid()) {
        None => Some(None),
        Some(v) => match der::basic_constraints_of_der(v) {
            Some((ca, path_len)) => Some(Some(BasicConstraints { ca, path_len })),
            None => None,
        },
    }
}

/// Key identifier of the Subject Key Identifier extension as decoded.
pub open spec fn decoded_subject_key_id(exts: Seq<(Seq<u32>, bool, Seq<u8>)>) -> Option<Option<Seq<u8>>> {
    match ext_value(exts, crate::key_identifier::subject_key_identifier_oid()) {
        None => Some(None),
        Some(v) => match der::octets_of_der(v) {
            Some(k) => Some(Some(k)),
            None => None,
        },
    }
}

/// Key identifier of the Authority Key Identifier extension as decoded.
pub open spec fn decoded_authority_key_id(exts: Seq<(Seq<u32>, bool, Seq<u8>)>) -> Option<Option<Seq<u8>>> {
    match ext_value(exts, crate::key_identifier::authority_key_identifier_oid()) {
        None => Some(None),
        Some(v) => der::authority_key_id_of_der(v),
    }
}

/// Every extension that the parser reads decodes.
pub open spec fn extensions_read(x: Seq<(Seq<u32>, bool, Seq<u8>)>) -> bool {
    &&& decoded_basic_constraints(x) is Some
    &&& decoded_subject_key_id(x) is Some
    &&& decoded_authority_key_id(x) is Some
    &&& (ext_value(x, crate::key_usage::key_usage_oid()) matches Some(v) ==> der::key_usage_bits_of_der(v) is Some)
    &&& (ext_value(x, crate::extended_key_usage::extended_key_usage_oid()) matches Some(v) ==> der::oids_of_der(v) is Some)
    &&& (ext_value(x, crate::certificate_policies::certificate_policies_oid()) matches Some(v) ==> policies_decode(v))
}

/// The bytes are a certificate that the parser accepts: it decodes, its
/// parts encode, its validity lies after the epoch, and every extension the
/// parser reads decodes.
pub open spec fn parses(der: Seq<u8>) -> bool {
    &&& der::certificate_decodes(der)
    &&& der::tbs_der_of(der) is Some
    &&& der::subject_der_of(der) is Some
    &&& der::issuer_der_of(der) is Some
    &&& der::spki_der_of(der) is Some
    &&& der::validity_of(der) matches Some((a, b)) && a >= 0 && b >= 0
    &&& der::serial_of(der) is Some
    &&& der::signature_of(der) is Some
    &&& der::extensions_of(der) matches Some(x) && extensions_read(x)
}

/// `c` holds what the codec reads from `der`.
pub open spec fn parsed_certificate(c: CertificateParser, der: Seq<u8>) -> bool {
    let x = exts_view(c.extensions@);
    &&& c.fingerprint@ == hex_of(sha3_512(der))
    &&& der::tbs_der_of(der) == Some(c.tbs_der@)
    &&& der::subject_der_of(der) == Some(c.subject_der@)
    &&& der::issuer_der_of(der) == Some(c.issuer_der@)
    &&& der::spki_der_of(der) == Some(c.spki_der@)
    &&& der::validity_of(der) matches Some((a, b)) && c.validity.not_before_epoch_seconds == a && c.validity.not_after_epoch_seconds == b
    &&& der::serial_of(der) == Some(c.serial_number.octets@)
    &&& der::signature_of(der) == Some((c.signature_oid@, c.signature_value@))
    &&& der::extensions_of(der) == Some(x)
    &&& decoded_basic_constraints(x) == Some(c.basic_constraints)
    &&& decoded_subject_key_id(x) == Some(opt_bytes(c.subject_key_identifier))
    &&& decoded_authority_key_id(x) == Some(opt_bytes(c.authority_key_identifier))
    &&& (c.key_usage is Some <==> ext_value(x, crate::key_usage::key_usage_oid()) is Some)
    &&& (c.key_usage matches Some(flags) ==> ({
        let bits = der::key_usage_bits_of_der(ext_value(x, crate::key_usage::key_usage_oid()).unwrap()).unwrap();
        forall|i: int| 0 <= i < 9 ==> flags@[i] == (i < bits.len() && bits[i])
    }))
}

/// The optional bytes as a sequence.
pub open spec fn opt_bytes(o: Option<Vec<u8>>) -> Option<Seq<u8>> {
    match o {
        Some(v) => Some(v@),
        None => None,
    }
}

/// The position of the first extension with object identifier `oid`.
pub fn first_extension(exts: &Vec<RawExtension>, oid: &[u32]) -> (r: Option<usize>)
    ensures
        match r {
            Some(i) => i < exts@.len() && first_ext_from(exts_view(exts@), oid@, 0) == i,
            None => first_ext_from(exts_view(exts@), oid@, 0) == -1,
        },
{
    let mut i: usize = 0;
    while i < exts.len()
        invariant
            i <= exts@.len(),
            first_ext_from(exts_view(exts@), oid@, 0) == first_ext_from(exts_view(exts@), oid@, i as int),
        decreases exts@.len() - i,
    {
        if same_oid(exts[i].oid.as_slice(), oid) {
            return Some(i);
        }
        i += 1;
    }
    None
}

fn decoding_error(msg: &str) -> (r: CertificateParsingError)
    ensures
        r.kind == CertificateParsingErrorKind::CertificateDecodingError,
{
    CertificateParsingErrorKind::CertificateDecodingError.error_with_msg(msg)
}

fn text_of(b: &Vec<u8>) -> (r: Result<String, CertificateParsingError>)
    ensures
        r is Ok <==> der::display_text_of_der(b@) is Some,
        r matches Ok(s) ==> der::display_text_of_der(b@) == Some(s@),
        r matches Err(e) ==> e.kind == CertificateParsingErrorKind::CertificateDecodingError,
{
    match der::decode_display_text(b.as_slice()) {
        Some(s) => Ok(s),
        None => Err(decoding_error("DisplayText does not decode.")),
    }
}

/// The qualifiers of a policy decode: the first one, when it is a CPS
/// pointer, is a DisplayText; when it is a user notice, the notice and its
/// texts decode. Other qualifiers are not read.
pub open spec fn policy_decodes(qualifiers: Seq<(Seq<u32>, Seq<u8>)>) -> bool {
    qualifiers.len() == 0 || if qualifiers[0].0 == qualifier_cps_oid() {
        der::display_text_of_der(qualifiers[0].1) is Some
    } else if qualifiers[0].0 == qualifier_user_notice_oid() {
        match der::user_notice_of_der(qualifiers[0].1) {
            Some((n, t)) => (n matches Some((o, _)) ==> der::display_text_of_der(o) is Some)
                && (t matches Some(x) ==> der::display_text_of_der(x) is Some),
            None => false,
        }
    } else {
        true
    }
}

/// Every policy of a decoded CertificatePolicies value decodes.
pub open spec fn policies_decode(b: Seq<u8>) -> bool {
    match der::policies_of_der(b) {
        Some(ps) => forall|i: int| 0 <= i < ps.len() ==> policy_decodes(#[trigger] ps[i].1),
        None => false,
    }
}

/// Build a policy from its object identifier and qualifiers: the first
/// qualifier, when it is a CPS pointer or a user notice, gives the variant;
/// otherwise the policy is given by its object identifier alone.
pub fn from_policy_information(oid: Vec<u32>, qualifiers: &Vec<(Vec<u32>, Vec<u8>)>) -> (r: Result<CertificatePolicy, CertificateParsingError>)
    ensures
        r is Ok <==> policy_decodes(qualifiers@.map_values(|q: (Vec<u32>, Vec<u8>)| (q.0@, q.1@))),
        r matches Ok(p) ==> p.spec_oid() == oid@,
        qualifiers@.len() == 0 ==> (r matches Ok(CertificatePolicy::OidPolicy { oid: o }) && o@ == oid@),
        qualifiers@.len() > 0 && qualifiers@[0].0@ == qualifier_cps_oid() ==> (r is Err || r matches Ok(CertificatePolicy::CspPolicy { .. })),
        qualifiers@.len() > 0 && qualifiers@[0].0@ == qualifier_user_notice_oid() ==> (r is Err || r matches Ok(CertificatePolicy::UserNoticePolicy { .. })),
        qualifiers@.len() > 0 && qualifiers@[0].0@ != qualifier_cps_oid() && qualifiers@[0].0@ != qualifier_user_notice_oid()
            ==> (r matches Ok(CertificatePolicy::OidPolicy { oid: o }) && o@ == oid@),
        r matches Err(e) ==> e.kind == CertificateParsingErrorKind::CertificateDecodingError,
{
    let ghost qs = qualifiers@.map_values(|q: (Vec<u32>, Vec<u8>)| (q.0@, q.1@));
    if qualifiers.len() == 0 {
        return Ok(CertificatePolicy::OidPolicy { oid });
    }
    let cps = vec![1u32, 3, 6, 1, 5, 5, 7, 2, 1];
    let unotice = vec![1u32, 3, 6, 1, 5, 5, 7, 2, 2];
    assert(cps@ =~= qualifier_cps_oid());
    assert(unotice@ =~= qualifier_user_notice_oid());
    let q = &qualifiers[0];
    assert(qs[0] == (q.0@, q.1@));
    if same_oid(q.0.as_slice(), cps.as_slice()) {
        let uri = text_of(&q.1)?;
        Ok(CertificatePolicy::CspPolicy { oid, uri })
    } else if same_oid(q.0.as_slice(), unotice.as_slice()) {
        let (notice, text) = match der::decode_user_notice(q.1.as_slice()) {
            Some(n) => n,
            None => {
                return Err(decoding_error("User notice qualifier does not decode."));
            },
        };
        let notice_ref = match notice {
            Some((org, numbers)) => Some((text_of(&org)?, numbers)),
            None => None,
        };
        let explicit_text = match text {
            Some(t) => Some(text_of(&t)?),
            None => None,
        };
        Ok(CertificatePolicy::UserNoticePolicy { oid, notice_ref, explicit_text })
    } else {
        Ok(CertificatePolicy::OidPolicy { oid })
    }
}

impl crate::authority_information_access::AuthorityInfoAccessDescription {
    /// Return the descriptions that DER AuthorityInfoAccessSyntax holds, in
    /// order. A location that is not a well-known name fails.
    pub fn from_rasn_type(access_descriptions: &[u8]) -> (r: Result<Vec<crate::authority_information_access::AuthorityInfoAccessDescription>, CertificateParsingError>)
        ensures
            r matches Err(e) ==> e.kind == CertificateParsingErrorKind::CertificateDecodingError,
    {
        let items = match der::decode_access_descriptions(access_descriptions) {
            Some(v) => v,
            None => {
                return Err(decoding_error("Authority Information Access does not decode."));
            },
        };
        let mut out: Vec<crate::authority_information_access::AuthorityInfoAccessDescription> = Vec::new();
        let mut k: usize = 0;
        while k < items.len()
            decreases items@.len() - k,
        {
            let value = der::general_name_from_rasn(&items[k].1);
            match crate::general_name::WellKnownGeneralName::from_rasn_type(&value) {
                Some(location) => out.push(from_access_description(&items[k].0, location)),
                None => {
                    return Err(decoding_error("Access location is not a well-known name."));
                },
            }
            k += 1;
        }
        Ok(out)
    }
}

impl CertificatePolicy {
    /// Return the policies that DER CertificatePolicies holds, in order.
    pub fn from_rasn_type(policies: &[u8]) -> (r: Result<Vec<CertificatePolicy>, CertificateParsingError>)
        ensures
            r is Ok <==> policies_decode(policies@),
            r matches Ok(v) ==> der::policies_of_der(policies@) matches Some(ps) && v@.len() == ps.len()
                && forall|i: int| 0 <= i < ps.len() ==> (#[trigger] v@[i]).spec_oid() == ps[i].0,
            r matches Err(e) ==> e.kind == CertificateParsingErrorKind::CertificateDecodingError,
    {
        let infos = match der::decode_policies(policies) {
            Some(v) => v,
            None => {
                return Err(decoding_error("Certificate Policies do not decode."));
            },
        };
        let ghost ps = der::policy_infos_view(infos@);
        let mut out: Vec<CertificatePolicy> = Vec::new();
        let mut i: usize = 0;
        while i < infos.len()
            invariant
                ps == der::policy_infos_view(infos@),
                der::policies_of_der(policies@) == Some(ps),
                i <= infos@.len(),
                out@.len() == i,
                forall|k: int| 0 <= k < i ==> policy_decodes(#[trigger] ps[k].1),
                forall|k: int| 0 <= k < i ==> (#[trigger] out@[k]).spec_oid() == ps[k].0,
            decreases infos@.len() - i,
        {
            let oid = copy_oid(&infos[i].0);
            assert(ps[i as int].1 =~= infos@[i as int].1@.map_values(|q: (Vec<u32>, Vec<u8>)| (q.0@, q.1@)));
            let p = match from_policy_information(oid, &infos[i].1) {
                Ok(p) => p,
                Err(e) => {
                    assert(!policies_decode(policies@));
                    return Err(e);
                },
            };
            let ghost before = out@;
            out.push(p);
            assert(forall|k: int| 0 <= k < i ==> out@[k] == before[k]);
            i += 1;
        }
        Ok(out)
    }
}

impl CertificateParser {
    /// Decode a DER certificate. Its fingerprint is the lower-case hex
    /// SHA3-512 of the bytes; the extensions that validation reads are
    /// decoded at once, and any that does not decode fails the parse.
    pub fn from_bytes(encoded_certificate: &[u8]) -> (r: Result<Self, CertificateParsingError>)
        ensures
            r is Ok <==> parses(encoded_certificate@),
            r matches Ok(p) ==> parsed_certificate(p, encoded_certificate@),
            r matches Err(e) ==> e.kind == CertificateParsingErrorKind::CertificateDecodingError,
    {
        let ghost der_bytes = encoded_certificate@;
        let fingerprint = crate::fingerprint_data(encoded_certificate);
        match der::decode_certificate(encoded_certificate) {
            Ok(()) => {},
            Err(m) => {
                let mut msg = String::new();
                crate::text::push_text(&mut msg, "Error while decoding data with fingerprint '");
                crate::text::push_text(&mut msg, fingerprint.as_str());
                crate::text::push_text(&mut msg, "': ");
                crate::text::push_text(&mut msg, m.as_str());
                return Err(decoding_error(msg.as_str()));
            },
        }
        let tbs_der = match der::certificate_tbs_der(encoded_certificate) {
            Some(v) => v,
            None => { return Err(decoding_error("TBSCertificate does not encode.")); },
        };
        let subject_der = match der::certificate_subject_der(encoded_certificate) {
            Some(v) => v,
            None => { return Err(decoding_error("Subject does not encode.")); },
        };
        let issuer_der = match der::certificate_issuer_der(encoded_certificate) {
            Some(v) => v,
            None => { return Err(decoding_error("Issuer does not encode.")); },
        };
        let spki_der = match der::certificate_spki_der(encoded_certificate) {
            Some(v) => v,
            None => { return Err(decoding_error("SubjectPublicKeyInfo does not encode.")); },
        };
        let (not_before, not_after) = match der::certificate_validity_seconds(encoded_certificate) {
            Some(v) => v,
            None => { return Err(decoding_error("Validity does not decode.")); },
        };
        if not_before < 0 || not_after < 0 {
            return Err(decoding_error("Validity lies before the epoch."));
        }
        let validity = Validity::new(not_before as u64, not_after as u64);
        let serial_octets = match der::certificate_serial(encoded_certificate) {
            Some(v) => v,
            None => { return Err(decoding_error("Serial number does not decode.")); },
        };
        let serial_number = SerialNumber::from_rasn_type(serial_octets);
        let (signature_oid, signature_value) = match der::certificate_signature(encoded_certificate) {
            Some(v) => v,
            None => { return Err(decoding_error("Signature does not decode.")); },
        };
        let extensions = match der::certificate_extensions(encoded_certificate) {
            Some(v) => v,
            None => { return Err(decoding_error("Extensions do not decode.")); },
        };
        let ghost x = exts_view(extensions@);
        let basic_constraints = match first_extension(&extensions, basic_constraints_oid_vec().as_slice()) {
            None => None,
            Some(i) => match BasicConstraints::from_rasn_type(extensions[i].value.as_slice()) {
                Some(bc) => Some(bc),
                None => { return Err(decoding_error("Basic Constraints do not decode.")); },
            },
        };
        let key_usage = match first_extension(&extensions, key_usage_oid_vec().as_slice()) {
            None => None,
            Some(i) => match KeyUsage::from_rasn_type(extensions[i].value.as_slice()) {
                Some(flags) => Some(flags),
                None => { return Err(decoding_error("Key Usage does not decode.")); },
            },
        };
        let mut extended_key_usage: Vec<ExtendedKeyUsage> = Vec::new();
        match first_extension(&extensions, extended_key_usage_oid_vec().as_slice()) {
            None => {},
            Some(i) => match der::decode_oids(extensions[i].value.as_slice()) {
                Some(oids) => {
                    let mut k: usize = 0;
                    while k < oids.len()
                        decreases oids@.len() - k,
                    {
                        extended_key_usage.push(ExtendedKeyUsage::from_oid(oids[k].as_slice()));
                        k += 1;
                    }
                },
                None => { return Err(decoding_error("Extended Key Usage does not decode.")); },
            },
        }
        let authority_key_identifier = match first_extension(&extensions, authority_key_identifier_oid_vec().as_slice()) {
            None => None,
            Some(i) => match der::decode_authority_key_identifier(extensions[i].value.as_slice()) {
                Some(kid) => kid,
                None => { return Err(decoding_error("Authority Key Identifier does not decode.")); },
            },
        };
        let subject_key_identifier = match first_extension(&extensions, subject_key_identifier_oid_vec().as_slice()) {
            None => None,
            Some(i) => match der::decode_octet_string(extensions[i].value.as_slice()) {
                Some(kid) => Some(kid),
                None => { return Err(decoding_error("Subject Key Identifier does not decode.")); },
            },
        };
        let certificate_policies = match first_extension(&extensions, certificate_policies_oid_vec().as_slice()) {
            None => Vec::new(),
            Some(i) => CertificatePolicy::from_rasn_type(extensions[i].value.as_slice())?,
        };
        Ok(CertificateParser {
            fingerprint,
            tbs_der,
            subject_der,
            issuer_der,
            spki_der,
            validity,
            serial_number,
            signature_oid,
            signature_value,
            extensions,
            basic_constraints,
            key_usage,
            extended_key_usage,
            authority_key_identifier,
            subject_key_identifier,
            certificate_policies,
        })
    }
}

} // verus!

verus! {

impl CertificateParser {
    /// Return the fingerprint of the encoded certificate.
    pub fn fingerprint(&self) -> (r: &str)
        ensures
            r@ == self.fingerprint@,
    {
        self.fingerprint.as_str()
    }

    /// Return the certificate validity (in Unix epoch seconds).
    pub fn get_validity(&self) -> (r: Validity)
        ensures
            r == self.validity,
    {
        self.validity
    }

    /// Return the DER of the part of the certificate covered by the signature.
    pub fn get_encoded_tbs_certificate(&self) -> (r: Vec<u8>)
        ensures
            r@ == self.tbs_der@,
    {
        copy_bytes(&self.tbs_der)
    }

    /// Return the certificate serial number.
    pub fn get_serial_number(&self) -> (r: SerialNumber)
        ensures
            r.octets@ == self.serial_number.octets@,
    {
        SerialNumber::from_rasn_type(copy_bytes(&self.serial_number.octets))
    }

    /// Return the DER of the subject name.
    pub fn get_encoded_subject(&self) -> (r: Vec<u8>)
        ensures
            r@ == self.subject_der@,
    {
        copy_bytes(&self.subject_der)
    }

    /// Return the DER of the issuer name.
    pub fn get_encoded_issuer(&self) -> (r: Vec<u8>)
        ensures
            r@ == self.issuer_der@,
    {
        copy_bytes(&self.issuer_der)
    }

    /// Return the fingerprint of the DER subject name.
    pub fn get_subject_fingerprint(&self) -> (r: String)
        ensures
            r@ == hex_of(sha3_512(self.subject_der@)),
    {
        crate::fingerprint_data(self.subject_der.as_slice())
    }

    /// Return the fingerprint of the DER issuer name.
    pub fn get_issuer_fingerprint(&self) -> (r: String)
        ensures
            r@ == hex_of(sha3_512(self.issuer_der@)),
    {
        crate::fingerprint_data(self.issuer_der.as_slice())
    }

    /// Return the DER of the SubjectPublicKeyInfo.
    pub fn get_encoded_subject_public_key_info(&self) -> (r: Vec<u8>)
        ensures
            r@ == self.spki_der@,
    {
        copy_bytes(&self.spki_der)
    }

    /// Return the signature algorithm as dotted decimal text and the
    /// signature octets. Algorithm parameters are not compared.
    pub fn get_encoded_signature(&self) -> (r: (String, Vec<u8>))
        ensures
            r.0@ == crate::oid::oid_text(self.signature_oid@),
            r.1@ == self.signature_value@,
    {
        (crate::oid::as_string(self.signature_oid.as_slice()), copy_bytes(&self.signature_value))
    }

    /// Return Basic Constraints, when present.
    pub fn get_basic_constraints(&self) -> (r: Option<BasicConstraints>)
        ensures
            r == self.basic_constraints,
    {
        self.basic_constraints
    }

    /// Return the nine Key Usage flags, `[0]` `DigitalSignature` to `[8]`
    /// `DecipherOnly`, when the extension is present.
    pub fn get_key_usage(&self) -> (r: Option<[bool; 9]>)
        ensures
            r == self.key_usage,
    {
        self.key_usage
    }

    /// Return the Extended Key Usages (empty when absent).
    pub fn get_extended_key_usage(&self) -> (r: &Vec<ExtendedKeyUsage>)
        ensures
            r@ == self.extended_key_usage@,
    {
        &self.extended_key_usage
    }

    /// Return the key identifier of the Authority Key Identifier, if present.
    pub fn get_authority_key_identifier_kid(&self) -> (r: Option<Vec<u8>>)
        ensures
            opt_bytes(r) == opt_bytes(self.authority_key_identifier),
    {
        match &self.authority_key_identifier {
            Some(k) => Some(copy_bytes(k)),
            None => None,
        }
    }

    /// Return the key identifier of the Subject Key Identifier, if present.
    pub fn get_subject_key_identifier_kid(&self) -> (r: Option<Vec<u8>>)
        ensures
            opt_bytes(r) == opt_bytes(self.subject_key_identifier),
    {
        match &self.subject_key_identifier {
            Some(k) => Some(copy_bytes(k)),
            None => None,
        }
    }

    /// Return the Certificate Policies (empty when absent).
    pub fn get_certificate_policies(&self) -> (r: &Vec<CertificatePolicy>)
        ensures
            r@ == self.certificate_policies@,
    {
        &self.certificate_policies
    }
}

} // verus!

verus! {

/// Build an access description from its method and location.
pub fn from_access_description(method: &Vec<u32>, location: (crate::general_name::WellKnownGeneralName, String)) -> (r: crate::authority_information_access::AuthorityInfoAccessDescription)
    ensures
        r.spec_access_method() == method@,
{
    let ocsp = vec![1u32, 3, 6, 1, 5, 5, 7, 48, 1];
    let ca = vec![1u32, 3, 6, 1, 5, 5, 7, 48, 2];
    assert(ocsp@ =~= crate::authority_information_access::access_method_ocsp());
    assert(ca@ =~= crate::authority_information_access::access_method_ca_issuers());
    if same_oid(method.as_slice(), ocsp.as_slice()) {
        crate::authority_information_access::AuthorityInfoAccessDescription::Ocsp { uri: location.1 }
    } else if same_oid(method.as_slice(), ca.as_slice()) {
        crate::authority_information_access::AuthorityInfoAccessDescription::CaIssuers { access_location: location }
    } else {
        crate::authority_information_access::AuthorityInfoAccessDescription::Other { oid: copy_oid(method), access_location: location }
    }
}

} // verus!

verus! {

impl CertificateParser {
    /// Return the subject name; every attribute must be well known.
    pub fn get_subject(&self) -> (r: Result<crate::distinguished_name::DistinguishedName, CertificateParsingError>)
        ensures
            r matches Err(e) ==> e.kind == CertificateParsingErrorKind::CertificateDecodingError,
    {
        match crate::distinguished_name::DistinguishedName::from_der(self.subject_der.as_slice()) {
            Ok(d) => Ok(d),
            Err(_) => Err(decoding_error("Failed to parse the subject name of the certificate.")),
        }
    }

    /// Return the issuer name; every attribute must be well known.
    pub fn get_issuer(&self) -> (r: Result<crate::distinguished_name::DistinguishedName, CertificateParsingError>)
        ensures
            r matches Err(e) ==> e.kind == CertificateParsingErrorKind::CertificateDecodingError,
    {
        match crate::distinguished_name::DistinguishedName::from_der(self.issuer_der.as_slice()) {
            Ok(d) => Ok(d),
            Err(_) => Err(decoding_error("Failed to parse the issuer name of the certificate.")),
        }
    }

    fn get_alternative_name(&self, oid: &[u32]) -> (r: Result<Vec<(crate::general_name::WellKnownGeneralName, String)>, CertificateParsingError>)
        ensures
            ext_value(exts_view(self.extensions@), oid@) is None ==> (r matches Ok(v) && v@.len() == 0),
    {
        match first_extension(&self.extensions, oid) {
            None => Ok(Vec::new()),
            Some(i) => match der::decode_general_names(self.extensions[i].value.as_slice()) {
                Some(names) => {
                    let mut values: Vec<crate::general_name::GeneralNameValue> = Vec::new();
                    let mut k: usize = 0;
                    while k < names.len()
                        decreases names@.len() - k,
                    {
                        values.push(der::general_name_from_rasn(&names[k]));
                        k += 1;
                    }
                    Ok(crate::extensions::AlternativeName::from_rasn_type(&values))
                },
                None => Err(decoding_error("Alternative name does not decode.")),
            },
        }
    }

    /// Return the well-known Subject Alternative Names (empty when absent).
    pub fn get_subject_alternative_name(&self) -> (r: Result<Vec<(crate::general_name::WellKnownGeneralName, String)>, CertificateParsingError>)
        ensures
            ext_value(exts_view(self.extensions@), crate::extensions::subject_alternative_name_oid()) is None ==> (r matches Ok(v) && v@.len() == 0),
    {
        let oid = vec![2u32, 5, 29, 17];
        assert(oid@ =~= crate::extensions::subject_alternative_name_oid());
        self.get_alternative_name(oid.as_slice())
    }

    /// Return the well-known Issuer Alternative Names (empty when absent).
    pub fn get_issuer_alternative_name(&self) -> (r: Result<Vec<(crate::general_name::WellKnownGeneralName, String)>, CertificateParsingError>)
        ensures
            ext_value(exts_view(self.extensions@), crate::extensions::issuer_alternative_name_oid()) is None ==> (r matches Ok(v) && v@.len() == 0),
    {
        let oid = vec![2u32, 5, 29, 18];
        assert(oid@ =~= crate::extensions::issuer_alternative_name_oid());
        self.get_alternative_name(oid.as_slice())
    }

    /// Return the Authority Information Access descriptions (empty when
    /// absent). A location that is not a well-known name fails.
    pub fn get_authority_information_access(&self) -> (r: Result<Vec<crate::authority_information_access::AuthorityInfoAccessDescription>, CertificateParsingError>)
        ensures
            ext_value(exts_view(self.extensions@), crate::authority_information_access::authority_information_access_oid()) is None
                ==> (r matches Ok(v) && v@.len() == 0),
    {
        let oid = vec![1u32, 3, 6, 1, 5, 5, 7, 1, 1];
        assert(oid@ =~= crate::authority_information_access::authority_information_access_oid());
        match first_extension(&self.extensions, oid.as_slice()) {
            None => Ok(Vec::new()),
            Some(i) => crate::authority_information_access::AuthorityInfoAccessDescription::from_rasn_type(self.extensions[i].value.as_slice()),
        }
    }
}

} // verus!
