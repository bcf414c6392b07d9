//! Bridge to the ASN.1 DER codec: decoding a certificate into plain values,
//! and encoding or decoding the values of extensions and names.
use vstd::prelude::*;
use crate::general_name::GeneralNameValue;
use rasn::types::{Ia5String, ObjectIdentifier};
use rasn_pkix::{DistributionPoint, DistributionPointName, GeneralName};

verus! {

/// Arcs that rasn's ObjectIdentifier::new accepts and its DER encoder
/// writes: at least two, the first at most 2, the first two combined within
/// `u32`.
pub open spec fn oid_encodes(a: Seq<u32>) -> bool {
    a.len() >= 2 && a[0] <= 2 && a[0] * 40 + a[1] <= u32::MAX
}

/// The views of a list of object identifiers.
pub open spec fn oids_view(v: Seq<Vec<u32>>) -> Seq<Seq<u32>> {
    v.map_values(|x: Vec<u32>| x@)
}

/// The bytes decode as a DER Certificate.
pub uninterp spec fn certificate_decodes(der: Seq<u8>) -> bool;

/// DER of the TBSCertificate of the certificate that `der` encodes.
pub uninterp spec fn tbs_der_of(der: Seq<u8>) -> Option<Seq<u8>>;

/// DER of the subject name of the certificate that `der` encodes.
pub uninterp spec fn subject_der_of(der: Seq<u8>) -> Option<Seq<u8>>;

/// DER of the issuer name of the certificate that `der` encodes.
pub uninterp spec fn issuer_der_of(der: Seq<u8>) -> Option<Seq<u8>>;

/// DER of the SubjectPublicKeyInfo of the certificate that `der` encodes.
pub uninterp spec fn spki_der_of(der: Seq<u8>) -> Option<Seq<u8>>;

/// `notBefore` and `notAfter` in epoch seconds of the certificate that `der`
/// encodes.
pub uninterp spec fn validity_of(der: Seq<u8>) -> Option<(i64, i64)>;

/// Serial number octets of the certificate that `der` encodes.
pub uninterp spec fn serial_of(der: Seq<u8>) -> Option<Seq<u8>>;

/// Signature algorithm arcs and signature octets of the certificate that
/// `der` encodes.
pub uninterp spec fn signature_of(der: Seq<u8>) -> Option<(Seq<u32>, Seq<u8>)>;

/// The extensions (arcs, criticality, value) of the certificate that `der`
/// encodes.
pub uninterp spec fn extensions_of(der: Seq<u8>) -> Option<Seq<(Seq<u32>, bool, Seq<u8>)>>;

/// The optional bytes as a sequence.
pub open spec fn bytes_view(o: Option<Vec<u8>>) -> Option<Seq<u8>> {
    match o {
        Some(v) => Some(v@),
        None => None,
    }
}

/// Relies on rasn::der::decode for a Certificate; a decoding error is
/// returned as its debug text.
#[verifier::external_body]
pub(crate) fn decode_certificate(der: &[u8]) -> (r: Result<(), String>)
    ensures
        r is Ok <==> certificate_decodes(der@),
{
    rasn::der::decode::<rasn_pkix::Certificate>(der).map(|_| ()).map_err(|e| format!("{e:?}"))
}

/// Relies on rasn::der::decode for a Certificate and rasn::der::encode: the
/// DER of its TBSCertificate.
#[verifier::external_body]
pub(crate) fn certificate_tbs_der(der: &[u8]) -> (r: Option<Vec<u8>>)
    ensures
        bytes_view(r) == tbs_der_of(der@),
{
    rasn::der::decode::<rasn_pkix::Certificate>(der).ok().and_then(|c| rasn::der::encode(&c.tbs_certificate).ok())
}

/// Relies on rasn::der::decode for a Certificate and rasn::der::encode: the
/// DER of its subject name.
#[verifier::external_body]
pub(crate) fn certificate_subject_der(der: &[u8]) -> (r: Option<Vec<u8>>)
    ensures
        bytes_view(r) == subject_der_of(der@),
{
    rasn::der::decode::<rasn_pkix::Certificate>(der).ok().and_then(|c| rasn::der::encode(&c.tbs_certificate.subject).ok())
}

/// Relies on rasn::der::decode for a Certificate and rasn::der::encode: the
/// DER of its issuer name.
#[verifier::external_body]
pub(crate) fn certificate_issuer_der(der: &[u8]) -> (r: Option<Vec<u8>>)
    ensures
        bytes_view(r) == issuer_der_of(der@),
{
    rasn::der::decode::<rasn_pkix::Certificate>(der).ok().and_then(|c| rasn::der::encode(&c.tbs_certificate.issuer).ok())
}

/// Relies on rasn::der::decode for a Certificate and rasn::der::encode: the
/// DER of its SubjectPublicKeyInfo.
#[verifier::external_body]
pub(crate) fn certificate_spki_der(der: &[u8]) -> (r: Option<Vec<u8>>)
    ensures
        bytes_view(r) == spki_der_of(der@),
{
    rasn::der::decode::<rasn_pkix::Certificate>(der).ok().and_then(|c| rasn::der::encode(&c.tbs_certificate.subject_public_key_info).ok())
}

/// Relies on rasn::der::decode for a Certificate and chrono's
/// DateTime::timestamp: `notBefore` and `notAfter` in seconds since the epoch,
/// whichever ASN.1 time type carries them.
#[verifier::external_body]
pub(crate) fn certificate_validity_seconds(der: &[u8]) -> (r: Option<(i64, i64)>)
    ensures
        r == validity_of(der@),
{
    let c = rasn::der::decode::<rasn_pkix::Certificate>(der).ok()?;
    let v = &c.tbs_certificate.validity;
    let not_before = match &v.not_before {
        rasn_pkix::Time::Utc(d) => d.timestamp(),
        rasn_pkix::Time::General(d) => d.timestamp(),
    };
    let not_after = match &v.not_after {
        rasn_pkix::Time::Utc(d) => d.timestamp(),
        rasn_pkix::Time::General(d) => d.timestamp(),
    };
    Some((not_before, not_after))
}

/// Relies on rasn::der::decode for a Certificate, rasn's Integer and
/// num-bigint's BigInt::to_signed_bytes_be: the serial number as minimal
/// big-endian two's complement octets.
#[verifier::external_body]
pub(crate) fn certificate_serial(der: &[u8]) -> (r: Option<Vec<u8>>)
    ensures
        bytes_view(r) == serial_of(der@),
{
    let c = rasn::der::decode::<rasn_pkix::Certificate>(der).ok()?;
    Some(match &c.tbs_certificate.serial_number {
        rasn::types::Integer::Primitive(v) => num_bigint::BigInt::from(*v).to_signed_bytes_be(),
        rasn::types::Integer::Variable(v) => v.to_signed_bytes_be(),
    })
}

/// Relies on rasn::der::decode for a Certificate, its ObjectIdentifier and
/// BitString: the arcs of the signature algorithm and the signature octets.
#[verifier::external_body]
pub(crate) fn certificate_signature(der: &[u8]) -> (r: Option<(Vec<u32>, Vec<u8>)>)
    ensures
        match r {
            Some((o, v)) => signature_of(der@) == Some((o@, v@)),
            None => signature_of(der@) is None,
        },
{
    let c = rasn::der::decode::<rasn_pkix::Certificate>(der).ok()?;
    Some((c.signature_algorithm.algorithm.to_vec(), c.signature_value.as_raw_slice().to_vec()))
}

/// Relies on rasn::der::decode for a Certificate and its Extension: each
/// extension's arcs, criticality and value octets, in certificate order.
#[verifier::external_body]
pub(crate) fn certificate_extensions(der: &[u8]) -> (r: Option<Vec<crate::parse::RawExtension>>)
    ensures
        match r {
            Some(v) => extensions_of(der@) == Some(crate::parse::exts_view(v@)),
            None => extensions_of(der@) is None,
        },
{
    let c = rasn::der::decode::<rasn_pkix::Certificate>(der).ok()?;
    Some(match &c.tbs_certificate.extensions {
        Some(x) => x.iter().map(|e| crate::parse::RawExtension {
            oid: e.extn_id.to_vec(),
            critical: e.critical,
            value: e.extn_value.to_vec(),
        }).collect(),
        None => Vec::new(),
    })
}

/// What the DER decoder reads from a BasicConstraints value: the CA flag and
/// the path length constraint.
pub uninterp spec fn basic_constraints_of_der(b: Seq<u8>) -> Option<(bool, Option<usize>)>;

/// Relies on rasn::der::decode for BasicConstraints; a path length that does
/// not fit `usize` fails the decoding.
#[verifier::external_body]
pub(crate) fn decode_basic_constraints(b: &[u8]) -> (r: Option<(bool, Option<usize>)>)
    ensures
        r == basic_constraints_of_der(b@),
{
    let v = rasn::der::decode::<rasn_pkix::BasicConstraints>(b).ok()?;
    let path_len = match &v.path_len_constraint {
        Some(i) => Some(usize::try_from(i).ok()?),
        None => None,
    };
    Some((v.ca, path_len))
}

/// What the DER decoder reads from a KeyUsage BIT STRING: its bits.
pub uninterp spec fn key_usage_bits_of_der(b: Seq<u8>) -> Option<Seq<bool>>;

/// Relies on rasn::der::decode for the KeyUsage BIT STRING.
#[verifier::external_body]
pub(crate) fn decode_key_usage(b: &[u8]) -> (r: Option<Vec<bool>>)
    ensures
        match r {
            Some(v) => key_usage_bits_of_der(b@) == Some(v@),
            None => key_usage_bits_of_der(b@) is None,
        },
{
    let v = rasn::der::decode::<rasn_pkix::KeyUsage>(b).ok()?;
    Some(v.iter().map(|bit| *bit).collect())
}

/// What the DER decoder reads from a SEQUENCE OF OBJECT IDENTIFIER.
pub uninterp spec fn oids_of_der(b: Seq<u8>) -> Option<Seq<Seq<u32>>>;

/// Relies on rasn::der::decode for a SEQUENCE OF OBJECT IDENTIFIER.
#[verifier::external_body]
pub(crate) fn decode_oids(b: &[u8]) -> (r: Option<Vec<Vec<u32>>>)
    ensures
        match r {
            Some(v) => oids_of_der(b@) == Some(oids_view(v@)),
            None => oids_of_der(b@) is None,
        },
{
    let v = rasn::der::decode::<Vec<rasn::types::ObjectIdentifier>>(b).ok()?;
    Some(v.iter().map(|o| o.to_vec()).collect())
}

/// What the DER decoder reads from an AuthorityKeyIdentifier: its optional
/// key identifier.
pub uninterp spec fn authority_key_id_of_der(b: Seq<u8>) -> Option<Option<Seq<u8>>>;

/// Relies on rasn::der::decode for AuthorityKeyIdentifier.
#[verifier::external_body]
pub(crate) fn decode_authority_key_identifier(b: &[u8]) -> (r: Option<Option<Vec<u8>>>)
    ensures
        match r {
            Some(Some(k)) => authority_key_id_of_der(b@) == Some(Some(k@)),
            Some(None) => authority_key_id_of_der(b@) == Some(None::<Seq<u8>>),
            None => authority_key_id_of_der(b@) is None,
        },
{
    let v = rasn::der::decode::<rasn_pkix::AuthorityKeyIdentifier>(b).ok()?;
    Some(v.key_identifier.map(|k| k.to_vec()))
}

/// What the DER decoder reads from an OCTET STRING.
pub uninterp spec fn octets_of_der(b: Seq<u8>) -> Option<Seq<u8>>;

/// Relies on rasn::der::decode for an OCTET STRING (a SubjectKeyIdentifier).
#[verifier::external_body]
pub(crate) fn decode_octet_string(b: &[u8]) -> (r: Option<Vec<u8>>)
    ensures
        match r {
            Some(v) => octets_of_der(b@) == Some(v@),
            None => octets_of_der(b@) is None,
        },
{
    let v = rasn::der::decode::<rasn::types::OctetString>(b).ok()?;
    Some(v.to_vec())
}

/// The views of decoded policies.
pub open spec fn policy_infos_view(v: Seq<(Vec<u32>, Vec<(Vec<u32>, Vec<u8>)>)>) -> Seq<(Seq<u32>, Seq<(Seq<u32>, Seq<u8>)>)> {
    v.map_values(|p: (Vec<u32>, Vec<(Vec<u32>, Vec<u8>)>)| (p.0@, p.1@.map_values(|q: (Vec<u32>, Vec<u8>)| (q.0@, q.1@))))
}

/// What the DER decoder reads from CertificatePolicies: each policy's arcs
/// with its qualifiers' arcs and DER values.
pub uninterp spec fn policies_of_der(b: Seq<u8>) -> Option<Seq<(Seq<u32>, Seq<(Seq<u32>, Seq<u8>)>)>>;

/// Relies on rasn::der::decode for CertificatePolicies: each policy's arcs
/// with its qualifiers' arcs and DER values.
#[verifier::external_body]
pub(crate) fn decode_policies(b: &[u8]) -> (r: Option<Vec<(Vec<u32>, Vec<(Vec<u32>, Vec<u8>)>)>>)
    ensures
        match r {
            Some(v) => policies_of_der(b@) == Some(policy_infos_view(v@)),
            None => policies_of_der(b@) is None,
        },
{
    let v = rasn::der::decode::<Vec<rasn_pkix::PolicyInformation>>(b).ok()?;
    Some(v.iter().map(|p| (
        p.policy_identifier.to_vec(),
        p.policy_qualifiers.iter().flatten().map(|q| (q.id.to_vec(), q.qualifier.as_bytes().to_vec())).collect(),
    )).collect())
}

/// Text that the DER decoder reads from a DisplayText (IA5String,
/// VisibleString, BMPString or UTF8String).
pub uninterp spec fn display_text_of_der(b: Seq<u8>) -> Option<Seq<char>>;

/// Relies on rasn::der::decode for DisplayText and rasn's string types: its
/// characters (`None` also for a BMPString that is not valid UTF-16).
#[verifier::external_body]
pub(crate) fn decode_display_text(b: &[u8]) -> (r: Option<String>)
    ensures
        match r {
            Some(s) => display_text_of_der(b@) == Some(s@),
            None => display_text_of_der(b@) is None,
        },
{
    match rasn::der::decode::<rasn_pkix::DisplayText>(b).ok()? {
        rasn_pkix::DisplayText::Ia5String(s) => Some(s.to_string()),
        rasn_pkix::DisplayText::VisibleString(s) => Some(s.to_string()),
        rasn_pkix::DisplayText::BmpString(s) => String::from_utf16(
            &s.to_bytes().chunks(2).map(|c| u16::from_be_bytes([c[0], c[1]])).collect::<Vec<u16>>(),
        ).ok(),
        rasn_pkix::DisplayText::Utf8String(s) => Some(s),
    }
}

/// What the DER decoder reads from a UserNotice: the DER of the notice
/// reference's organisation with its numbers, and the DER of the explicit
/// text.
pub uninterp spec fn user_notice_of_der(b: Seq<u8>) -> Option<(Option<(Seq<u8>, Seq<isize>)>, Option<Seq<u8>>)>;

/// Relies on rasn::der::decode for UserNotice and rasn::der::encode for its
/// DisplayText parts.
#[verifier::external_body]
pub(crate) fn decode_user_notice(b: &[u8]) -> (r: Option<(Option<(Vec<u8>, Vec<isize>)>, Option<Vec<u8>>)>)
    ensures
        r matches Some((n, t)) ==> user_notice_of_der(b@) == Some((match n { Some(x) => Some((x.0@, x.1@)), None => None }, bytes_view(t))),
        r is None ==> user_notice_of_der(b@) is None,
{
    let v = rasn::der::decode::<rasn_pkix::UserNotice>(b).ok()?;
    let notice_ref = match v.notice_ref {
        Some(n) => Some((rasn::der::encode(&n.organisation).ok()?,
            n.notice_numbers.iter().map(|i| isize::try_from(i).ok()).collect::<Option<Vec<isize>>>()?)),
        None => None,
    };
    let text = match v.explicit_text {
        Some(t) => Some(rasn::der::encode(&t).ok()?),
        None => None,
    };
    Some((notice_ref, text))
}

} // verus!

verus! {

/// rasn_pkix's GeneralName, carried opaque between conversion and encoding.
#[verifier::external_type_specification]
#[verifier::external_body]
pub struct ExGeneralName(rasn_pkix::GeneralName);

/// DER of a BasicConstraints value.
pub uninterp spec fn der_basic_constraints(ca: bool, path_len: Option<usize>) -> Seq<u8>;

/// Relies on rasn::der::encode for BasicConstraints.
#[verifier::external_body]
pub(crate) fn encode_basic_constraints(ca: bool, path_len: Option<usize>) -> (r: Option<Vec<u8>>)
    ensures
        r matches Some(b) ==> b@ == der_basic_constraints(ca, path_len),
        r is Some,
{
    rasn::der::encode(&rasn_pkix::BasicConstraints { ca, path_len_constraint: path_len.map(|p| p.into()) }).ok()
}

/// DER of a BIT STRING with the given bits.
pub uninterp spec fn der_bit_string(bits: Seq<bool>) -> Seq<u8>;

/// Relies on rasn::der::encode for a BIT STRING (bitvec's BitVec, most
/// significant bit first).
#[verifier::external_body]
pub(crate) fn encode_bit_string(bits: &[bool]) -> (r: Option<Vec<u8>>)
    ensures
        r matches Some(b) ==> b@ == der_bit_string(bits@),
        r is Some,
{
    rasn::der::encode(&bits.iter().copied().collect::<rasn::types::BitString>()).ok()
}

/// DER of a SEQUENCE OF OBJECT IDENTIFIER.
pub uninterp spec fn der_oids(oids: Seq<Seq<u32>>) -> Seq<u8>;

/// Relies on rasn::der::encode for a SEQUENCE OF OBJECT IDENTIFIER; arcs that
/// rasn's ObjectIdentifier::new rejects give `None`.
#[verifier::external_body]
pub(crate) fn encode_oids(oids: &Vec<Vec<u32>>) -> (r: Option<Vec<u8>>)
    ensures
        r matches Some(b) ==> b@ == der_oids(oids_view(oids@)),
        (forall|i: int| 0 <= i < oids@.len() ==> oid_encodes(#[trigger] oids@[i]@)) ==> r is Some,
{
    let v = oids.iter().map(|o| rasn::types::ObjectIdentifier::new(o.clone())).collect::<Option<Vec<_>>>()?;
    rasn::der::encode(&v).ok()
}

/// DER of an OCTET STRING.
pub uninterp spec fn der_octet_string(b: Seq<u8>) -> Seq<u8>;

/// Relies on rasn::der::encode for an OCTET STRING.
#[verifier::external_body]
pub(crate) fn encode_octet_string(b: &[u8]) -> (r: Option<Vec<u8>>)
    ensures
        r matches Some(e) ==> e@ == der_octet_string(b@),
        r is Some,
{
    rasn::der::encode(&rasn::types::OctetString::copy_from_slice(b)).ok()
}

/// DER of an AuthorityKeyIdentifier holding only a key identifier.
pub uninterp spec fn der_authority_key_id(kid: Seq<u8>) -> Seq<u8>;

/// Relies on rasn::der::encode for AuthorityKeyIdentifier.
#[verifier::external_body]
pub(crate) fn encode_authority_key_identifier(kid: &[u8]) -> (r: Option<Vec<u8>>)
    ensures
        r matches Some(e) ==> e@ == der_authority_key_id(kid@),
        r is Some,
{
    rasn::der::encode(&rasn_pkix::AuthorityKeyIdentifier {
        key_identifier: Some(rasn::types::OctetString::copy_from_slice(kid)),
        authority_cert_issuer: None,
        authority_cert_serial_number: None,
    }).ok()
}

/// DER of an IA5String.
pub uninterp spec fn der_ia5_string(s: Seq<char>) -> Seq<u8>;

/// Relies on rasn's Ia5String::from_iso646_bytes and rasn::der::encode;
/// text outside IA5 gives `None`.
#[verifier::external_body]
pub(crate) fn encode_ia5_string(s: &str) -> (r: Option<Vec<u8>>)
    ensures
        r matches Some(e) ==> e@ == der_ia5_string(s@),
        r is Some <==> crate::attributes::fits_alphabet(crate::attributes::Asn1EncodingType::IA5String, s@),
{
    rasn::der::encode(&rasn::types::Ia5String::from_iso646_bytes(s.as_bytes()).ok()?).ok()
}

/// DER of a PrintableString.
pub uninterp spec fn der_printable_string(s: Seq<char>) -> Seq<u8>;

/// Relies on rasn's PrintableString::from_bytes and rasn::der::encode; text
/// outside the alphabet gives `None`.
#[verifier::external_body]
pub(crate) fn encode_printable_string(s: &str) -> (r: Option<Vec<u8>>)
    ensures
        r matches Some(e) ==> e@ == der_printable_string(s@),
        r is Some <==> crate::attributes::fits_alphabet(crate::attributes::Asn1EncodingType::PrintableString, s@),
{
    rasn::der::encode(&rasn::types::PrintableString::from_bytes(s.as_bytes()).ok()?).ok()
}

/// DER of a UTF8String.
pub uninterp spec fn der_utf8_string(s: Seq<char>) -> Seq<u8>;

/// Relies on rasn::der::encode for a UTF8String.
#[verifier::external_body]
pub(crate) fn encode_utf8_string(s: &str) -> (r: Option<Vec<u8>>)
    ensures
        r matches Some(e) ==> e@ == der_utf8_string(s@),
        r is Some,
{
    rasn::der::encode(&rasn::types::Utf8String::from(s)).ok()
}

/// Text that the DER decoder reads from an IA5String.
pub uninterp spec fn ia5_string_of_der(b: Seq<u8>) -> Option<Seq<char>>;

/// Relies on rasn::der::decode for an IA5String.
#[verifier::external_body]
pub(crate) fn decode_ia5_string(b: &[u8]) -> (r: Option<String>)
    ensures
        match r {
            Some(s) => ia5_string_of_der(b@) == Some(s@),
            None => ia5_string_of_der(b@) is None,
        },
{
    rasn::der::decode::<rasn::types::Ia5String>(b).ok().map(|s| s.to_string())
}

/// Text that the DER decoder reads from a PrintableString.
pub uninterp spec fn printable_string_of_der(b: Seq<u8>) -> Option<Seq<char>>;

/// Relies on rasn::der::decode for a PrintableString.
#[verifier::external_body]
pub(crate) fn decode_printable_string(b: &[u8]) -> (r: Option<String>)
    ensures
        match r {
            Some(s) => printable_string_of_der(b@) == Some(s@),
            None => printable_string_of_der(b@) is None,
        },
{
    let v = rasn::der::decode::<rasn::types::PrintableString>(b).ok()?;
    String::from_utf8(v.as_bytes().to_vec()).ok()
}

/// Text that the DER decoder reads from a UTF8String.
pub uninterp spec fn utf8_string_of_der(b: Seq<u8>) -> Option<Seq<char>>;

/// Relies on rasn::der::decode for a UTF8String.
#[verifier::external_body]
pub(crate) fn decode_utf8_string(b: &[u8]) -> (r: Option<String>)
    ensures
        match r {
            Some(s) => utf8_string_of_der(b@) == Some(s@),
            None => utf8_string_of_der(b@) is None,
        },
{
    rasn::der::decode::<rasn::types::Utf8String>(b).ok()
}


/// Relies on rasn's GeneralName: the wire value of a GeneralName, one arm per
/// kind, other kinds as `Unsupported`.
#[verifier::external_body]
pub(crate) fn general_name_from_rasn(g: &rasn_pkix::GeneralName) -> (r: GeneralNameValue) {
    match g {
        rasn_pkix::GeneralName::Rfc822Name(t) => GeneralNameValue::Rfc822Name(t.to_string()),
        rasn_pkix::GeneralName::DnsName(t) => GeneralNameValue::DnsName(t.to_string()),
        rasn_pkix::GeneralName::Uri(t) => GeneralNameValue::Uri(t.to_string()),
        rasn_pkix::GeneralName::IpAddress(o) => GeneralNameValue::IpAddress(o.to_vec()),
        rasn_pkix::GeneralName::RegisteredId(o) => GeneralNameValue::RegisteredId(o.to_vec()),
        rasn_pkix::GeneralName::OtherName(_) => GeneralNameValue::Unsupported,
        rasn_pkix::GeneralName::X400Address(_) => GeneralNameValue::Unsupported,
        rasn_pkix::GeneralName::DirectoryName(_) => GeneralNameValue::Unsupported,
        rasn_pkix::GeneralName::EdiPartyName(_) => GeneralNameValue::Unsupported,
    }
}

/// The plain view of a wire GeneralName: its kind (0 mail, 1 DNS, 2 URI,
/// 3 IP, 4 registered ID, 5 other), text, octets and arcs.
pub open spec fn general_name_view(g: GeneralNameValue) -> (u8, Seq<char>, Seq<u8>, Seq<u32>) {
    match g {
        GeneralNameValue::Rfc822Name(t) => (0, t@, seq![], seq![]),
        GeneralNameValue::DnsName(t) => (1, t@, seq![], seq![]),
        GeneralNameValue::Uri(t) => (2, t@, seq![], seq![]),
        GeneralNameValue::IpAddress(o) => (3, seq![], o@, seq![]),
        GeneralNameValue::RegisteredId(o) => (4, seq![], seq![], o@),
        GeneralNameValue::Unsupported => (5, seq![], seq![], seq![]),
    }
}

/// A wire GeneralName that the encoder takes: IA5 text, an IP address, or
/// arcs that ObjectIdentifier::new accepts.
pub open spec fn general_name_encodes(g: GeneralNameValue) -> bool {
    match g {
        GeneralNameValue::Rfc822Name(t) => crate::attributes::fits_alphabet(crate::attributes::Asn1EncodingType::IA5String, t@),
        GeneralNameValue::DnsName(t) => crate::attributes::fits_alphabet(crate::attributes::Asn1EncodingType::IA5String, t@),
        GeneralNameValue::Uri(t) => crate::attributes::fits_alphabet(crate::attributes::Asn1EncodingType::IA5String, t@),
        GeneralNameValue::IpAddress(_) => true,
        GeneralNameValue::RegisteredId(o) => oid_encodes(o@),
        GeneralNameValue::Unsupported => false,
    }
}

/// DER of GeneralNames with the given names.
pub uninterp spec fn der_general_names(names: Seq<(u8, Seq<char>, Seq<u8>, Seq<u32>)>) -> Seq<u8>;

/// Relies on rasn's Ia5String, ObjectIdentifier::new and rasn::der::encode
/// for GeneralNames.
#[verifier::external_body]
pub(crate) fn encode_general_names(names: &Vec<GeneralNameValue>) -> (r: Option<Vec<u8>>)
    ensures
        r matches Some(b) ==> b@ == der_general_names(names@.map_values(|g: GeneralNameValue| general_name_view(g))),
        (forall|i: int| 0 <= i < names@.len() ==> general_name_encodes(#[trigger] names@[i])) ==> r is Some,
{
    let ia5 = |t: &String| Ia5String::from_iso646_bytes(t.as_bytes()).ok();
    let v = names.iter().map(|g| Some(match g {
        GeneralNameValue::Rfc822Name(t) => GeneralName::Rfc822Name(ia5(t)?),
        GeneralNameValue::DnsName(t) => GeneralName::DnsName(ia5(t)?),
        GeneralNameValue::Uri(t) => GeneralName::Uri(ia5(t)?),
        GeneralNameValue::IpAddress(o) => GeneralName::IpAddress(o.clone().into()),
        GeneralNameValue::RegisteredId(o) => GeneralName::RegisteredId(ObjectIdentifier::new(o.clone())?),
        GeneralNameValue::Unsupported => None?,
    })).collect::<Option<Vec<_>>>()?;
    rasn::der::encode(&v).ok()
}

/// Relies on rasn::der::decode for GeneralNames.
#[verifier::external_body]
pub(crate) fn decode_general_names(b: &[u8]) -> (r: Option<Vec<rasn_pkix::GeneralName>>) {
    rasn::der::decode::<Vec<rasn_pkix::GeneralName>>(b).ok()
}


/// Relies on rasn::der::decode for AuthorityInfoAccessSyntax: each access
/// method's arcs with its location.
#[verifier::external_body]
pub(crate) fn decode_access_descriptions(b: &[u8]) -> (r: Option<Vec<(Vec<u32>, rasn_pkix::GeneralName)>>) {
    let v = rasn::der::decode::<Vec<rasn_pkix::AccessDescription>>(b).ok()?;
    Some(v.into_iter().map(|a| (a.access_method.to_vec(), a.access_location)).collect())
}

/// The views of distribution points: full-name URIs, reason bits, CRL
/// issuer URIs.
pub open spec fn distribution_points_view(v: Seq<(Option<Vec<String>>, Option<Vec<bool>>, Option<Vec<String>>)>)
    -> Seq<(Option<Seq<Seq<char>>>, Option<Seq<bool>>, Option<Seq<Seq<char>>>)> {
    v.map_values(|p: (Option<Vec<String>>, Option<Vec<bool>>, Option<Vec<String>>)| (
        match p.0 { Some(u) => Some(u@.map_values(|x: String| x@)), None => None },
        match p.1 { Some(b) => Some(b@), None => None },
        match p.2 { Some(u) => Some(u@.map_values(|x: String| x@)), None => None },
    ))
}

/// Every URI, if any, is IA5 text.
pub open spec fn uris_ia5(u: Option<Seq<Seq<char>>>) -> bool {
    u matches Some(v) ==> forall|j: int| 0 <= j < v.len() ==> crate::attributes::fits_alphabet(crate::attributes::Asn1EncodingType::IA5String, #[trigger] v[j])
}

/// DER of CRLDistributionPoints whose names are URIs: for each point its
/// optional full name, optional reason bits and optional CRL issuer.
pub uninterp spec fn der_distribution_points(v: Seq<(Option<Seq<Seq<char>>>, Option<Seq<bool>>, Option<Seq<Seq<char>>>)>) -> Seq<u8>;

/// Relies on rasn's Ia5String::from_iso646_bytes and rasn::der::encode for
/// CRLDistributionPoints; a URI outside IA5 gives `None`.
#[verifier::external_body]
pub(crate) fn encode_distribution_points(points: &Vec<(Option<Vec<String>>, Option<Vec<bool>>, Option<Vec<String>>)>) -> (r: Option<Vec<u8>>)
    ensures
        r matches Some(b) ==> b@ == der_distribution_points(distribution_points_view(points@)),
        r is Some <==> forall|i: int| 0 <= i < points@.len() ==> uris_ia5((#[trigger] distribution_points_view(points@)[i]).0)
            && uris_ia5(distribution_points_view(points@)[i].2),
{
    let uris = |v: &Vec<String>| v.iter().map(|u| Some(GeneralName::Uri(
        Ia5String::from_iso646_bytes(u.as_bytes()).ok()?))).collect::<Option<Vec<_>>>();
    let dps = points.iter().map(|(full, reasons, issuer)| Some(DistributionPoint {
        distribution_point: match full { Some(f) => Some(DistributionPointName::FullName(uris(f)?)), None => None },
        reasons: reasons.as_ref().map(|b| b.iter().copied().collect()),
        crl_issuer: match issuer { Some(i) => Some(uris(i)?), None => None },
    })).collect::<Option<Vec<_>>>()?;
    rasn::der::encode(&dps).ok()
}

/// DER of a UserNotice: the optional notice reference (organisation as
/// UTF8String, numbers) and the optional explicit text as UTF8String.
pub uninterp spec fn der_user_notice(notice_ref: Option<(Seq<char>, Seq<isize>)>, text: Option<Seq<char>>) -> Seq<u8>;

/// Relies on rasn::der::encode for UserNotice.
#[verifier::external_body]
pub(crate) fn encode_user_notice(notice_ref: &Option<(String, Vec<isize>)>, text: &Option<String>) -> (r: Option<Vec<u8>>)
    ensures
        r matches Some(e) ==> e@ == der_user_notice(
            match notice_ref { Some(n) => Some((n.0@, n.1@)), None => None },
            match text { Some(t) => Some(t@), None => None },
        ),
        r is Some,
{
    rasn::der::encode(&rasn_pkix::UserNotice {
        notice_ref: notice_ref.as_ref().map(|(o, n)| rasn_pkix::NoticeReference {
            organisation: rasn_pkix::DisplayText::Utf8String(o.clone()),
            notice_numbers: n.iter().map(|x| rasn::types::Integer::Primitive(*x)).collect(),
        }),
        explicit_text: text.clone().map(rasn_pkix::DisplayText::Utf8String),
    }).ok()
}

/// DER of CertificatePolicies: each policy's arcs with an optional qualifier
/// (its arcs and DER value).
pub uninterp spec fn der_policies(v: Seq<(Seq<u32>, Option<(Seq<u32>, Seq<u8>)>)>) -> Seq<u8>;

/// The views of policies to encode.
pub open spec fn policies_view(v: Seq<(Vec<u32>, Option<(Vec<u32>, Vec<u8>)>)>) -> Seq<(Seq<u32>, Option<(Seq<u32>, Seq<u8>)>)> {
    v.map_values(|p: (Vec<u32>, Option<(Vec<u32>, Vec<u8>)>)| (p.0@, match p.1 { Some(q) => Some((q.0@, q.1@)), None => None }))
}

/// Relies on rasn::der::encode for CertificatePolicies; arcs that
/// ObjectIdentifier::new rejects give `None`.
#[verifier::external_body]
pub(crate) fn encode_policies(v: &Vec<(Vec<u32>, Option<(Vec<u32>, Vec<u8>)>)>) -> (r: Option<Vec<u8>>)
    ensures
        r matches Some(e) ==> e@ == der_policies(policies_view(v@)),
        (forall|i: int| 0 <= i < v@.len() ==> oid_encodes((#[trigger] v@[i]).0@)
            && (v@[i].1 matches Some(q) ==> oid_encodes(q.0@))) ==> r is Some,
{
    let oid = |a: &Vec<u32>| rasn::types::ObjectIdentifier::new(a.clone());
    let infos = v.iter().map(|(p, q)| Some(rasn_pkix::PolicyInformation {
        policy_identifier: oid(p)?,
        policy_qualifiers: match q {
            Some((id, der)) => Some(vec![rasn_pkix::PolicyQualifierInfo { id: oid(id)?, qualifier: rasn::types::Any::new(der.clone()) }]),
            None => None,
        },
    })).collect::<Option<Vec<_>>>()?;
    rasn::der::encode(&infos).ok()
}

} // verus!

verus! {

/// The views of the relative distinguished names of a name.
pub open spec fn rdns_view(v: Seq<Vec<(Vec<u32>, Vec<u8>)>>) -> Seq<Seq<(Seq<u32>, Seq<u8>)>> {
    v.map_values(|rdn: Vec<(Vec<u32>, Vec<u8>)>| rdn@.map_values(|a: (Vec<u32>, Vec<u8>)| (a.0@, a.1@)))
}

/// DER of a Name: a sequence of sets of (attribute type, DER value).
pub uninterp spec fn der_name(rdns: Seq<Seq<(Seq<u32>, Seq<u8>)>>) -> Seq<u8>;

/// What the DER decoder reads from a Name.
pub uninterp spec fn name_of_der(b: Seq<u8>) -> Option<Seq<Seq<(Seq<u32>, Seq<u8>)>>>;

/// Relies on rasn::der::encode for a SEQUENCE OF SET OF SEQUENCE { OBJECT
/// IDENTIFIER, ANY }, the DER shape of a Name (RDNSequence) and of rasn's
/// PolicyQualifierInfo alike; arcs that ObjectIdentifier::new rejects give
/// `None`.
#[verifier::external_body]
pub(crate) fn encode_name(rdns: &Vec<Vec<(Vec<u32>, Vec<u8>)>>) -> (r: Option<Vec<u8>>)
    ensures
        r matches Some(b) ==> b@ == der_name(rdns_view(rdns@)),
        (forall|i: int, j: int| 0 <= i < rdns@.len() && 0 <= j < rdns@[i]@.len() ==> oid_encodes((#[trigger] rdns@[i]@[j]).0@)) ==> r is Some,
{
    let seq = rdns.iter().map(|rdn| rdn.iter().map(|(o, v)| Some(rasn_pkix::PolicyQualifierInfo {
        id: rasn::types::ObjectIdentifier::new(o.clone())?,
        qualifier: rasn::types::Any::new(v.clone()),
    })).collect::<Option<Vec<_>>>().map(rasn::types::SetOf::from_vec)).collect::<Option<Vec<_>>>()?;
    rasn::der::encode(&seq).ok()
}

/// Relies on rasn::der::decode for a SEQUENCE OF SET OF SEQUENCE { OBJECT
/// IDENTIFIER, ANY } (the DER shape of a Name).
#[verifier::external_body]
pub(crate) fn decode_name(b: &[u8]) -> (r: Option<Vec<Vec<(Vec<u32>, Vec<u8>)>>>)
    ensures
        match r {
            Some(v) => name_of_der(b@) == Some(rdns_view(v@)),
            None => name_of_der(b@) is None,
        },
{
    let seq = rasn::der::decode::<Vec<rasn::types::SetOf<rasn_pkix::PolicyQualifierInfo>>>(b).ok()?;
    Some(seq.iter().map(|rdn| rdn.to_vec().into_iter().map(|a| (a.id.to_vec(), a.qualifier.as_bytes().to_vec())).collect()).collect())
}

} // verus!

verus! {

/// rasn_pkix's AlgorithmIdentifier, carried opaque into a TBSCertificate.
#[verifier::external_type_specification]
#[verifier::external_body]
pub struct ExAlgorithmIdentifier(rasn_pkix::AlgorithmIdentifier);

/// rasn_pkix's TbsCertificate, carried opaque between assembly, decoding and encoding.
#[verifier::external_type_specification]
#[verifier::external_body]
pub struct ExTbsCertificate(rasn_pkix::TbsCertificate);

/// Relies on rasn::der::decode for AlgorithmIdentifier.
#[verifier::external_body]
pub(crate) fn decode_algorithm_identifier(b: &[u8]) -> (r: Option<rasn_pkix::AlgorithmIdentifier>) {
    rasn::der::decode::<rasn_pkix::AlgorithmIdentifier>(b).ok()
}

/// Relies on rasn::der::encode for TBSCertificate.
#[verifier::external_body]
pub(crate) fn encode_tbs(tbs: &rasn_pkix::TbsCertificate) -> (r: Option<Vec<u8>>) {
    rasn::der::encode(tbs).ok()
}

/// Relies on rasn::der::decode for TBSCertificate.
#[verifier::external_body]
pub(crate) fn decode_tbs(b: &[u8]) -> (r: Option<rasn_pkix::TbsCertificate>) {
    rasn::der::decode::<rasn_pkix::TbsCertificate>(b).ok()
}

/// Relies on rasn_pkix's TbsCertificate: the same TBSCertificate with its
/// `signature` field replaced.
#[verifier::external_body]
pub(crate) fn with_signature_field(tbs: rasn_pkix::TbsCertificate, signature: rasn_pkix::AlgorithmIdentifier) -> (r: rasn_pkix::TbsCertificate) {
    rasn_pkix::TbsCertificate { signature, ..tbs }
}

/// Relies on rasn::der::encode for Certificate: the TBSCertificate, its
/// signature algorithm repeated outside it, and the signature as BIT STRING.
#[verifier::external_body]
pub(crate) fn encode_signed_certificate(tbs: rasn_pkix::TbsCertificate, signature: Vec<u8>) -> (r: Option<Vec<u8>>) {
    let signature_algorithm = tbs.signature.clone();
    rasn::der::encode(&rasn_pkix::Certificate {
        tbs_certificate: tbs,
        signature_algorithm,
        signature_value: rasn::types::BitString::from_vec(signature),
    }).ok()
}

} // verus!

verus! {

/// The views of decoded distribution points.
pub open spec fn points_view(v: Seq<(bool, bool, Option<Vec<Vec<u8>>>)>) -> Seq<(bool, bool, Option<Seq<Seq<u8>>>)> {
    v.map_values(|p: (bool, bool, Option<Vec<Vec<u8>>>)| (p.0, p.1, match p.2 {
        Some(n) => Some(n@.map_values(|x: Vec<u8>| x@)),
        None => None,
    }))
}

/// What the DER decoder reads from CRLDistributionPoints: for each point,
/// whether it limits reasons, whether it names a CRL issuer, and the DER of
/// each name of its full name when given as one.
pub uninterp spec fn distribution_points_of_der(b: Seq<u8>) -> Option<Seq<(bool, bool, Option<Seq<Seq<u8>>>)>>;

/// Relies on rasn::der::decode for CRLDistributionPoints and
/// rasn::der::encode for each GeneralName of a full name.
#[verifier::external_body]
pub(crate) fn decode_distribution_points(b: &[u8]) -> (r: Option<Vec<(bool, bool, Option<Vec<Vec<u8>>>)>>)
    ensures
        match r {
            Some(v) => distribution_points_of_der(b@) == Some(points_view(v@)),
            None => distribution_points_of_der(b@) is None,
        },
{
    let v = rasn::der::decode::<Vec<DistributionPoint>>(b).ok()?;
    v.into_iter().map(|dp| Some((dp.reasons.is_some(), dp.crl_issuer.is_some(), match dp.distribution_point {
        Some(DistributionPointName::FullName(n)) => Some(n.iter().map(|g| rasn::der::encode(g).ok()).collect::<Option<Vec<_>>>()?),
        Some(DistributionPointName::NameRelativeToCrlIssuer(_)) => None,
        None => None,
    }))).collect()
}

/// The plain view of the GeneralName that DER `b` holds.
pub uninterp spec fn general_name_of_der(b: Seq<u8>) -> Option<(u8, Seq<char>, Seq<u8>, Seq<u32>)>;

/// Relies on rasn::der::decode for GeneralName: its wire value, one arm per
/// kind, other kinds as `Unsupported`.
#[verifier::external_body]
pub(crate) fn decode_general_name(b: &[u8]) -> (r: Option<GeneralNameValue>)
    ensures
        match r {
            Some(g) => general_name_of_der(b@) == Some(general_name_view(g)),
            None => general_name_of_der(b@) is None,
        },
{
    Some(match rasn::der::decode::<GeneralName>(b).ok()? {
        GeneralName::Rfc822Name(t) => GeneralNameValue::Rfc822Name(t.to_string()),
        GeneralName::DnsName(t) => GeneralNameValue::DnsName(t.to_string()),
        GeneralName::Uri(t) => GeneralNameValue::Uri(t.to_string()),
        GeneralName::IpAddress(o) => GeneralNameValue::IpAddress(o.to_vec()),
        GeneralName::RegisteredId(o) => GeneralNameValue::RegisteredId(o.to_vec()),
        GeneralName::OtherName(_) => GeneralNameValue::Unsupported,
        GeneralName::X400Address(_) => GeneralNameValue::Unsupported,
        GeneralName::DirectoryName(_) => GeneralNameValue::Unsupported,
        GeneralName::EdiPartyName(_) => GeneralNameValue::Unsupported,
    })
}

} // verus!

verus! {

/// DER INTEGER of the non-negative number whose big-endian octets are given.
pub uninterp spec fn der_positive_integer(octets: Seq<u8>) -> Seq<u8>;

/// Relies on num-bigint's BigInt::from_bytes_be (positive sign), rasn's
/// Integer and rasn::der::encode.
#[verifier::external_body]
pub(crate) fn encode_positive_integer(octets: &[u8]) -> (r: Option<Vec<u8>>)
    ensures
        r matches Some(b) ==> b@ == der_positive_integer(octets@),
        r is Some,
{
    let v = rasn::types::Integer::from(num_bigint::BigInt::from_bytes_be(num_bigint::Sign::Plus, octets));
    rasn::der::encode(&v).ok()
}

/// DER of an AlgorithmIdentifier with the given arcs and a NULL parameter.
pub uninterp spec fn der_algorithm_null(oid: Seq<u32>) -> Seq<u8>;

/// Relies on rasn's ObjectIdentifier::new and rasn::der::encode for
/// AlgorithmIdentifier and NULL.
#[verifier::external_body]
pub(crate) fn encode_algorithm_null(oid: &Vec<u32>) -> (r: Option<Vec<u8>>)
    ensures
        r matches Some(b) ==> b@ == der_algorithm_null(oid@),
        oid_encodes(oid@) ==> r is Some,
{
    rasn::der::encode(&rasn_pkix::AlgorithmIdentifier {
        algorithm: ObjectIdentifier::new(oid.clone())?,
        parameters: Some(rasn::types::Any::new(rasn::der::encode(&()).ok()?)),
    }).ok()
}

/// DER of the GeneralizedTime of epoch seconds, when chrono can represent
/// the time.
pub uninterp spec fn generalized_time_of(epoch_seconds: u64) -> Option<Seq<u8>>;

/// Relies on chrono's Utc.timestamp_opt and rasn::der::encode for
/// GeneralizedTime.
#[verifier::external_body]
pub(crate) fn encode_generalized_time(epoch_seconds: u64) -> (r: Option<Vec<u8>>)
    ensures
        bytes_view(r) == generalized_time_of(epoch_seconds),
{
    let secs = i64::try_from(epoch_seconds).ok()?;
    let t = chrono::TimeZone::timestamp_opt(&chrono::Utc, secs, 0).single()?;
    rasn::der::encode(&rasn::types::GeneralizedTime::from(t)).ok()
}

/// DER of an Extension.
pub uninterp spec fn der_extension(oid: Seq<u32>, critical: bool, value: Seq<u8>) -> Seq<u8>;

/// Relies on rasn's ObjectIdentifier::new and rasn::der::encode for
/// Extension.
#[verifier::external_body]
pub(crate) fn encode_extension(oid: &Vec<u32>, critical: bool, value: &Vec<u8>) -> (r: Option<Vec<u8>>)
    ensures
        r matches Some(b) ==> b@ == der_extension(oid@, critical, value@),
        oid_encodes(oid@) ==> r is Some,
{
    rasn::der::encode(&rasn_pkix::Extension {
        extn_id: ObjectIdentifier::new(oid.clone())?,
        critical,
        extn_value: value.clone().into(),
    }).ok()
}

/// The bytes decode as a SubjectPublicKeyInfo.
pub uninterp spec fn spki_decodes(b: Seq<u8>) -> bool;

/// Relies on rasn::der::decode for SubjectPublicKeyInfo.
#[verifier::external_body]
pub(crate) fn check_spki(b: &[u8]) -> (r: bool)
    ensures
        r == spki_decodes(b@),
{
    rasn::der::decode::<rasn_pkix::SubjectPublicKeyInfo>(b).is_ok()
}

/// The bytes decode as an AlgorithmIdentifier.
pub uninterp spec fn algorithm_decodes(b: Seq<u8>) -> bool;

/// Relies on rasn::der::decode for AlgorithmIdentifier.
#[verifier::external_body]
pub(crate) fn check_algorithm_identifier(b: &[u8]) -> (r: bool)
    ensures
        r == algorithm_decodes(b@),
{
    rasn::der::decode::<rasn_pkix::AlgorithmIdentifier>(b).is_ok()
}

} // verus!

verus! {

/// DER of one GeneralName.
pub uninterp spec fn der_general_name(g: (u8, Seq<char>, Seq<u8>, Seq<u32>)) -> Seq<u8>;

/// Relies on rasn's Ia5String, ObjectIdentifier::new and rasn::der::encode
/// for GeneralName.
#[verifier::external_body]
pub(crate) fn encode_general_name(g: &GeneralNameValue) -> (r: Option<Vec<u8>>)
    ensures
        r matches Some(b) ==> b@ == der_general_name(general_name_view(*g)),
        general_name_encodes(*g) ==> r is Some,
{
    let ia5 = |t: &String| Ia5String::from_iso646_bytes(t.as_bytes()).ok();
    let v = match g {
        GeneralNameValue::Rfc822Name(t) => GeneralName::Rfc822Name(ia5(t)?),
        GeneralNameValue::DnsName(t) => GeneralName::DnsName(ia5(t)?),
        GeneralNameValue::Uri(t) => GeneralName::Uri(ia5(t)?),
        GeneralNameValue::IpAddress(o) => GeneralName::IpAddress(o.clone().into()),
        GeneralNameValue::RegisteredId(o) => GeneralName::RegisteredId(ObjectIdentifier::new(o.clone())?),
        GeneralNameValue::Unsupported => None?,
    };
    rasn::der::encode(&v).ok()
}

/// DER of an OBJECT IDENTIFIER.
pub uninterp spec fn der_oid(arcs: Seq<u32>) -> Seq<u8>;

/// Relies on rasn's ObjectIdentifier::new and rasn::der::encode.
#[verifier::external_body]
pub(crate) fn encode_oid(arcs: &Vec<u32>) -> (r: Option<Vec<u8>>)
    ensures
        r matches Some(b) ==> b@ == der_oid(arcs@),
        oid_encodes(arcs@) ==> r is Some,
{
    rasn::der::encode(&ObjectIdentifier::new(arcs.clone())?).ok()
}

} // verus!
