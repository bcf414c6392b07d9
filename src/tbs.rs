//! Assembly of an unsigned TBSCertificate for detached signing, and of the
//! signed certificate from the signature algorithm and signature.
use vstd::prelude::*;
use crate::der;
use crate::distinguished_name::DistinguishedName;
use crate::errors::DecodingError;
use crate::extensions::Extensions;
use crate::serial_number::SerialNumber;
use crate::validity::Validity;
use crate::der_frame::{der_tlv, tlv};
use crate::distinguished_name::{dn_valid, encodes_dn};
use crate::parse::{copy_bytes, exts_view, RawExtension};

verus! {

/// Arcs of `id-alg-noSignature` (RFC 2797), the placeholder signature
/// algorithm of an unsigned TBSCertificate.
pub open spec fn no_signature_oid() -> Seq<u32> {
    seq![1, 3, 6, 1, 5, 5, 7, 6, 2]
}

/// Arcs of `id-alg-noSignature`.
pub fn no_signature_oid_vec() -> (r: Vec<u32>)
    ensures
        r@ == no_signature_oid(),
{
    let r = vec![1u32, 3, 6, 1, 5, 5, 7, 6, 2];
    assert(r@ =~= no_signature_oid());
    r
}

/// An unsigned TBSCertificate, held as DER. When this library assembled it,
/// `parts` holds what precedes the signature field (version and serial
/// number) and what follows it.
#[derive(Debug, Clone)]
pub struct NoSignatureTbsCertificate {
    pub tbs_certificate_der: Vec<u8>,
    pub parts: Option<(Vec<u8>, Vec<u8>)>,
}

/// `[0] EXPLICIT INTEGER 2`: version 3.
pub open spec fn version3_der() -> Seq<u8> {
    seq![0xa0, 0x03, 0x02, 0x01, 0x02]
}

/// The DER of the extensions, one after another.
pub open spec fn extensions_content(x: Seq<(Seq<u32>, bool, Seq<u8>)>) -> Seq<u8>
    decreases x.len(),
{
    if x.len() == 0 {
        seq![]
    } else {
        extensions_content(x.drop_last()) + der::der_extension(x.last().0, x.last().1, x.last().2)
    }
}

/// The `[3] EXPLICIT Extensions` field; absent when there are none.
pub open spec fn extensions_field(x: Seq<(Seq<u32>, bool, Seq<u8>)>) -> Seq<u8> {
    if x.len() == 0 {
        seq![]
    } else {
        der_tlv(0xa3, der_tlv(0x30, extensions_content(x)))
    }
}

/// A TBSCertificate from what precedes the signature field, the signature
/// algorithm and what follows it.
pub open spec fn tbs_der(head: Seq<u8>, algorithm: Seq<u8>, tail: Seq<u8>) -> Seq<u8> {
    der_tlv(0x30, head + algorithm + tail)
}

/// `der` is the DER that `DistinguishedName::to_der` gives for `dn`.
pub open spec fn name_der(dn: DistinguishedName, der: Seq<u8>) -> bool {
    exists|v: Seq<Vec<(Vec<u32>, Vec<u8>)>>| encodes_dn(dn.dn@, v) && der == der::der_name(der::rdns_view(v))
}

/// A certificate from its TBSCertificate, signature algorithm and signature.
pub open spec fn certificate_der(tbs: Seq<u8>, algorithm: Seq<u8>, signature: Seq<u8>) -> Seq<u8> {
    der_tlv(0x30, tbs + algorithm + der_tlv(0x03, seq![0u8] + signature))
}

fn copy_slice(b: &[u8]) -> (r: Vec<u8>)
    ensures
        r@ == b@,
{
    let mut v: Vec<u8> = Vec::new();
    let mut i: usize = 0;
    while i < b.len()
        invariant
            i <= b@.len(),
            v@ == b@.subrange(0, i as int),
        decreases b@.len() - i,
    {
        v.push(b[i]);
        i += 1;
    }
    assert(v@ =~= b@);
    v
}

fn extensions_field_of(exts: &Vec<RawExtension>) -> (r: Option<Vec<u8>>)
    ensures
        r matches Some(b) ==> b@ == extensions_field(exts_view(exts@)),
        (forall|i: int| 0 <= i < exts@.len() ==> der::oid_encodes((#[trigger] exts@[i]).oid@)) ==> r is Some,
{
    if exts.len() == 0 {
        return Some(Vec::new());
    }
    let mut content: Vec<u8> = Vec::new();
    let mut i: usize = 0;
    while i < exts.len()
        invariant
            i <= exts@.len(),
            content@ == extensions_content(exts_view(exts@).subrange(0, i as int)),
        decreases exts@.len() - i,
    {
        let e = match der::encode_extension(&exts[i].oid, exts[i].critical, &exts[i].value) {
            Some(e) => e,
            None => {
                return None;
            },
        };
        let ghost before = content@;
        let mut e2 = e;
        content.append(&mut e2);
        proof {
            let p = exts_view(exts@).subrange(0, i as int + 1);
            assert(p.drop_last() =~= exts_view(exts@).subrange(0, i as int));
        }
        i += 1;
    }
    assert(exts_view(exts@).subrange(0, exts@.len() as int) =~= exts_view(exts@));
    let seq = tlv(0x30, &content);
    Some(tlv(0xa3, &seq))
}

impl NoSignatureTbsCertificate {
    /// Assemble a version 3 TBSCertificate with the given serial number, a
    /// validity from ten minutes before `now` to `not_after_epoch_seconds`,
    /// and the `id-alg-noSignature` placeholder (NULL parameter) as signature
    /// algorithm.
    pub fn new_with(
        issuer: &DistinguishedName,
        not_after_epoch_seconds: u64,
        subject: &DistinguishedName,
        subject_public_key_info_der: &[u8],
        extensions: &Extensions,
        serial_number: &SerialNumber,
        now_epoch_seconds: u64,
    ) -> (r: Result<Self, DecodingError>)
        ensures
            r matches Ok(t) ==> t.parts matches Some((head, tail)) && exists|i_der: Seq<u8>, s_der: Seq<u8>|
                #![trigger name_der(*issuer, i_der), name_der(*subject, s_der)]
                name_der(*issuer, i_der) && name_der(*subject, s_der)
                && der::generalized_time_of(crate::validity::backdated(now_epoch_seconds)) is Some
                && der::generalized_time_of(not_after_epoch_seconds) is Some
                && head@ == version3_der() + der::der_positive_integer(serial_number.octets@)
                && tail@ == i_der + der_tlv(0x30, der::generalized_time_of(crate::validity::backdated(now_epoch_seconds)).unwrap()
                    + der::generalized_time_of(not_after_epoch_seconds).unwrap()) + s_der + subject_public_key_info_der@
                    + extensions_field(extensions.spec_view())
                && t.tbs_certificate_der@ == tbs_der(head@, der::der_algorithm_null(no_signature_oid()), tail@),
            (dn_valid(issuer.dn@) && dn_valid(subject.dn@) && der::spki_decodes(subject_public_key_info_der@)
                && der::generalized_time_of(crate::validity::backdated(now_epoch_seconds)) is Some
                && der::generalized_time_of(not_after_epoch_seconds) is Some
                && (forall|i: int| 0 <= i < extensions.extensions@.len() ==> der::oid_encodes((#[trigger] extensions.extensions@[i]).oid@)))
                ==> r is Ok,
    {
        let validity = Validity::with_backdated_not_before(now_epoch_seconds, not_after_epoch_seconds);
        let issuer_der = match issuer.to_der() {
            Ok(d) => d,
            Err(_) => {
                return Err(DecodingError::with_msg("Issuer name does not encode."));
            },
        };
        let subject_der = match subject.to_der() {
            Ok(d) => d,
            Err(_) => {
                return Err(DecodingError::with_msg("Subject name does not encode."));
            },
        };
        if !der::check_spki(subject_public_key_info_der) {
            return Err(DecodingError::with_msg("SubjectPublicKeyInfo does not decode."));
        }
        let not_before = match der::encode_generalized_time(validity.not_before_epoch_seconds) {
            Some(t) => t,
            None => {
                return Err(DecodingError::with_msg("notBefore is out of range."));
            },
        };
        let not_after = match der::encode_generalized_time(validity.not_after_epoch_seconds) {
            Some(t) => t,
            None => {
                return Err(DecodingError::with_msg("notAfter is out of range."));
            },
        };
        let exts = match extensions_field_of(extensions.extensions()) {
            Some(e) => e,
            None => {
                return Err(DecodingError::with_msg("Extension identifier does not encode."));
            },
        };
        let placeholder = match der::encode_algorithm_null(&no_signature_oid_vec()) {
            Some(a) => a,
            None => {
                return Err(DecodingError::with_msg("Placeholder algorithm does not encode."));
            },
        };
        let serial = match der::encode_positive_integer(serial_number.octets.as_slice()) {
            Some(s) => s,
            None => {
                return Err(DecodingError::with_msg("Serial number does not encode."));
            },
        };
        let ghost i_der = issuer_der@;
        let ghost s_der = subject_der@;
        let ghost ser = serial@;
        let ghost nb = not_before@;
        let ghost na_ = not_after@;
        let ghost ex_ = exts@;
        assert(name_der(*issuer, i_der));
        assert(name_der(*subject, s_der));
        let mut head: Vec<u8> = vec![0xa0, 0x03, 0x02, 0x01, 0x02];
        assert(head@ =~= version3_der());
        let mut serial = serial;
        head.append(&mut serial);
        let mut times = not_before;
        let mut na = not_after;
        times.append(&mut na);
        let validity_der = tlv(0x30, &times);
        let mut tail = issuer_der;
        let mut v = validity_der;
        tail.append(&mut v);
        let mut sd = subject_der;
        tail.append(&mut sd);
        let mut spki = copy_slice(subject_public_key_info_der);
        tail.append(&mut spki);
        let mut ex = exts;
        tail.append(&mut ex);
        assert(head@ =~= version3_der() + ser);
        assert(times@ =~= nb + na_);
        assert(tail@ =~= i_der + der_tlv(0x30, nb + na_) + s_der + subject_public_key_info_der@ + ex_);
        let tbs = Self::assemble(&head, &placeholder, &tail);
        Ok(NoSignatureTbsCertificate { tbs_certificate_der: tbs, parts: Some((head, tail)) })
    }

    fn assemble(head: &Vec<u8>, algorithm: &Vec<u8>, tail: &Vec<u8>) -> (r: Vec<u8>)
        ensures
            r@ == tbs_der(head@, algorithm@, tail@),
    {
        let mut content = copy_bytes(head);
        let mut a = copy_bytes(algorithm);
        content.append(&mut a);
        let mut t = copy_bytes(tail);
        content.append(&mut t);
        tlv(0x30, &content)
    }

    /// Assemble an unsigned TBSCertificate with a freshly generated serial
    /// number and `not_before` ten minutes before the current time.
    pub fn new(
        issuer: &DistinguishedName,
        not_after_epoch_seconds: u64,
        subject: &DistinguishedName,
        subject_public_key_info_der: &[u8],
        extensions: &Extensions,
    ) -> (r: Result<Self, DecodingError>)
        ensures
            r matches Ok(t) ==> t.parts matches Some((head, tail))
                && t.tbs_certificate_der@ == tbs_der(head@, der::der_algorithm_null(no_signature_oid()), tail@),
    {
        let serial_number = match SerialNumber::generate(None) {
            Some(s) => s,
            None => {
                return Err(DecodingError::with_msg("The random source failed."));
            },
        };
        let now = Validity::now_epoch_seconds();
        Self::new_with(issuer, not_after_epoch_seconds, subject, subject_public_key_info_der, extensions, &serial_number, now)
    }

    /// Accept an existing TBSCertificate, whatever its signature algorithm;
    /// `None` when it does not decode.
    pub fn from_existing_tbs(tbs_der: &[u8]) -> (r: Option<Self>)
        ensures
            r matches Some(t) ==> t.tbs_certificate_der@ == tbs_der@ && t.parts is None,
    {
        match der::decode_tbs(tbs_der) {
            Some(_) => Some(NoSignatureTbsCertificate { tbs_certificate_der: copy_slice(tbs_der), parts: None }),
            None => None,
        }
    }

    /// Return the DER of the TBSCertificate as held.
    pub fn to_rasn_type(&self) -> (r: &Vec<u8>)
        ensures
            r@ == self.tbs_certificate_der@,
    {
        &self.tbs_certificate_der
    }

    fn with_algorithm(&self, signature_algorithm: &[u8]) -> (r: Result<rasn_pkix::TbsCertificate, DecodingError>) {
        let tbs = match der::decode_tbs(self.tbs_certificate_der.as_slice()) {
            Some(t) => t,
            None => {
                return Err(DecodingError::with_msg("TBSCertificate does not decode."));
            },
        };
        let alg = match der::decode_algorithm_identifier(signature_algorithm) {
            Some(a) => a,
            None => {
                return Err(DecodingError::with_msg("Signature algorithm does not decode."));
            },
        };
        Ok(der::with_signature_field(tbs, alg))
    }

    /// Return the bytes to sign: the TBSCertificate with its signature field
    /// set to the DER `signature_algorithm`.
    pub fn with_signature_algorithm_as_bytes(&self, signature_algorithm: &[u8]) -> (r: Result<Vec<u8>, DecodingError>)
        ensures
            self.parts matches Some((h, t)) ==> (r is Ok <==> der::algorithm_decodes(signature_algorithm@))
                && (r matches Ok(b) ==> b@ == tbs_der(h@, signature_algorithm@, t@)),
    {
        match &self.parts {
            Some((h, t)) => {
                if !der::check_algorithm_identifier(signature_algorithm) {
                    return Err(DecodingError::with_msg("Signature algorithm does not decode."));
                }
                Ok(Self::assemble(h, &copy_slice(signature_algorithm), t))
            },
            None => {
                let tbs = self.with_algorithm(signature_algorithm)?;
                match der::encode_tbs(&tbs) {
                    Some(d) => Ok(d),
                    None => Err(DecodingError::with_msg("TBSCertificate does not encode.")),
                }
            },
        }
    }

    /// Return the DER of the signed certificate: the TBSCertificate with the
    /// DER `signature_algorithm` in place, that algorithm again, and
    /// `signature` as BIT STRING.
    pub fn to_certificate(&self, signature_algorithm: &[u8], signature: Vec<u8>) -> (r: Result<Vec<u8>, DecodingError>)
        ensures
            self.parts matches Some((h, t)) ==> (r is Ok <==> der::algorithm_decodes(signature_algorithm@))
                && (r matches Ok(d) ==> d@ == certificate_der(tbs_der(h@, signature_algorithm@, t@), signature_algorithm@, signature@)),
    {
        match &self.parts {
            Some((h, t)) => {
                if !der::check_algorithm_identifier(signature_algorithm) {
                    return Err(DecodingError::with_msg("Signature algorithm does not decode."));
                }
                let alg = copy_slice(signature_algorithm);
                let mut content = Self::assemble(h, &alg, t);
                let mut a = copy_bytes(&alg);
                content.append(&mut a);
                let mut bits: Vec<u8> = vec![0u8];
                let mut sig = signature;
                bits.append(&mut sig);
                let mut bit_string = tlv(0x03, &bits);
                content.append(&mut bit_string);
                Ok(tlv(0x30, &content))
            },
            None => {
                let tbs = self.with_algorithm(signature_algorithm)?;
                match der::encode_signed_certificate(tbs, signature) {
                    Some(d) => Ok(d),
                    None => Err(DecodingError::with_msg("Certificate does not encode.")),
                }
            },
        }
    }
}

} // verus!
