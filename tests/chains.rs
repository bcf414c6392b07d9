use upkit_x509::attributes::WellKnownAttribute;
use upkit_x509::authority_information_access::AuthorityInfoAccessDescription;
use upkit_x509::basic_constraints::BasicConstraints;
use upkit_x509::certificate_policies::{CertificatePolicy, WellKnownCertificatePolicy};
use upkit_x509::checkers::{CertificatePoliciesChecker, Checker, ExtendedKeyUsageChecker};
use upkit_x509::distinguished_name::DistinguishedName;
use upkit_x509::errors::{CertificateParsingErrorKind, CertificateValidationErrorKind};
use upkit_x509::extended_key_usage::ExtendedKeyUsage;
use upkit_x509::extensions::Extensions;
use upkit_x509::general_name::WellKnownGeneralName;
use upkit_x509::key_identifier::{AuthorityKeyIdentifier, SubjectKeyIdentifier};
use upkit_x509::key_usage::KeyUsage;
use upkit_x509::parse::CertificateParser;
use upkit_x509::serial_number::SerialNumber;
use upkit_x509::tbs::NoSignatureTbsCertificate;
use upkit_x509::validate::CertificatePathValidator;

const AT: u64 = 1739555555;
const ED25519_ALG: [u8; 7] = [0x30, 0x05, 0x06, 0x03, 0x2b, 0x65, 0x70];

fn raw_key(seed: u8) -> Vec<u8> {
    (0..32u8).map(|i| i.wrapping_mul(7).wrapping_add(seed)).collect()
}

fn spki(seed: u8) -> Vec<u8> {
    let mut v = vec![0x30, 0x2a, 0x30, 0x05, 0x06, 0x03, 0x2b, 0x65, 0x70, 0x03, 0x21, 0x00];
    v.extend(raw_key(seed));
    v
}

/// A stand-in signature scheme for the tests: the signature is the signer's
/// SubjectPublicKeyInfo followed by the length of the signed bytes.
fn fake_sign(signer_spki: &[u8], tbs: &[u8]) -> Vec<u8> {
    let mut s = signer_spki.to_vec();
    s.extend((tbs.len() as u64).to_be_bytes());
    s
}

fn fake_verify(cert: &CertificateParser, issuer: &CertificateParser) -> Option<bool> {
    let oid = cert.get_encoded_signature().0;
    if oid != "1.3.101.112" {
        return None;
    }
    Some(cert.signature_value == fake_sign(&issuer.spki_der, &cert.tbs_der))
}

fn cn(name: &str) -> DistinguishedName {
    DistinguishedName::new(vec![vec![WellKnownAttribute::CommonName.with_value(name)]]).unwrap()
}

struct Spec<'a> {
    subject: &'a str,
    issuer: &'a str,
    key: u8,
    issuer_key: u8,
    ca: Option<Option<usize>>,
    kus: Vec<KeyUsage>,
    not_after: u64,
    extra_critical: bool,
}

fn build(spec: &Spec) -> Vec<u8> {
    let mut exts = Extensions::new();
    if let Some(path_len) = spec.ca {
        assert!(exts.add_basic_constraints(&BasicConstraints::new_ca(path_len)));
    } else {
        assert!(exts.add_basic_constraints(&BasicConstraints::new_leaf()));
    }
    assert!(exts.add_key_usage(&spec.kus));
    assert!(exts.add_subject_key_identifier(&SubjectKeyIdentifier::from_public_key(&raw_key(spec.key))));
    assert!(exts.add_authority_key_identifier(&AuthorityKeyIdentifier::from_public_key(&raw_key(spec.issuer_key))));
    if spec.extra_critical {
        exts.set_extension(vec![1, 2, 3, 4, 5], true, vec![0x05, 0x00]);
    }
    let serial = SerialNumber::from_rasn_type(vec![0x01, 0x02, spec.key]);
    let tbs = NoSignatureTbsCertificate::new_with(
        &cn(spec.issuer),
        spec.not_after,
        &cn(spec.subject),
        &spki(spec.key),
        &exts,
        &serial,
        AT - 1000,
    )
    .unwrap();
    let to_sign = tbs.with_signature_algorithm_as_bytes(&ED25519_ALG).unwrap();
    let signature = fake_sign(&spki(spec.issuer_key), &to_sign);
    tbs.to_certificate(&ED25519_ALG, signature).unwrap()
}

fn root() -> Vec<u8> {
    build(&Spec { subject: "H1 Root CA", issuer: "H1 Root CA", key: 1, issuer_key: 1, ca: Some(None),
        kus: vec![KeyUsage::KeyCertSign, KeyUsage::CRLSign], not_after: AT + 1_000_000, extra_critical: false })
}

fn sub() -> Vec<u8> {
    build(&Spec { subject: "H1 Sub CA", issuer: "H1 Root CA", key: 2, issuer_key: 1, ca: Some(Some(0)),
        kus: vec![KeyUsage::KeyCertSign], not_after: AT + 1_000_000, extra_critical: false })
}

fn leaf() -> Vec<u8> {
    build(&Spec { subject: "H1 Leaf", issuer: "H1 Sub CA", key: 3, issuer_key: 2, ca: None,
        kus: vec![KeyUsage::DigitalSignature], not_after: AT + 1000, extra_critical: false })
}

fn validator() -> CertificatePathValidator {
    CertificatePathValidator::new(vec![root()]).unwrap().add_standard_extension_checkers()
}

#[test]
fn test_cert_path() {
    validator().validate(vec![leaf(), sub()], AT, vec![], fake_verify).unwrap();
}

#[test]
fn chain_out_of_order_validates_like_ordered_chain() {
    validator().validate(vec![sub(), leaf()], AT, vec![], fake_verify).unwrap();
}

#[test]
fn expired_leaf_is_invalid_life_span() {
    let e = validator().validate(vec![leaf(), sub()], AT + 2000, vec![], fake_verify).unwrap_err();
    assert_eq!(*e.kind(), CertificateValidationErrorKind::InvalidLifeSpan);
}

#[test]
fn unknown_critical_extension_is_unhandled() {
    let leaf = build(&Spec { subject: "H1 Leaf", issuer: "H1 Sub CA", key: 3, issuer_key: 2, ca: None,
        kus: vec![KeyUsage::DigitalSignature], not_after: AT + 1000, extra_critical: true });
    let e = validator().validate(vec![leaf, sub()], AT, vec![], fake_verify).unwrap_err();
    assert_eq!(*e.kind(), CertificateValidationErrorKind::UnhandledCriticalExtensions);
    assert!(e.msg.unwrap().contains("1.2.3.4.5"));
}

#[test]
fn signature_under_other_key_is_invalid_signature() {
    let sub = build(&Spec { subject: "H1 Sub CA", issuer: "H1 Root CA", key: 2, issuer_key: 9, ca: Some(Some(0)),
        kus: vec![KeyUsage::KeyCertSign], not_after: AT + 1_000_000, extra_critical: false });
    let e = validator().validate(vec![leaf(), sub], AT, vec![], fake_verify).unwrap_err();
    assert_eq!(*e.kind(), CertificateValidationErrorKind::InvalidSignature);
}

#[test]
fn unknown_signature_algorithm() {
    let e = validator().validate(vec![leaf(), sub()], AT, vec![], |_: &CertificateParser, _: &CertificateParser| None)
        .unwrap_err();
    assert_eq!(*e.kind(), CertificateValidationErrorKind::UnknownSignature);
}

#[test]
fn missing_intermediate_is_not_trusted() {
    let e = validator().validate(vec![leaf()], AT, vec![], fake_verify).unwrap_err();
    assert_eq!(*e.kind(), CertificateValidationErrorKind::NotTrusted);
}

#[test]
fn missing_parent_inside_chain_is_not_one_leaf() {
    let other = build(&Spec { subject: "Other CA", issuer: "Other Root", key: 5, issuer_key: 6, ca: Some(None),
        kus: vec![KeyUsage::KeyCertSign], not_after: AT + 1000, extra_critical: false });
    let e = validator().validate(vec![leaf(), other], AT, vec![], fake_verify).unwrap_err();
    assert_eq!(*e.kind(), CertificateValidationErrorKind::NotOneLeaf);
    let leaf_fp = CertificateParser::from_bytes(&leaf()).unwrap().fingerprint().to_string();
    assert!(e.msg.unwrap().contains(&leaf_fp));
}

#[test]
fn two_leaves_is_not_one_leaf() {
    let e = validator().validate(vec![leaf(), leaf()], AT, vec![], fake_verify).unwrap_err();
    assert_eq!(*e.kind(), CertificateValidationErrorKind::NotOneLeaf);
}

#[test]
fn anchor_inside_chain_cuts_the_chain() {
    let v = CertificatePathValidator::new(vec![sub()]).unwrap().add_standard_extension_checkers();
    // The root after the anchor is ignored; its own validity does not matter.
    v.validate(vec![leaf(), sub(), root()], AT, vec![], fake_verify).unwrap();
}

#[test]
fn lone_leaf_trust_anchor_is_accepted() {
    let v = CertificatePathValidator::new(vec![leaf()]).unwrap().add_standard_extension_checkers();
    v.validate(vec![leaf()], AT, vec![], fake_verify).unwrap();
}

#[test]
fn path_len_zero_forbids_intermediate_below() {
    let sub0 = build(&Spec { subject: "H1 Sub CA", issuer: "H1 Root CA", key: 2, issuer_key: 1, ca: Some(Some(0)),
        kus: vec![KeyUsage::KeyCertSign], not_after: AT + 1_000_000, extra_critical: false });
    let sub2 = build(&Spec { subject: "H1 Sub2 CA", issuer: "H1 Sub CA", key: 4, issuer_key: 2, ca: Some(None),
        kus: vec![KeyUsage::KeyCertSign], not_after: AT + 1_000_000, extra_critical: false });
    let leaf2 = build(&Spec { subject: "H1 Leaf", issuer: "H1 Sub2 CA", key: 3, issuer_key: 4, ca: None,
        kus: vec![KeyUsage::DigitalSignature], not_after: AT + 1000, extra_critical: false });
    let e = validator().validate(vec![leaf2, sub2, sub0], AT, vec![], fake_verify).unwrap_err();
    assert_eq!(*e.kind(), CertificateValidationErrorKind::ExtensionHandlingFailure);
}

#[test]
fn extended_key_usage_and_policy_checkers_reject_missing_values() {
    let checkers = vec![
        Checker::ExtendedKeyUsage(ExtendedKeyUsageChecker::new(vec![ExtendedKeyUsage::PkixServerAuth])),
    ];
    let e = validator().validate(vec![leaf(), sub()], AT, checkers, fake_verify).unwrap_err();
    assert_eq!(*e.kind(), CertificateValidationErrorKind::ExtensionHandlingFailure);
    let policies = vec![Checker::CertificatePolicies(CertificatePoliciesChecker::new(vec![
        CertificatePolicy::OidPolicy { oid: WellKnownCertificatePolicy::CabfDomainValidated.as_oid() },
    ]))];
    let e = validator().validate(vec![leaf(), sub()], AT, policies, fake_verify).unwrap_err();
    assert_eq!(*e.kind(), CertificateValidationErrorKind::ExtensionHandlingFailure);
}

#[test]
fn unparsable_anchor_is_certificate_parsing_error() {
    let e = CertificatePathValidator::new(vec![vec![1, 2, 3]]).err().unwrap();
    assert_eq!(*e.kind(), CertificateValidationErrorKind::CertificateParsingError);
}

#[test]
fn parsed_certificate_round_trips_tbs_and_signature() {
    let der = leaf();
    let p = CertificateParser::from_bytes(&der).unwrap();
    assert_eq!(p.get_subject().unwrap().rnds()[0][0].value, "H1 Leaf");
    assert_eq!(p.get_issuer().unwrap().rnds()[0][0].value, "H1 Sub CA");
    assert_eq!(p.get_basic_constraints(), Some(BasicConstraints::new_leaf()));
    let ku = p.get_key_usage().unwrap();
    assert!(ku[0]);
    assert!(!ku[5]);
    assert_eq!(p.get_subject_key_identifier_kid().unwrap().len(), 32);
    assert_eq!(p.get_validity().get_not_after(), AT + 1000);
    assert_eq!(p.get_validity().get_not_before(), AT - 1000 - 600);
    assert_eq!(p.get_serial_number().octets, vec![0x01, 0x02, 3]);
    assert_eq!(p.get_encoded_signature().0, "1.3.101.112");
    assert_eq!(p.fingerprint().len(), 128);
    // The signed bytes are the TBSCertificate of the parsed certificate.
    assert_eq!(p.signature_value, fake_sign(&spki(2), &p.get_encoded_tbs_certificate()));
    assert!(der.windows(p.tbs_der.len()).any(|w| w == p.tbs_der.as_slice()));
}

#[test]
fn subject_alternative_name_is_critical_for_empty_subject() {
    let mut exts = Extensions::new();
    assert!(exts.add_subject_alternative_name(&[(WellKnownGeneralName::DnsName, "example.com".to_string())], true));
    assert!(exts.extensions()[0].critical);
    let mut exts = Extensions::new();
    assert!(exts.add_subject_alternative_name(&[(WellKnownGeneralName::DnsName, "example.com".to_string())], false));
    assert!(!exts.extensions()[0].critical);
    let mut exts = Extensions::new();
    assert!(exts.add_subject_alternative_name(&[], true));
    assert!(exts.extensions().is_empty());
}

#[test]
fn extensions_round_trip_through_certificate() {
    let mut exts = Extensions::new();
    assert!(exts.add_extended_key_usage(&[ExtendedKeyUsage::PkixServerAuth, ExtendedKeyUsage::Custom { oid: vec![1, 2, 3, 4] }]));
    let long_text = "x".repeat(250);
    let policies = vec![
        CertificatePolicy::OidPolicy { oid: WellKnownCertificatePolicy::CabfDomainValidated.as_oid() },
        CertificatePolicy::CspPolicy { oid: vec![1, 2, 3], uri: "http://cps.example.com".to_string() },
        CertificatePolicy::UserNoticePolicy {
            oid: vec![1, 2, 4],
            notice_ref: Some(("Org".to_string(), vec![1, 2])),
            explicit_text: Some(long_text.clone()),
        },
    ];
    assert!(exts.add_certificate_policies(&policies));
    let aia = vec![
        AuthorityInfoAccessDescription::Ocsp { uri: "http://ocsp.example.com".to_string() },
        AuthorityInfoAccessDescription::CaIssuers { access_location: (WellKnownGeneralName::Uri, "http://ca.example.com/ca.crt".to_string()) },
        AuthorityInfoAccessDescription::Other { oid: vec![1, 3, 6, 1, 5, 5, 7, 48, 5], access_location: (WellKnownGeneralName::Uri, "http://x".to_string()) },
    ];
    assert!(exts.add_authority_information_access(&aia));
    let san = vec![
        (WellKnownGeneralName::DnsName, "www.exämple.com".to_string()),
        (WellKnownGeneralName::Rfc822Name, "user@example.com".to_string()),
        (WellKnownGeneralName::IpAddress, "10.0.0.1".to_string()),
        (WellKnownGeneralName::Uri, "https://example.com/".to_string()),
        (WellKnownGeneralName::RegisteredId, "1.2.3.4".to_string()),
    ];
    assert!(exts.add_subject_alternative_name(&san, false));
    assert!(exts.add_issuer_alternative_name(&[(WellKnownGeneralName::DnsName, "issuer.example.com".to_string())]));
    assert!(exts.add_crl_distribution_points("http://crl.example.com/ca.crl"));
    let serial = SerialNumber::generate(None).unwrap();
    let tbs = NoSignatureTbsCertificate::new_with(&cn("Issuer"), AT + 10, &cn("Subject"), &spki(7), &exts, &serial, AT).unwrap();
    let der = tbs.to_certificate(&ED25519_ALG, vec![1, 2, 3]).unwrap();
    let p = CertificateParser::from_bytes(&der).unwrap();
    assert_eq!(p.get_serial_number().octets, serial.octets);
    assert_eq!(p.get_extended_key_usage(), &vec![ExtendedKeyUsage::PkixServerAuth, ExtendedKeyUsage::Custom { oid: vec![1, 2, 3, 4] }]);
    let got = p.get_certificate_policies();
    assert_eq!(got.len(), 3);
    assert_eq!(got[0], policies[0]);
    assert_eq!(got[1], policies[1]);
    assert_eq!(
        got[2],
        CertificatePolicy::UserNoticePolicy {
            oid: vec![1, 2, 4],
            notice_ref: Some(("Org".to_string(), vec![1, 2])),
            explicit_text: Some("x".repeat(200)),
        }
    );
    assert_eq!(p.get_authority_information_access().unwrap(), aia);
    assert_eq!(p.get_subject_alternative_name().unwrap(), san.into_iter().map(|(k, v)| (k, v.to_lowercase())).collect::<Vec<_>>());
    assert_eq!(p.get_issuer_alternative_name().unwrap(), vec![(WellKnownGeneralName::DnsName, "issuer.example.com".to_string())]);
    assert_eq!(p.signature_value, vec![1, 2, 3]);
    // An unsigned TBSCertificate carries the placeholder id-alg-noSignature.
    let unsigned = CertificateParser::from_bytes(&tbs.to_certificate(&[0x30, 0x0c, 0x06, 0x08, 0x2b, 0x06, 0x01, 0x05, 0x05, 0x07, 0x06, 0x02, 0x05, 0x00], vec![]).unwrap()).unwrap();
    assert_eq!(unsigned.get_encoded_signature().0, "1.3.6.1.5.5.7.6.2");
    let tbs_only = CertificateParser::from_bytes(&tbs.to_certificate(&ED25519_ALG, vec![]).unwrap()).unwrap();
    let reparsed = NoSignatureTbsCertificate::from_existing_tbs(tbs.to_rasn_type()).unwrap();
    assert_eq!(reparsed.to_rasn_type(), tbs.to_rasn_type());
    assert_eq!(tbs_only.get_encoded_tbs_certificate(), tbs.with_signature_algorithm_as_bytes(&ED25519_ALG).unwrap());
}

#[test]
fn expired_trust_anchor_is_invalid_life_span() {
    let old_root = build(&Spec { subject: "H1 Root CA", issuer: "H1 Root CA", key: 1, issuer_key: 1, ca: Some(None),
        kus: vec![KeyUsage::KeyCertSign], not_after: AT - 1, extra_critical: false });
    let v = CertificatePathValidator::new(vec![old_root]).unwrap().add_standard_extension_checkers();
    let e = v.validate(vec![leaf(), sub()], AT, vec![], fake_verify).unwrap_err();
    assert_eq!(*e.kind(), CertificateValidationErrorKind::InvalidLifeSpan);
}

#[test]
fn garbage_is_a_certificate_decoding_error() {
    let e = CertificateParser::from_bytes(&[0x30, 0x03, 0x02, 0x01, 0x01]).unwrap_err();
    assert_eq!(*e.kind(), CertificateParsingErrorKind::CertificateDecodingError);
}

#[test]
fn lone_ca_trust_anchor_is_accepted() {
    let v = CertificatePathValidator::new(vec![root()]).unwrap();
    v.validate(vec![root()], AT, vec![], fake_verify).unwrap();
    let with_standard = CertificatePathValidator::new(vec![root()]).unwrap()
        .add_extension_checkers(vec![Checker::BasicConstraints(upkit_x509::checkers::BasicConstraintsChecker::default())]);
    with_standard.validate(vec![root()], AT, vec![], fake_verify).unwrap();
}
