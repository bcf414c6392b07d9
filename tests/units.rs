use upkit_x509::attributes::{Asn1EncodingType, WellKnownAttribute};
use upkit_x509::basic_constraints::BasicConstraints;
use upkit_x509::authority_information_access::AuthorityInfoAccessDescription;
use upkit_x509::certificate_policies::{CertificatePolicy, WellKnownCertificatePolicy};
use upkit_x509::crl_distribution_points::CrlDistributionPoint;
use upkit_x509::distinguished_name::DistinguishedName;
use upkit_x509::errors::{IdentityFragmentErrorKind};
use upkit_x509::extended_key_usage::ExtendedKeyUsage;
use upkit_x509::extensions::Extensions;
use upkit_x509::general_name::{GeneralNameValue, WellKnownGeneralName};
use upkit_x509::identity_fragment::IdentityFragment;
use upkit_x509::key_identifier::SubjectKeyIdentifier;
use upkit_x509::key_usage::KeyUsage;
use upkit_x509::oid::{as_string, from_string};
use upkit_x509::pem::{self, Marker};
use upkit_x509::puny_code::{decode, encode};
use upkit_x509::serial_number::SerialNumber;
use upkit_x509::validity::Validity;
use upkit_x509::{fingerprint_data, text};

#[test]
fn encdec_puny() {
    let dns_name_utf8 = "übernice.fantastic.åäö";
    assert_eq!(dns_name_utf8, decode(&encode(dns_name_utf8).unwrap()).unwrap())
}

#[test]
fn puny_encode_gives_ace_labels_and_lower_case() {
    assert_eq!(encode("Example.COM").unwrap(), "example.com");
    let e = encode("Übernice.se").unwrap();
    assert!(e.starts_with("xn--"));
    assert!(e.ends_with(".se"));
    assert_eq!(decode(&e).unwrap(), "übernice.se");
    assert_eq!(decode("xn--\u{0}").is_none(), true);
}

#[test]
fn check_encode_without_error() {
    let dn = DistinguishedName::new(vec![
        vec![WellKnownAttribute::CommonName.with_value("An entity")],
        vec![WellKnownAttribute::JurisdictionCountry.with_value("SE")],
    ])
    .unwrap();
    DistinguishedName::to_rasn_type(&dn.dn).unwrap();
}

#[test]
fn distinguished_name_round_trips_through_der() {
    let dn = DistinguishedName::new(vec![
        vec![WellKnownAttribute::CountryName.with_value("SE")],
        vec![WellKnownAttribute::OrganizationName.with_value("Ö Org")],
        vec![WellKnownAttribute::DomainComponent.with_value("example")],
        vec![WellKnownAttribute::CommonName.with_value("An entity")],
    ])
    .unwrap();
    let der = dn.to_der().unwrap();
    let back = DistinguishedName::from_der(&der).unwrap();
    assert_eq!(back.rnds(), dn.rnds());
    assert_eq!(back.to_der().unwrap(), der);
    assert_eq!(dn.fingerprint().unwrap(), fingerprint_data(&der));
}

#[test]
fn distinguished_name_validation_errors() {
    let e = DistinguishedName::new(vec![vec![IdentityFragment::new_unchecked("no_such_attribute", "x")]]).unwrap_err();
    assert_eq!(*e.kind(), IdentityFragmentErrorKind::UnknownAttribute);
    let e = DistinguishedName::new(vec![vec![WellKnownAttribute::CountryName.with_value("SWE")]]).unwrap_err();
    assert_eq!(*e.kind(), IdentityFragmentErrorKind::InvalidAttributeValue);
    let e = DistinguishedName::new(vec![vec![WellKnownAttribute::CountryName.with_value("S_")]]).unwrap_err();
    assert_eq!(*e.kind(), IdentityFragmentErrorKind::InvalidAttributeValue);
    let e = DistinguishedName::new(vec![vec![WellKnownAttribute::DomainComponent.with_value("å")]]).unwrap_err();
    assert_eq!(*e.kind(), IdentityFragmentErrorKind::InvalidAttributeValue);
    assert!(DistinguishedName::new(vec![vec![WellKnownAttribute::CommonName.with_value(&"x".repeat(64))]]).is_ok());
    assert!(DistinguishedName::new(vec![vec![WellKnownAttribute::CommonName.with_value(&"x".repeat(65))]]).is_err());
    assert!(DistinguishedName::new_unchecked(vec![vec![], vec![]]).is_empty());
    assert!(DistinguishedName::new_unchecked(vec![]).is_empty());
    assert!(!DistinguishedName::new_unchecked(vec![vec![], vec![WellKnownAttribute::CommonName.with_value("a")]]).is_empty());
}

#[test]
fn attribute_registry_lookups() {
    assert_eq!(WellKnownAttribute::CommonName.as_name(), "common_name");
    assert_eq!(WellKnownAttribute::JurisdictionStateOrProvince.as_name(), "jurisdiction_state_or_province");
    assert_eq!(WellKnownAttribute::by_name("organization_identifier").unwrap(), WellKnownAttribute::OrganizationIdentifier);
    assert_eq!(*WellKnownAttribute::by_name("nope").unwrap_err().kind(), IdentityFragmentErrorKind::UnknownAttribute);
    assert_eq!(WellKnownAttribute::by_oid(&[2, 5, 4, 3]).unwrap(), WellKnownAttribute::CommonName);
    assert_eq!(WellKnownAttribute::by_oid(&[1, 3, 6, 1, 4, 1, 311, 60, 2, 1, 3]).unwrap(), WellKnownAttribute::JurisdictionCountry);
    assert!(WellKnownAttribute::by_oid(&[2, 5, 4, 99]).is_err());
    let info = WellKnownAttribute::meta_data_by_name("domain_component").unwrap();
    assert_eq!(info.oid, vec![0, 9, 2342, 19200300, 100, 1, 25]);
    assert_eq!(info.encoding, Asn1EncodingType::IA5String);
    assert_eq!(info.max_char_len, 63);
    assert_eq!(WellKnownAttribute::attributes_common().len(), 12);
    assert_eq!(WellKnownAttribute::attributes_extended_validation().len(), 5);
    let (oid, der) = WellKnownAttribute::to_rasn_type(&WellKnownAttribute::CountryName.with_value("SE")).unwrap();
    assert_eq!(oid, vec![2, 5, 4, 6]);
    assert_eq!(der, vec![0x13, 0x02, b'S', b'E']);
    let f = WellKnownAttribute::from_rasn_type(&[2, 5, 4, 3], &[0x0c, 0x02, b'h', b'i']).unwrap();
    assert_eq!(f.name, "common_name");
    assert_eq!(f.value, "hi");
    // A UTF8String attribute also accepts a PrintableString.
    let f = WellKnownAttribute::from_rasn_type(&[2, 5, 4, 3], &[0x13, 0x02, b'h', b'i']).unwrap();
    assert_eq!(f.value, "hi");
    let e = WellKnownAttribute::from_rasn_type(&[2, 5, 4, 6], &[0x0c, 0x02, b'h', b'i']).unwrap_err();
    assert_eq!(*e.kind(), IdentityFragmentErrorKind::DecodingFailure);
}

#[test]
fn oid_text_conversions() {
    assert_eq!(from_string("1.3.6.1.5.5.7.6.2").unwrap(), vec![1, 3, 6, 1, 5, 5, 7, 6, 2]);
    assert_eq!(from_string("4294967295").unwrap(), vec![4294967295]);
    assert!(from_string("4294967296").is_err());
    assert!(from_string("1..2").is_err());
    assert!(from_string("").is_err());
    assert!(from_string("1.2.").is_err());
    assert!(from_string("1.a").is_err());
    assert_eq!(as_string(&[2, 23, 140, 1, 2, 1]), "2.23.140.1.2.1");
    assert_eq!(as_string(&[]), "");
}

#[test]
fn hex_and_fingerprint() {
    assert_eq!(text::to_hex(&[0x00, 0xab, 0x0f]), "00ab0f");
    let fp = fingerprint_data(b"");
    assert_eq!(fp, "a69f73cca23a9ac5c8b567dc185a756e97c982164fe25859e0d1dcc1475c80a615b2123af1f5f94c11e3e9402c3ac558f500199d95b6d3e301758586281dcd26");
}

#[test]
fn key_usage_bits_have_no_trailing_zero() {
    assert_eq!(KeyUsage::to_bits(&[KeyUsage::DigitalSignature]), vec![true]);
    assert_eq!(KeyUsage::to_bits(&[KeyUsage::KeyCertSign, KeyUsage::CRLSign]), vec![false, false, false, false, false, true, true]);
    assert_eq!(KeyUsage::to_bits(&[KeyUsage::DecipherOnly]).len(), 9);
    assert!(KeyUsage::to_bits(&[]).is_empty());
    assert_eq!(KeyUsage::CRLSign.index(), 6);
    let flags = KeyUsage::flags_of_bits(&KeyUsage::to_bits(&[KeyUsage::KeyAgreement, KeyUsage::DigitalSignature]));
    assert_eq!(flags, [true, false, false, false, true, false, false, false, false]);
}

#[test]
fn key_usage_extension_is_critical_bit_string() {
    let mut exts = Extensions::new();
    assert!(exts.add_key_usage(&[KeyUsage::KeyCertSign]));
    let e = &exts.extensions()[0];
    assert!(e.critical);
    assert_eq!(e.oid, vec![2, 5, 29, 15]);
    assert_eq!(e.value, vec![0x03, 0x02, 0x02, 0x04]);
    let mut exts = Extensions::new();
    assert!(exts.add_key_usage(&[]));
    assert!(exts.extensions().is_empty());
}

#[test]
fn basic_constraints_extension_criticality() {
    let mut exts = Extensions::new();
    assert!(exts.add_basic_constraints(&BasicConstraints::new_ca(Some(1))));
    assert!(exts.extensions()[0].critical);
    assert!(exts.add_basic_constraints(&BasicConstraints::new_leaf()));
    assert_eq!(exts.extensions().len(), 1);
    assert!(!exts.extensions()[0].critical);
    assert_eq!(BasicConstraints::new_leaf().path_len(), None);
    assert_eq!(BasicConstraints::new_ca(Some(2)).path_len(), Some(2));
}

#[test]
fn subject_key_identifier_is_32_bytes() {
    let ski = SubjectKeyIdentifier::get_key_identifier_bytes(b"some raw key");
    assert_eq!(ski.len(), 32);
    assert_ne!(ski, SubjectKeyIdentifier::get_key_identifier_bytes(b"other raw key"));
}

#[test]
fn generated_serial_numbers_are_positive_and_sized() {
    for n in [None, Some(0), Some(9), Some(15), Some(20), Some(100)] {
        let s = SerialNumber::generate(n).unwrap();
        let len = s.octets.len();
        assert!((9..=20).contains(&len));
        assert!(s.octets[0] < 0x80);
        assert!(s.octets.iter().any(|b| *b != 0));
    }
    assert_eq!(SerialNumber::generate(Some(3)).unwrap().octets.len(), 9);
    assert_eq!(SerialNumber::generate(None).unwrap().octets.len(), 20);
}

#[test]
fn validity_is_a_closed_interval() {
    let v = Validity::new(10, 20);
    assert!(v.is_valid_at(10));
    assert!(v.is_valid_at(20));
    assert!(!v.is_valid_at(9));
    assert!(!v.is_valid_at(21));
    let b = Validity::with_backdated_not_before(1000, 5000);
    assert_eq!(b.get_not_before(), 400);
    assert_eq!(Validity::with_backdated_not_before(10, 5000).get_not_before(), 0);
}

#[test]
fn explicit_text_is_truncated_to_200_characters() {
    let long: String = "é".repeat(250);
    let t = CertificatePolicy::explicit_text_for_emission(&Some(long)).unwrap();
    assert_eq!(t.chars().count(), 200);
    assert_eq!(CertificatePolicy::explicit_text_for_emission(&Some(String::new())), None);
    assert_eq!(CertificatePolicy::explicit_text_for_emission(&Some("short".to_string())).unwrap(), "short");
}

#[test]
fn extended_key_usage_registry() {
    assert_eq!(ExtendedKeyUsage::PkixServerAuth.value(), vec![1, 3, 6, 1, 5, 5, 7, 3, 1]);
    assert_eq!(ExtendedKeyUsage::from_oid(&[1, 3, 6, 1, 5, 5, 7, 3, 2]), ExtendedKeyUsage::PkixClientAuth);
    assert_eq!(ExtendedKeyUsage::from_oid(&[1, 2, 3]), ExtendedKeyUsage::Custom { oid: vec![1, 2, 3] });
    assert_eq!(ExtendedKeyUsage::to_rasn_type(&[ExtendedKeyUsage::AnyExtendedKeyUsage]), vec![vec![2, 5, 29, 37, 0]]);
    assert_eq!(WellKnownCertificatePolicy::CabfDomainValidated.as_oid(), vec![2, 23, 140, 1, 2, 1]);
}

#[test]
fn general_names_to_wire_and_back() {
    let g = WellKnownGeneralName::IpAddress.to_rasn_type("192.168.0.1").unwrap();
    assert_eq!(g, GeneralNameValue::IpAddress(vec![192, 168, 0, 1]));
    assert_eq!(WellKnownGeneralName::from_rasn_type(&g).unwrap().1, "192.168.0.1");
    assert!(WellKnownGeneralName::IpAddress.to_rasn_type("300.1.1.1").is_none());
    let g = WellKnownGeneralName::Rfc822Name.to_rasn_type("user@exämple.se").unwrap();
    assert_eq!(g, GeneralNameValue::Rfc822Name(format!("user@{}", encode("exämple.se").unwrap())));
    assert_eq!(WellKnownGeneralName::from_rasn_type(&g).unwrap().1, "user@exämple.se");
    assert!(WellKnownGeneralName::Rfc822Name.to_rasn_type("a@b@c").is_none());
    let g = WellKnownGeneralName::RegisteredId.to_rasn_type("1.2.3").unwrap();
    assert_eq!(WellKnownGeneralName::from_rasn_type(&g).unwrap().1, "1.2.3");
    let v6 = GeneralNameValue::IpAddress(vec![0x20, 0x01, 0x0d, 0xb8, 0, 0, 0, 0, 0, 0, 0, 0, 0, 0, 0, 1]);
    assert_eq!(WellKnownGeneralName::from_rasn_type(&v6).unwrap().1, "2001:db8::1");
    assert_eq!(WellKnownGeneralName::IpAddress.to_rasn_type("2001:DB8::1").unwrap(), v6);
    assert_eq!(WellKnownGeneralName::IpAddress.to_rasn_type("::").unwrap(), GeneralNameValue::IpAddress(vec![0; 16]));
    let full = WellKnownGeneralName::IpAddress.to_rasn_type("1:2:3:4:5:6:7:8").unwrap();
    assert_eq!(WellKnownGeneralName::from_rasn_type(&full).unwrap().1, "1:2:3:4:5:6:7:8");
    let mid = WellKnownGeneralName::IpAddress.to_rasn_type("1:0:0:4:0:0:0:8").unwrap();
    assert_eq!(WellKnownGeneralName::from_rasn_type(&mid).unwrap().1, "1:0:0:4::8");
    assert!(WellKnownGeneralName::IpAddress.to_rasn_type("1::2::3").is_none());
    assert!(WellKnownGeneralName::IpAddress.to_rasn_type("1:2:3:4:5:6:7").is_none());
    assert!(WellKnownGeneralName::IpAddress.to_rasn_type("12345::").is_none());
    assert_eq!(WellKnownGeneralName::by_name("dns_name"), Some(WellKnownGeneralName::DnsName));
    assert_eq!(WellKnownGeneralName::Uri.as_name(), "uri");
    assert_eq!(WellKnownGeneralName::by_name("x"), None);
}

#[test]
fn crl_distribution_point_round_trip() {
    let mut exts = Extensions::new();
    assert!(exts.add_crl_distribution_points("http://crl.example.com/ca.crl"));
    let e = &exts.extensions()[0];
    assert_eq!(e.oid, vec![2, 5, 29, 31]);
    assert!(!e.critical);
    assert_eq!(CrlDistributionPoint::from_rasn_type(&e.value).unwrap(), "http://crl.example.com/ca.crl");
    assert_eq!(CrlDistributionPoint::from_rasn_type(&[1, 2]), None);
}

#[test]
fn crl_uri_prefers_http_over_ldap() {
    let names = vec![
        GeneralNameValue::Uri("ldap://x".to_string()),
        GeneralNameValue::DnsName("x".to_string()),
        GeneralNameValue::Uri("http://x".to_string()),
    ];
    assert_eq!(CrlDistributionPoint::first_uri(&names).unwrap(), "http://x");
    assert_eq!(CrlDistributionPoint::first_uri(&vec![GeneralNameValue::DnsName("x".to_string())]), None);
}

#[test]
fn access_method_oids() {
    let ocsp = AuthorityInfoAccessDescription::Ocsp { uri: "http://ocsp".to_string() };
    assert_eq!(ocsp.access_method_oid(), vec![1, 3, 6, 1, 5, 5, 7, 48, 1]);
    let other = AuthorityInfoAccessDescription::Other { oid: vec![1, 2], access_location: (WellKnownGeneralName::Uri, "x".to_string()) };
    assert_eq!(other.access_method_oid(), vec![1, 2]);
}

#[test]
fn pem_round_trip_and_errors() {
    let data: Vec<u8> = (0..100u8).collect();
    let text = pem::encode(&[(Marker::Certificate, data.clone()), (Marker::Custom("THING".to_string()), vec![1, 2, 3])]);
    assert!(text.starts_with("-----BEGIN CERTIFICATE-----\n"));
    assert!(text.lines().all(|l| l.len() <= 64 || l.starts_with("-----")));
    let blocks = pem::parse(&text).unwrap();
    assert_eq!(blocks.len(), 2);
    assert_eq!(blocks[0].0, Marker::Certificate);
    assert_eq!(blocks[0].1, data);
    assert_eq!(blocks[1].0.as_str(), "THING");
    assert_eq!(blocks[1].1, vec![1, 2, 3]);
    assert!(pem::parse("-----BEGIN CERTIFICATE-----\nAAEC\n").is_err());
    assert!(pem::parse("-----BEGIN CERTIFICATE-----\n!!!!\n-----END CERTIFICATE-----\n").is_err());
    assert!(pem::parse("-----END CERTIFICATE-----\n").is_err());
    assert_eq!(Marker::from_begin_line("-----BEGIN X509 CRL-----"), Marker::CertificateRevocationList);
}

#[test]
fn typed_extension_values_round_trip() {
    for bc in [BasicConstraints::new_leaf(), BasicConstraints::new_ca(None), BasicConstraints::new_ca(Some(0)), BasicConstraints::new_ca(Some(7))] {
        assert_eq!(BasicConstraints::from_rasn_type(&bc.to_rasn_type().unwrap()), Some(bc));
    }
    let kus = [KeyUsage::NonRepudiation, KeyUsage::DecipherOnly];
    let flags = KeyUsage::from_rasn_type(&KeyUsage::to_rasn_type(&kus).unwrap()).unwrap();
    assert_eq!(flags, [false, true, false, false, false, false, false, false, true]);
    let policies = vec![
        CertificatePolicy::OidPolicy { oid: vec![2, 5, 29, 32, 0] },
        CertificatePolicy::CspPolicy { oid: vec![1, 2, 3], uri: "http://cps".to_string() },
        CertificatePolicy::UserNoticePolicy { oid: vec![1, 2, 5], notice_ref: None, explicit_text: Some("Hello".to_string()) },
        CertificatePolicy::UserNoticePolicy { oid: vec![1, 2, 6], notice_ref: Some(("Org".to_string(), vec![3])), explicit_text: None },
    ];
    assert_eq!(CertificatePolicy::from_rasn_type(&CertificatePolicy::to_rasn_type(&policies).unwrap()).unwrap(), policies);
    let aia = vec![
        AuthorityInfoAccessDescription::Ocsp { uri: "http://ocsp".to_string() },
        AuthorityInfoAccessDescription::CaIssuers { access_location: (WellKnownGeneralName::Uri, "http://ca".to_string()) },
    ];
    assert_eq!(AuthorityInfoAccessDescription::from_rasn_type(&AuthorityInfoAccessDescription::to_rasn_type(&aia).unwrap()).unwrap(), aia);
    assert_eq!(CrlDistributionPoint::from_rasn_type(&CrlDistributionPoint::to_rasn_type("ldap://crl").unwrap()).unwrap(), "ldap://crl");
    assert!(BasicConstraints::from_rasn_type(&[0x01]).is_none());
}
