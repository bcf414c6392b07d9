//! Registry of well-known Distinguished Name attributes: name, object
//! identifier, preferred ASN.1 string encoding and maximum length.
use vstd::prelude::*;
use crate::errors::{IdentityFragmentError, IdentityFragmentErrorKind};
use crate::identity_fragment::IdentityFragment;
use crate::oid::same_oid;
use crate::text::{chars_of, same_text};

verus! {

/// Preferred encoding of a well-known attribute's value.
#[derive(Debug, Clone, Copy, PartialEq, Eq, Structural)]
pub enum Asn1EncodingType {
    /// ASN.1 IA5String
    IA5String,
    /// ASN.1 PrintableString
    PrintableString,
    /// ASN.1 Utf8String
    Utf8String,
}

/// Metadata of a well-known attribute.
#[derive(Debug, Clone)]
pub struct AttributeTypeAndValueInfo {
    /// Attribute object identifier.
    pub oid: Vec<u32>,
    /// Preferred encoding of the attribute's value.
    pub encoding: Asn1EncodingType,
    /// Maximum number of characters of the attribute's value.
    pub max_char_len: usize,
}

/// Well-known Distinguished Name attributes.
#[derive(Debug, Clone, Copy, PartialEq, Eq, Structural)]
pub enum WellKnownAttribute {
    /// Serial number of the subject (X.520 6.2.9; EV registration number).
    SerialNumber,
    /// One label of a DNS domain name (RFC 4519 2.4).
    DomainComponent,
    /// Country as ISO 3166-1 alpha-2 code (X.520 6.3.1).
    CountryName,
    /// Geographical subdivision (X.520 6.3.5).
    StateOrProvinceName,
    /// City or similar area (X.520 6.2.4).
    LocalityName,
    /// Postal code (X.520 6.6.2).
    PostalCode,
    /// Street address (X.520 6.2.6).
    StreetAddress,
    /// Organization (X.520 6.4.1).
    OrganizationName,
    /// Last name (X.520 6.2.3).
    Surname,
    /// First name (X.520 6.2.4).
    GivenName,
    /// Part of an organization (X.520 6.4.2).
    OrganizationalUnitName,
    /// Name by which the entity is commonly known (X.520 6.2.2).
    CommonName,
    /// Business category (X.520 6.2.5, EV guidelines 7.1.4.2.3).
    BusinessCategory,
    /// Jurisdiction of incorporation: country (EV guidelines 7.1.4.2.4).
    JurisdictionCountry,
    /// Jurisdiction of incorporation: state or province (EV guidelines 7.1.4.2.4).
    JurisdictionStateOrProvince,
    /// Jurisdiction of incorporation: locality (EV guidelines 7.1.4.2.4).
    JurisdictionLocality,
    /// Organization identifier other than its name (X.520 6.4.4).
    OrganizationIdentifier,
}

/// The snake_case name of an attribute.
pub open spec fn attr_name(a: WellKnownAttribute) -> Seq<char> {
    match a {
        WellKnownAttribute::SerialNumber => "serial_number"@,
        WellKnownAttribute::DomainComponent => "domain_component"@,
        WellKnownAttribute::CountryName => "country_name"@,
        WellKnownAttribute::StateOrProvinceName => "state_or_province_name"@,
        WellKnownAttribute::LocalityName => "locality_name"@,
        WellKnownAttribute::PostalCode => "postal_code"@,
        WellKnownAttribute::StreetAddress => "street_address"@,
        WellKnownAttribute::OrganizationName => "organization_name"@,
        WellKnownAttribute::Surname => "surname"@,
        WellKnownAttribute::GivenName => "given_name"@,
        WellKnownAttribute::OrganizationalUnitName => "organizational_unit_name"@,
        WellKnownAttribute::CommonName => "common_name"@,
        WellKnownAttribute::BusinessCategory => "business_category"@,
        WellKnownAttribute::JurisdictionCountry => "jurisdiction_country"@,
        WellKnownAttribute::JurisdictionStateOrProvince => "jurisdiction_state_or_province"@,
        WellKnownAttribute::JurisdictionLocality => "jurisdiction_locality"@,
        WellKnownAttribute::OrganizationIdentifier => "organization_identifier"@,
    }
}

/// The object identifier of an attribute.
pub open spec fn attr_oid(a: WellKnownAttribute) -> Seq<u32> {
    match a {
        WellKnownAttribute::SerialNumber => seq![2, 5, 4, 5],
        WellKnownAttribute::DomainComponent => seq![0, 9, 2342, 19200300, 100, 1, 25],
        WellKnownAttribute::CountryName => seq![2, 5, 4, 6],
        WellKnownAttribute::StateOrProvinceName => seq![2, 5, 4, 8],
        WellKnownAttribute::LocalityName => seq![2, 5, 4, 7],
        WellKnownAttribute::PostalCode => seq![2, 5, 4, 17],
        WellKnownAttribute::StreetAddress => seq![2, 5, 4, 9],
        WellKnownAttribute::OrganizationName => seq![2, 5, 4, 10],
        WellKnownAttribute::Surname => seq![2, 5, 4, 4],
        WellKnownAttribute::GivenName => seq![2, 5, 4, 42],
        WellKnownAttribute::OrganizationalUnitName => seq![2, 5, 4, 11],
        WellKnownAttribute::CommonName => seq![2, 5, 4, 3],
        WellKnownAttribute::BusinessCategory => seq![2, 5, 4, 15],
        WellKnownAttribute::JurisdictionCountry => seq![1, 3, 6, 1, 4, 1, 311, 60, 2, 1, 3],
        WellKnownAttribute::JurisdictionStateOrProvince => seq![1, 3, 6, 1, 4, 1, 311, 60, 2, 1, 2],
        WellKnownAttribute::JurisdictionLocality => seq![1, 3, 6, 1, 4, 1, 311, 60, 2, 1, 1],
        WellKnownAttribute::OrganizationIdentifier => seq![2, 5, 4, 97],
    }
}

/// The preferred encoding of an attribute's value.
pub open spec fn attr_encoding(a: WellKnownAttribute) -> Asn1EncodingType {
    match a {
        WellKnownAttribute::SerialNumber => Asn1EncodingType::PrintableString,
        WellKnownAttribute::DomainComponent => Asn1EncodingType::IA5String,
        WellKnownAttribute::CountryName => Asn1EncodingType::PrintableString,
        WellKnownAttribute::StateOrProvinceName => Asn1EncodingType::Utf8String,
        WellKnownAttribute::LocalityName => Asn1EncodingType::Utf8String,
        WellKnownAttribute::PostalCode => Asn1EncodingType::Utf8String,
        WellKnownAttribute::StreetAddress => Asn1EncodingType::Utf8String,
        WellKnownAttribute::OrganizationName => Asn1EncodingType::Utf8String,
        WellKnownAttribute::Surname => Asn1EncodingType::Utf8String,
        WellKnownAttribute::GivenName => Asn1EncodingType::Utf8String,
        WellKnownAttribute::OrganizationalUnitName => Asn1EncodingType::Utf8String,
        WellKnownAttribute::CommonName => Asn1EncodingType::Utf8String,
        WellKnownAttribute::BusinessCategory => Asn1EncodingType::Utf8String,
        WellKnownAttribute::JurisdictionCountry => Asn1EncodingType::PrintableString,
        WellKnownAttribute::JurisdictionStateOrProvince => Asn1EncodingType::Utf8String,
        WellKnownAttribute::JurisdictionLocality => Asn1EncodingType::Utf8String,
        WellKnownAttribute::OrganizationIdentifier => Asn1EncodingType::Utf8String,
    }
}

/// The maximum number of characters of an attribute's value.
pub open spec fn attr_max_len(a: WellKnownAttribute) -> usize {
    match a {
        WellKnownAttribute::SerialNumber => 64,
        WellKnownAttribute::DomainComponent => 63,
        WellKnownAttribute::CountryName => 2,
        WellKnownAttribute::StateOrProvinceName => 128,
        WellKnownAttribute::LocalityName => 128,
        WellKnownAttribute::PostalCode => 40,
        WellKnownAttribute::StreetAddress => 128,
        WellKnownAttribute::OrganizationName => 64,
        WellKnownAttribute::Surname => 64,
        WellKnownAttribute::GivenName => 64,
        WellKnownAttribute::OrganizationalUnitName => 64,
        WellKnownAttribute::CommonName => 64,
        WellKnownAttribute::BusinessCategory => 128,
        WellKnownAttribute::JurisdictionCountry => 2,
        WellKnownAttribute::JurisdictionStateOrProvince => 128,
        WellKnownAttribute::JurisdictionLocality => 128,
        WellKnownAttribute::OrganizationIdentifier => usize::MAX,
    }
}

/// Position of an attribute in the registry: the common attributes first,
/// then those of Extended Validation.
pub open spec fn attr_position(a: WellKnownAttribute) -> nat {
    match a {
        WellKnownAttribute::SerialNumber => 0,
        WellKnownAttribute::DomainComponent => 1,
        WellKnownAttribute::CountryName => 2,
        WellKnownAttribute::StateOrProvinceName => 3,
        WellKnownAttribute::LocalityName => 4,
        WellKnownAttribute::PostalCode => 5,
        WellKnownAttribute::StreetAddress => 6,
        WellKnownAttribute::OrganizationName => 7,
        WellKnownAttribute::Surname => 8,
        WellKnownAttribute::GivenName => 9,
        WellKnownAttribute::OrganizationalUnitName => 10,
        WellKnownAttribute::CommonName => 11,
        WellKnownAttribute::BusinessCategory => 12,
        WellKnownAttribute::JurisdictionCountry => 13,
        WellKnownAttribute::JurisdictionStateOrProvince => 14,
        WellKnownAttribute::JurisdictionLocality => 15,
        WellKnownAttribute::OrganizationIdentifier => 16,
    }
}

/// The attribute at a registry position.
pub open spec fn attr_at(i: int) -> WellKnownAttribute {
    if i == 0 {
        WellKnownAttribute::SerialNumber
    } else if i == 1 {
        WellKnownAttribute::DomainComponent
    } else if i == 2 {
        WellKnownAttribute::CountryName
    } else if i == 3 {
        WellKnownAttribute::StateOrProvinceName
    } else if i == 4 {
        WellKnownAttribute::LocalityName
    } else if i == 5 {
        WellKnownAttribute::PostalCode
    } else if i == 6 {
        WellKnownAttribute::StreetAddress
    } else if i == 7 {
        WellKnownAttribute::OrganizationName
    } else if i == 8 {
        WellKnownAttribute::Surname
    } else if i == 9 {
        WellKnownAttribute::GivenName
    } else if i == 10 {
        WellKnownAttribute::OrganizationalUnitName
    } else if i == 11 {
        WellKnownAttribute::CommonName
    } else if i == 12 {
        WellKnownAttribute::BusinessCategory
    } else if i == 13 {
        WellKnownAttribute::JurisdictionCountry
    } else if i == 14 {
        WellKnownAttribute::JurisdictionStateOrProvince
    } else if i == 15 {
        WellKnownAttribute::JurisdictionLocality
    } else {
        WellKnownAttribute::OrganizationIdentifier
    }
}

/// Number of registered attributes.
pub const ATTRIBUTE_COUNT: usize = 17;

/// Number of registered common attributes; the rest are those of Extended
/// Validation.
pub const COMMON_ATTRIBUTE_COUNT: usize = 12;

/// `info` describes attribute `a`.
pub open spec fn info_matches(info: AttributeTypeAndValueInfo, a: WellKnownAttribute) -> bool {
    info.oid@ == attr_oid(a) && info.encoding == attr_encoding(a) && info.max_char_len == attr_max_len(a)
}

/// A registry entry describes attribute `a` by name and metadata.
pub open spec fn entry_matches(e: (String, AttributeTypeAndValueInfo), a: WellKnownAttribute) -> bool {
    e.0@ == attr_name(a) && info_matches(e.1, a)
}

/// Every attribute sits at its registry position.
pub proof fn lemma_attr_position(a: WellKnownAttribute)
    ensures
        attr_position(a) < ATTRIBUTE_COUNT,
        attr_at(attr_position(a) as int) == a,
{
}

/// Distinct attributes have distinct names.
pub proof fn lemma_attr_names_distinct(a: WellKnownAttribute, b: WellKnownAttribute)
    ensures
        attr_name(a) == attr_name(b) ==> a == b,
{
    reveal_strlit("serial_number");
    reveal_strlit("domain_component");
    reveal_strlit("country_name");
    reveal_strlit("state_or_province_name");
    reveal_strlit("locality_name");
    reveal_strlit("postal_code");
    reveal_strlit("street_address");
    reveal_strlit("organization_name");
    reveal_strlit("surname");
    reveal_strlit("given_name");
    reveal_strlit("organizational_unit_name");
    reveal_strlit("common_name");
    reveal_strlit("business_category");
    reveal_strlit("jurisdiction_country");
    reveal_strlit("jurisdiction_state_or_province");
    reveal_strlit("jurisdiction_locality");
    reveal_strlit("organization_identifier");
    assert(attr_name(WellKnownAttribute::SerialNumber).len() == 13);
    assert(attr_name(WellKnownAttribute::DomainComponent).len() == 16);
    assert(attr_name(WellKnownAttribute::CountryName).len() == 12);
    assert(attr_name(WellKnownAttribute::StateOrProvinceName).len() == 22);
    assert(attr_name(WellKnownAttribute::LocalityName).len() == 13);
    assert(attr_name(WellKnownAttribute::PostalCode).len() == 11);
    assert(attr_name(WellKnownAttribute::StreetAddress).len() == 14);
    assert(attr_name(WellKnownAttribute::OrganizationName).len() == 17);
    assert(attr_name(WellKnownAttribute::Surname).len() == 7);
    assert(attr_name(WellKnownAttribute::GivenName).len() == 10);
    assert(attr_name(WellKnownAttribute::OrganizationalUnitName).len() == 24);
    assert(attr_name(WellKnownAttribute::CommonName).len() == 11);
    assert(attr_name(WellKnownAttribute::BusinessCategory).len() == 17);
    assert(attr_name(WellKnownAttribute::JurisdictionCountry).len() == 20);
    assert(attr_name(WellKnownAttribute::JurisdictionStateOrProvince).len() == 30);
    assert(attr_name(WellKnownAttribute::JurisdictionLocality).len() == 21);
    assert(attr_name(WellKnownAttribute::OrganizationIdentifier).len() == 23);
    assert(attr_name(WellKnownAttribute::SerialNumber)[0] != attr_name(WellKnownAttribute::LocalityName)[0]);
    assert(attr_name(WellKnownAttribute::PostalCode)[0] != attr_name(WellKnownAttribute::CommonName)[0]);
    assert(attr_name(WellKnownAttribute::OrganizationName)[0] != attr_name(WellKnownAttribute::BusinessCategory)[0]);
}

/// Distinct attributes have distinct object identifiers.
pub proof fn lemma_attr_oids_distinct(a: WellKnownAttribute, b: WellKnownAttribute)
    ensures
        attr_oid(a) == attr_oid(b) ==> a == b,
{
    if attr_oid(a) == attr_oid(b) {
        assert(attr_oid(a).len() == attr_oid(b).len());
        assert(attr_oid(a)[0] == attr_oid(b)[0]);
        assert(attr_oid(a)[1] == attr_oid(b)[1]);
        assert(attr_oid(a)[2] == attr_oid(b)[2]);
        assert(attr_oid(a)[3] == attr_oid(b)[3]);
        assert(attr_oid(a).last() == attr_oid(b).last());
    }
}

/// Characters of the PrintableString alphabet.
pub open spec fn is_printable_char(c: char) -> bool {
    ('A' <= c && c <= 'Z') || ('a' <= c && c <= 'z') || ('0' <= c && c <= '9') || c == ' '
        || c == '\'' || c == '(' || c == ')' || c == '+' || c == ',' || c == '-' || c == '.'
        || c == '/' || c == ':' || c == '=' || c == '?'
}

/// `true` when every character of `s` belongs to the alphabet of `encoding`.
pub open spec fn fits_alphabet(encoding: Asn1EncodingType, s: Seq<char>) -> bool {
    match encoding {
        Asn1EncodingType::IA5String => forall|i: int| 0 <= i < s.len() ==> (s[i] as u32) < 128,
        Asn1EncodingType::PrintableString => forall|i: int| 0 <= i < s.len() ==> is_printable_char(#[trigger] s[i]),
        Asn1EncodingType::Utf8String => true,
    }
}

/// `true` when `value` is a well-formed value of attribute `a`: its alphabet
/// and its number of characters.
pub open spec fn value_fits(a: WellKnownAttribute, value: Seq<char>) -> bool {
    fits_alphabet(attr_encoding(a), value) && value.len() <= attr_max_len(a)
}

fn is_printable(c: char) -> (r: bool)
    ensures
        r == is_printable_char(c),
{
    ('A' <= c && c <= 'Z') || ('a' <= c && c <= 'z') || ('0' <= c && c <= '9') || c == ' '
        || c == '\'' || c == '(' || c == ')' || c == '+' || c == ',' || c == '-' || c == '.'
        || c == '/' || c == ':' || c == '=' || c == '?'
}

/// Return `true` when every character of `s` belongs to the alphabet of
/// `encoding`.
pub fn check_alphabet(encoding: Asn1EncodingType, s: &[char]) -> (r: bool)
    ensures
        r == fits_alphabet(encoding, s@),
{
    let mut i: usize = 0;
    while i < s.len()
        invariant
            i <= s@.len(),
            fits_alphabet(encoding, s@.subrange(0, i as int)),
        decreases s@.len() - i,
    {
        let ok = match encoding {
            Asn1EncodingType::IA5String => (s[i] as u32) < 128,
            Asn1EncodingType::PrintableString => is_printable(s[i]),
            Asn1EncodingType::Utf8String => true,
        };
        if !ok {
            assert(s@.subrange(0, i as int + 1)[i as int] == s@[i as int]);
            assert(!fits_alphabet(encoding, s@));
            return false;
        }
        proof {
            let p = s@.subrange(0, i as int + 1);
            assert forall|k: int| 0 <= k < p.len() implies p[k] == s@[k] by {}
            match encoding {
                Asn1EncodingType::IA5String => {
                    assert forall|k: int| 0 <= k < p.len() implies (p[k] as u32) < 128 by {
                        if k < i {
                            assert(s@.subrange(0, i as int)[k] == p[k]);
                        }
                    }
                },
                Asn1EncodingType::PrintableString => {
                    assert forall|k: int| 0 <= k < p.len() implies is_printable_char(#[trigger] p[k]) by {
                        if k < i {
                            assert(s@.subrange(0, i as int)[k] == p[k]);
                        }
                    }
                },
                Asn1EncodingType::Utf8String => {},
            }
        }
        i += 1;
    }
    assert(s@.subrange(0, s@.len() as int) =~= s@);
    true
}

impl WellKnownAttribute {
    /// Return the snake_case name of this attribute.
    pub fn as_name(&self) -> (r: String)
        ensures
            r@ == attr_name(*self),
    {
        match self {
            WellKnownAttribute::SerialNumber => "serial_number".to_owned(),
            WellKnownAttribute::DomainComponent => "domain_component".to_owned(),
            WellKnownAttribute::CountryName => "country_name".to_owned(),
            WellKnownAttribute::StateOrProvinceName => "state_or_province_name".to_owned(),
            WellKnownAttribute::LocalityName => "locality_name".to_owned(),
            WellKnownAttribute::PostalCode => "postal_code".to_owned(),
            WellKnownAttribute::StreetAddress => "street_address".to_owned(),
            WellKnownAttribute::OrganizationName => "organization_name".to_owned(),
            WellKnownAttribute::Surname => "surname".to_owned(),
            WellKnownAttribute::GivenName => "given_name".to_owned(),
            WellKnownAttribute::OrganizationalUnitName => "organizational_unit_name".to_owned(),
            WellKnownAttribute::CommonName => "common_name".to_owned(),
            WellKnownAttribute::BusinessCategory => "business_category".to_owned(),
            WellKnownAttribute::JurisdictionCountry => "jurisdiction_country".to_owned(),
            WellKnownAttribute::JurisdictionStateOrProvince => "jurisdiction_state_or_province".to_owned(),
            WellKnownAttribute::JurisdictionLocality => "jurisdiction_locality".to_owned(),
            WellKnownAttribute::OrganizationIdentifier => "organization_identifier".to_owned(),
        }
    }

    /// Return the metadata of this attribute.
    pub fn info(&self) -> (r: AttributeTypeAndValueInfo)
        ensures
            info_matches(r, *self),
    {
        match self {
            WellKnownAttribute::SerialNumber => {
                let oid = vec![2u32, 5, 4, 5];
                assert(oid@ =~= seq![2, 5, 4, 5]);
                AttributeTypeAndValueInfo { oid, encoding: Asn1EncodingType::PrintableString, max_char_len: 64 }
            },
            WellKnownAttribute::DomainComponent => {
                let oid = vec![0u32, 9, 2342, 19200300, 100, 1, 25];
                assert(oid@ =~= seq![0, 9, 2342, 19200300, 100, 1, 25]);
                AttributeTypeAndValueInfo { oid, encoding: Asn1EncodingType::IA5String, max_char_len: 63 }
            },
            WellKnownAttribute::CountryName => {
                let oid = vec![2u32, 5, 4, 6];
                assert(oid@ =~= seq![2, 5, 4, 6]);
                AttributeTypeAndValueInfo { oid, encoding: Asn1EncodingType::PrintableString, max_char_len: 2 }
            },
            WellKnownAttribute::StateOrProvinceName => {
                let oid = vec![2u32, 5, 4, 8];
                assert(oid@ =~= seq![2, 5, 4, 8]);
                AttributeTypeAndValueInfo { oid, encoding: Asn1EncodingType::Utf8String, max_char_len: 128 }
            },
            WellKnownAttribute::LocalityName => {
                let oid = vec![2u32, 5, 4, 7];
                assert(oid@ =~= seq![2, 5, 4, 7]);
                AttributeTypeAndValueInfo { oid, encoding: Asn1EncodingType::Utf8String, max_char_len: 128 }
            },
            WellKnownAttribute::PostalCode => {
                let oid = vec![2u32, 5, 4, 17];
                assert(oid@ =~= seq![2, 5, 4, 17]);
                AttributeTypeAndValueInfo { oid, encoding: Asn1EncodingType::Utf8String, max_char_len: 40 }
            },
            WellKnownAttribute::StreetAddress => {
                let oid = vec![2u32, 5, 4, 9];
                assert(oid@ =~= seq![2, 5, 4, 9]);
                AttributeTypeAndValueInfo { oid, encoding: Asn1EncodingType::Utf8String, max_char_len: 128 }
            },
            WellKnownAttribute::OrganizationName => {
                let oid = vec![2u32, 5, 4, 10];
                assert(oid@ =~= seq![2, 5, 4, 10]);
                AttributeTypeAndValueInfo { oid, encoding: Asn1EncodingType::Utf8String, max_char_len: 64 }
            },
            WellKnownAttribute::Surname => {
                let oid = vec![2u32, 5, 4, 4];
                assert(oid@ =~= seq![2, 5, 4, 4]);
                AttributeTypeAndValueInfo { oid, encoding: Asn1EncodingType::Utf8String, max_char_len: 64 }
            },
            WellKnownAttribute::GivenName => {
                let oid = vec![2u32, 5, 4, 42];
                assert(oid@ =~= seq![2, 5, 4, 42]);
                AttributeTypeAndValueInfo { oid, encoding: Asn1EncodingType::Utf8String, max_char_len: 64 }
            },
            WellKnownAttribute::OrganizationalUnitName => {
                let oid = vec![2u32, 5, 4, 11];
                assert(oid@ =~= seq![2, 5, 4, 11]);
                AttributeTypeAndValueInfo { oid, encoding: Asn1EncodingType::Utf8String, max_char_len: 64 }
            },
            WellKnownAttribute::CommonName => {
                let oid = vec![2u32, 5, 4, 3];
                assert(oid@ =~= seq![2, 5, 4, 3]);
                AttributeTypeAndValueInfo { oid, encoding: Asn1EncodingType::Utf8String, max_char_len: 64 }
            },
            WellKnownAttribute::BusinessCategory => {
                let oid = vec![2u32, 5, 4, 15];
                assert(oid@ =~= seq![2, 5, 4, 15]);
                AttributeTypeAndValueInfo { oid, encoding: Asn1EncodingType::Utf8String, max_char_len: 128 }
            },
            WellKnownAttribute::JurisdictionCountry => {
                let oid = vec![1u32, 3, 6, 1, 4, 1, 311, 60, 2, 1, 3];
                assert(oid@ =~= seq![1, 3, 6, 1, 4, 1, 311, 60, 2, 1, 3]);
                AttributeTypeAndValueInfo { oid, encoding: Asn1EncodingType::PrintableString, max_char_len: 2 }
            },
            WellKnownAttribute::JurisdictionStateOrProvince => {
                let oid = vec![1u32, 3, 6, 1, 4, 1, 311, 60, 2, 1, 2];
                assert(oid@ =~= seq![1, 3, 6, 1, 4, 1, 311, 60, 2, 1, 2]);
                AttributeTypeAndValueInfo { oid, encoding: Asn1EncodingType::Utf8String, max_char_len: 128 }
            },
            WellKnownAttribute::JurisdictionLocality => {
                let oid = vec![1u32, 3, 6, 1, 4, 1, 311, 60, 2, 1, 1];
                assert(oid@ =~= seq![1, 3, 6, 1, 4, 1, 311, 60, 2, 1, 1]);
                AttributeTypeAndValueInfo { oid, encoding: Asn1EncodingType::Utf8String, max_char_len: 128 }
            },
            WellKnownAttribute::OrganizationIdentifier => {
                let oid = vec![2u32, 5, 4, 97];
                assert(oid@ =~= seq![2, 5, 4, 97]);
                AttributeTypeAndValueInfo { oid, encoding: Asn1EncodingType::Utf8String, max_char_len: usize::MAX }
            },
        }
    }

    fn entry(a: WellKnownAttribute) -> (r: (String, AttributeTypeAndValueInfo))
        ensures
            entry_matches(r, a),
    {
        (a.as_name(), a.info())
    }

    /// Registry entries of the common attributes of RFC 5280, RFC 4519 and
    /// X.520, in registry order.
    pub fn attributes_common() -> (r: Vec<(String, AttributeTypeAndValueInfo)>)
        ensures
            r@.len() == COMMON_ATTRIBUTE_COUNT,
            forall|i: int| 0 <= i < r@.len() ==> entry_matches(#[trigger] r@[i], attr_at(i)),
    {
        let mut r: Vec<(String, AttributeTypeAndValueInfo)> = Vec::new();
        r.push(Self::entry(WellKnownAttribute::SerialNumber));
        r.push(Self::entry(WellKnownAttribute::DomainComponent));
        r.push(Self::entry(WellKnownAttribute::CountryName));
        r.push(Self::entry(WellKnownAttribute::StateOrProvinceName));
        r.push(Self::entry(WellKnownAttribute::LocalityName));
        r.push(Self::entry(WellKnownAttribute::PostalCode));
        r.push(Self::entry(WellKnownAttribute::StreetAddress));
        r.push(Self::entry(WellKnownAttribute::OrganizationName));
        r.push(Self::entry(WellKnownAttribute::Surname));
        r.push(Self::entry(WellKnownAttribute::GivenName));
        r.push(Self::entry(WellKnownAttribute::OrganizationalUnitName));
        r.push(Self::entry(WellKnownAttribute::CommonName));
        r
    }

    /// Registry entries of the Extended Validation attributes, in registry
    /// order.
    pub fn attributes_extended_validation() -> (r: Vec<(String, AttributeTypeAndValueInfo)>)
        ensures
            r@.len() == ATTRIBUTE_COUNT - COMMON_ATTRIBUTE_COUNT,
            forall|i: int| 0 <= i < r@.len() ==> entry_matches(#[trigger] r@[i], attr_at(i + COMMON_ATTRIBUTE_COUNT)),
    {
        let mut r: Vec<(String, AttributeTypeAndValueInfo)> = Vec::new();
        r.push(Self::entry(WellKnownAttribute::BusinessCategory));
        r.push(Self::entry(WellKnownAttribute::JurisdictionCountry));
        r.push(Self::entry(WellKnownAttribute::JurisdictionStateOrProvince));
        r.push(Self::entry(WellKnownAttribute::JurisdictionLocality));
        r.push(Self::entry(WellKnownAttribute::OrganizationIdentifier));
        r
    }

    /// The whole registry: the common attributes, then those of Extended
    /// Validation.
    fn registry() -> (r: Vec<(String, AttributeTypeAndValueInfo)>)
        ensures
            r@.len() == ATTRIBUTE_COUNT,
            forall|i: int| 0 <= i < r@.len() ==> entry_matches(#[trigger] r@[i], attr_at(i)),
    {
        let mut r = Self::attributes_common();
        let mut ev = Self::attributes_extended_validation();
        let ghost c = r@;
        let ghost e = ev@;
        r.append(&mut ev);
        assert forall|i: int| 0 <= i < r@.len() implies entry_matches(#[trigger] r@[i], attr_at(i)) by {
            if i >= COMMON_ATTRIBUTE_COUNT {
                assert(r@[i] == e[i - COMMON_ATTRIBUTE_COUNT]);
                assert(entry_matches(e[i - COMMON_ATTRIBUTE_COUNT], attr_at((i - COMMON_ATTRIBUTE_COUNT) + COMMON_ATTRIBUTE_COUNT)));
            } else {
                assert(r@[i] == c[i]);
            }
        }
        r
    }

    /// Return the attribute variant at a registry position.
    fn at_position(i: usize) -> (r: WellKnownAttribute)
        requires
            i < ATTRIBUTE_COUNT,
        ensures
            r == attr_at(i as int),
    {
        if i == 0 {
            WellKnownAttribute::SerialNumber
        } else if i == 1 {
            WellKnownAttribute::DomainComponent
        } else if i == 2 {
            WellKnownAttribute::CountryName
        } else if i == 3 {
            WellKnownAttribute::StateOrProvinceName
        } else if i == 4 {
            WellKnownAttribute::LocalityName
        } else if i == 5 {
            WellKnownAttribute::PostalCode
        } else if i == 6 {
            WellKnownAttribute::StreetAddress
        } else if i == 7 {
            WellKnownAttribute::OrganizationName
        } else if i == 8 {
            WellKnownAttribute::Surname
        } else if i == 9 {
            WellKnownAttribute::GivenName
        } else if i == 10 {
            WellKnownAttribute::OrganizationalUnitName
        } else if i == 11 {
            WellKnownAttribute::CommonName
        } else if i == 12 {
            WellKnownAttribute::BusinessCategory
        } else if i == 13 {
            WellKnownAttribute::JurisdictionCountry
        } else if i == 14 {
            WellKnownAttribute::JurisdictionStateOrProvince
        } else if i == 15 {
            WellKnownAttribute::JurisdictionLocality
        } else {
            WellKnownAttribute::OrganizationIdentifier
        }
    }

    /// Return the attribute whose snake_case name is `name`.
    pub fn by_name(name: &str) -> (r: Result<Self, IdentityFragmentError>)
        ensures
            r matches Ok(a) ==> attr_name(a) == name@,
            r is Err ==> (forall|a: WellKnownAttribute| attr_name(a) != name@),
            r matches Err(e) ==> e.kind == IdentityFragmentErrorKind::UnknownAttribute,
    {
        let mut i: usize = 0;
        while i < ATTRIBUTE_COUNT
            invariant
                i <= ATTRIBUTE_COUNT,
                forall|j: int| 0 <= j < i ==> attr_name(#[trigger] attr_at(j)) != name@,
            decreases ATTRIBUTE_COUNT - i,
        {
            let a = Self::at_position(i);
            let n = a.as_name();
            if same_text(n.as_str(), name) {
                return Ok(a);
            }
            i += 1;
        }
        proof {
            assert forall|a: WellKnownAttribute| attr_name(a) != name@ by {
                lemma_attr_position(a);
                assert(attr_name(attr_at(attr_position(a) as int)) != name@);
            }
        }
        Err(IdentityFragmentErrorKind::UnknownAttribute.error_with_msg("Not a known attribute name."))
    }

    /// Return the attribute whose object identifier is `oid`.
    pub fn by_oid(oid: &[u32]) -> (r: Result<Self, IdentityFragmentError>)
        ensures
            r matches Ok(a) ==> attr_oid(a) == oid@,
            r is Err ==> (forall|a: WellKnownAttribute| attr_oid(a) != oid@),
            r matches Err(e) ==> e.kind == IdentityFragmentErrorKind::UnknownAttribute,
    {
        let table = Self::registry();
        let mut i: usize = 0;
        while i < table.len()
            invariant
                table@.len() == ATTRIBUTE_COUNT,
                forall|k: int| 0 <= k < table@.len() ==> entry_matches(#[trigger] table@[k], attr_at(k)),
                i <= table@.len(),
                forall|j: int| 0 <= j < i ==> attr_oid(#[trigger] attr_at(j)) != oid@,
            decreases table@.len() - i,
        {
            assert(entry_matches(table@[i as int], attr_at(i as int)));
            if same_oid(table[i].1.oid.as_slice(), oid) {
                let a = Self::at_position(i);
                return Ok(a);
            }
            i += 1;
        }
        proof {
            assert forall|a: WellKnownAttribute| attr_oid(a) != oid@ by {
                lemma_attr_position(a);
                assert(attr_oid(attr_at(attr_position(a) as int)) != oid@);
            }
        }
        Err(IdentityFragmentErrorKind::UnknownAttribute.error_with_msg("Not a known attribute object identifier."))
    }

    /// Turn this attribute into an [IdentityFragment] with the given value.
    pub fn with_value(&self, value: &str) -> (r: IdentityFragment)
        ensures
            r.name@ == attr_name(*self),
            r.value@ == value@,
    {
        let name = self.as_name();
        IdentityFragment::new_unchecked(name.as_str(), value)
    }

    /// Return the registry metadata of the attribute named `name`.
    pub fn meta_data_by_name(name: &str) -> (r: Result<AttributeTypeAndValueInfo, IdentityFragmentError>)
        ensures
            r matches Ok(info) ==> exists|a: WellKnownAttribute| attr_name(a) == name@ && info_matches(info, a),
            r is Err ==> (forall|a: WellKnownAttribute| attr_name(a) != name@),
            r matches Err(e) ==> e.kind == IdentityFragmentErrorKind::UnknownAttribute,
    {
        let table = Self::registry();
        let mut i: usize = 0;
        while i < table.len()
            invariant
                table@.len() == ATTRIBUTE_COUNT,
                forall|k: int| 0 <= k < table@.len() ==> entry_matches(#[trigger] table@[k], attr_at(k)),
                i <= table@.len(),
                forall|j: int| 0 <= j < i ==> attr_name(#[trigger] attr_at(j)) != name@,
            decreases table@.len() - i,
        {
            assert(entry_matches(table@[i as int], attr_at(i as int)));
            if same_text(table[i].0.as_str(), name) {
                return Ok(Self::at_position(i).info());
            }
            i += 1;
        }
        proof {
            assert forall|a: WellKnownAttribute| attr_name(a) != name@ by {
                lemma_attr_position(a);
                assert(attr_name(attr_at(attr_position(a) as int)) != name@);
            }
        }
        Err(IdentityFragmentErrorKind::UnknownAttribute.error_with_msg("Not a known attribute name."))
    }

    /// Check that the fragment names a well-known attribute and that its value
    /// keeps to the attribute's alphabet and maximum number of characters.
    pub fn validate(idf: &IdentityFragment) -> (r: Result<(), IdentityFragmentError>)
        ensures
            r is Ok <==> exists|a: WellKnownAttribute| attr_name(a) == idf.name@ && value_fits(a, idf.value@),
            r matches Err(e) ==> (e.kind == IdentityFragmentErrorKind::UnknownAttribute <==> forall|a: WellKnownAttribute| attr_name(a) != idf.name@),
            r matches Err(e) ==> (e.kind == IdentityFragmentErrorKind::UnknownAttribute || e.kind == IdentityFragmentErrorKind::InvalidAttributeValue),
    {
        let a = match Self::by_name(idf.name.as_str()) {
            Ok(a) => a,
            Err(e) => {
                return Err(e);
            },
        };
        proof {
            assert forall|b: WellKnownAttribute| attr_name(b) == idf.name@ implies b == a by {
                lemma_attr_names_distinct(a, b);
            }
        }
        let info = a.info();
        let chars = chars_of(idf.value.as_str());
        if !check_alphabet(info.encoding, chars.as_slice()) {
            return Err(IdentityFragmentErrorKind::InvalidAttributeValue.error_with_msg("Attribute value holds characters outside its alphabet."));
        }
        if chars.len() > info.max_char_len {
            return Err(IdentityFragmentErrorKind::InvalidAttributeValue.error_with_msg("Attribute value exceeds its maximum length."));
        }
        Ok(())
    }
}

} // verus!
