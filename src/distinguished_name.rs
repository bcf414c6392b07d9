//! Distinguished Names: a sequence of relative distinguished names, each a
//! set of identity fragments of well-known attributes.
use vstd::prelude::*;
use crate::attributes::{attr_encoding, attr_name, attr_oid, lemma_attr_names_distinct, lemma_attr_oids_distinct, Asn1EncodingType, WellKnownAttribute};
use crate::der;
use crate::errors::{IdentityFragmentError, IdentityFragmentErrorKind};
use crate::identity_fragment::IdentityFragment;

verus! {

/// DER of an attribute value in its preferred encoding.
pub open spec fn der_of_value(encoding: Asn1EncodingType, value: Seq<char>) -> Seq<u8> {
    match encoding {
        Asn1EncodingType::IA5String => der::der_ia5_string(value),
        Asn1EncodingType::PrintableString => der::der_printable_string(value),
        Asn1EncodingType::Utf8String => der::der_utf8_string(value),
    }
}

/// Text of an attribute value read in its preferred encoding; a UTF8String
/// attribute also accepts a PrintableString.
pub open spec fn value_of_der(encoding: Asn1EncodingType, b: Seq<u8>) -> Option<Seq<char>> {
    match encoding {
        Asn1EncodingType::IA5String => der::ia5_string_of_der(b),
        Asn1EncodingType::PrintableString => der::printable_string_of_der(b),
        Asn1EncodingType::Utf8String => match der::utf8_string_of_der(b) {
            Some(s) => Some(s),
            None => der::printable_string_of_der(b),
        },
    }
}

impl WellKnownAttribute {
    /// Return the attribute type and DER value of a fragment: the
    /// registered object identifier of its name and its value in the
    /// preferred encoding.
    pub fn to_rasn_type(idf: &IdentityFragment) -> (r: Result<(Vec<u32>, Vec<u8>), IdentityFragmentError>)
        ensures
            r matches Ok((oid, v)) ==> exists|a: WellKnownAttribute| attr_name(a) == idf.name@ && oid@ == attr_oid(a)
                && v@ == der_of_value(attr_encoding(a), idf.value@),
            r matches Err(e) ==> (e.kind == IdentityFragmentErrorKind::UnknownAttribute <==> forall|a: WellKnownAttribute| attr_name(a) != idf.name@),
            fragment_ok(*idf) ==> r is Ok,
    {
        let a = Self::by_name(idf.name.as_str())?;
        proof {
            assert forall|b: WellKnownAttribute| attr_name(b) == idf.name@ implies b == a by {
                lemma_attr_names_distinct(a, b);
            }
        }
        let info = a.info();
        let encoded = match info.encoding {
            Asn1EncodingType::IA5String => der::encode_ia5_string(idf.value.as_str()),
            Asn1EncodingType::PrintableString => der::encode_printable_string(idf.value.as_str()),
            Asn1EncodingType::Utf8String => der::encode_utf8_string(idf.value.as_str()),
        };
        match encoded {
            Some(v) => Ok((info.oid, v)),
            None => Err(IdentityFragmentErrorKind::InvalidAttributeValue.error_with_msg("Attribute value does not encode in its preferred encoding.")),
        }
    }

    /// Return the fragment that an attribute type and DER value denote: the
    /// registered name of the object identifier and the value's text.
    pub fn from_rasn_type(oid: &[u32], value: &[u8]) -> (r: Result<IdentityFragment, IdentityFragmentError>)
        ensures
            r matches Ok(f) ==> exists|a: WellKnownAttribute| attr_oid(a) == oid@ && f.name@ == attr_name(a)
                && value_of_der(attr_encoding(a), value@) == Some(f.value@),
            r matches Err(e) ==> (e.kind == IdentityFragmentErrorKind::UnknownAttribute <==> forall|a: WellKnownAttribute| attr_oid(a) != oid@),
            r matches Err(e) ==> (e.kind == IdentityFragmentErrorKind::UnknownAttribute || e.kind == IdentityFragmentErrorKind::DecodingFailure),
            (exists|a: WellKnownAttribute| attr_oid(a) == oid@ && value_of_der(attr_encoding(a), value@) is Some) ==> r is Ok,
    {
        let a = Self::by_oid(oid)?;
        proof {
            assert forall|b: WellKnownAttribute| attr_oid(b) == oid@ implies b == a by {
                lemma_attr_oids_distinct(a, b);
            }
        }
        let info = a.info();
        let text = match info.encoding {
            Asn1EncodingType::IA5String => der::decode_ia5_string(value),
            Asn1EncodingType::PrintableString => der::decode_printable_string(value),
            Asn1EncodingType::Utf8String => match der::decode_utf8_string(value) {
                Some(s) => Some(s),
                None => der::decode_printable_string(value),
            },
        };
        match text {
            Some(t) => {
                let name = a.as_name();
                Ok(IdentityFragment::new_unchecked(name.as_str(), t.as_str()))
            },
            None => Err(IdentityFragmentErrorKind::DecodingFailure.error_with_msg("Attribute value does not decode in its preferred encoding.")),
        }
    }
}

/// `atv` is the attribute type and DER value of fragment `f`.
pub open spec fn encodes_fragment(f: IdentityFragment, atv: (Vec<u32>, Vec<u8>)) -> bool {
    exists|a: WellKnownAttribute| attr_name(a) == f.name@ && atv.0@ == attr_oid(a) && atv.1@ == der_of_value(attr_encoding(a), f.value@)
}

/// `v` holds the attribute types and DER values of the name's fragments,
/// in the same places.
pub open spec fn encodes_dn(dn: Seq<Vec<IdentityFragment>>, v: Seq<Vec<(Vec<u32>, Vec<u8>)>>) -> bool {
    v.len() == dn.len() && forall|i: int| 0 <= i < dn.len() ==> (#[trigger] v[i])@.len() == dn[i]@.len()
        && forall|j: int| 0 <= j < dn[i]@.len() ==> encodes_fragment(dn[i]@[j], #[trigger] v[i]@[j])
}

/// Fragment `f` is what attribute type `oid` and DER value `v` denote.
pub open spec fn decodes_fragment(oid: Seq<u32>, v: Seq<u8>, f: IdentityFragment) -> bool {
    exists|a: WellKnownAttribute| attr_oid(a) == oid && f.name@ == attr_name(a) && value_of_der(attr_encoding(a), v) == Some(f.value@)
}

/// Every registered attribute type is one the DER encoder accepts.
proof fn lemma_attr_oid_encodes(a: WellKnownAttribute)
    ensures
        der::oid_encodes(attr_oid(a)),
{
}

/// Distinguished Name: relative distinguished names in the order given,
/// each a set of identity fragments.
#[derive(Debug, Default)]
pub struct DistinguishedName {
    pub dn: Vec<Vec<IdentityFragment>>,
}

/// No relative distinguished name holds an attribute.
pub open spec fn dn_empty(dn: Seq<Vec<IdentityFragment>>) -> bool {
    forall|i: int| 0 <= i < dn.len() ==> (#[trigger] dn[i])@.len() == 0
}

/// The fragment names a well-known attribute and its value is well-formed.
pub open spec fn fragment_ok(f: IdentityFragment) -> bool {
    exists|a: WellKnownAttribute| attr_name(a) == f.name@ && crate::attributes::value_fits(a, f.value@)
}

/// Every fragment of the name is well-formed.
pub open spec fn dn_valid(dn: Seq<Vec<IdentityFragment>>) -> bool {
    forall|i: int, j: int| 0 <= i < dn.len() && 0 <= j < dn[i]@.len() ==> fragment_ok(#[trigger] dn[i]@[j])
}

impl DistinguishedName {
    /// Return a new instance without validating the fragments.
    pub fn new_unchecked(dn: Vec<Vec<IdentityFragment>>) -> (r: Self)
        ensures
            r.dn@ == dn@,
    {
        DistinguishedName { dn }
    }

    /// Return a new instance when every fragment names a well-known attribute
    /// and has a well-formed value; else the first fragment's error.
    pub fn new(dn: Vec<Vec<IdentityFragment>>) -> (r: Result<Self, IdentityFragmentError>)
        ensures
            r is Ok <==> dn_valid(dn@),
            r matches Ok(d) ==> d.dn@ == dn@,
            r matches Err(e) ==> exists|i: int, j: int| 0 <= i < dn@.len() && 0 <= j < dn@[i]@.len()
                && !fragment_ok(#[trigger] dn@[i]@[j])
                && (e.kind == IdentityFragmentErrorKind::UnknownAttribute <==> forall|a: WellKnownAttribute| attr_name(a) != dn@[i]@[j].name@)
                && (e.kind == IdentityFragmentErrorKind::UnknownAttribute || e.kind == IdentityFragmentErrorKind::InvalidAttributeValue),
    {
        let mut i: usize = 0;
        while i < dn.len()
            invariant
                i <= dn@.len(),
                forall|k: int, j: int| 0 <= k < i && 0 <= j < dn@[k]@.len() ==> fragment_ok(#[trigger] dn@[k]@[j]),
            decreases dn@.len() - i,
        {
            let mut j: usize = 0;
            while j < dn[i].len()
                invariant
                    i < dn@.len(),
                    j <= dn@[i as int]@.len(),
                    forall|k: int, m: int| 0 <= k < i && 0 <= m < dn@[k]@.len() ==> fragment_ok(#[trigger] dn@[k]@[m]),
                    forall|m: int| 0 <= m < j ==> fragment_ok(#[trigger] dn@[i as int]@[m]),
                decreases dn@[i as int]@.len() - j,
            {
                match WellKnownAttribute::validate(&dn[i][j]) {
                    Ok(()) => {},
                    Err(e) => {
                        assert(!fragment_ok(dn@[i as int]@[j as int]));
                        assert(dn@[i as int]@[j as int] == dn[i as int][j as int]);
                        return Err(e);
                    },
                }
                j += 1;
            }
            assert forall|k: int, m: int| 0 <= k < i + 1 && 0 <= m < dn@[k]@.len() implies fragment_ok(#[trigger] dn@[k]@[m]) by {
                if k == i {
                    assert(fragment_ok(dn@[i as int]@[m]));
                }
            }
            i += 1;
        }
        Ok(Self::new_unchecked(dn))
    }

    /// Return a new instance from `(name, value)` pairs, one list per
    /// relative distinguished name, without validating them.
    pub fn try_from(value: Vec<Vec<(String, String)>>) -> (r: Result<Self, IdentityFragmentError>)
        ensures
            r matches Ok(d) && d.dn@.len() == value@.len() && forall|i: int| 0 <= i < value@.len() ==> (#[trigger] d.dn@[i])@.len() == value@[i]@.len()
                && forall|j: int| 0 <= j < value@[i]@.len() ==> (#[trigger] d.dn@[i]@[j]).name@ == value@[i]@[j].0@ && d.dn@[i]@[j].value@ == value@[i]@[j].1@,
    {
        let mut dn: Vec<Vec<IdentityFragment>> = Vec::new();
        let mut i: usize = 0;
        while i < value.len()
            invariant
                i <= value@.len(),
                dn@.len() == i,
                forall|k: int| 0 <= k < i ==> (#[trigger] dn@[k])@.len() == value@[k]@.len()
                    && forall|j: int| 0 <= j < value@[k]@.len() ==> (#[trigger] dn@[k]@[j]).name@ == value@[k]@[j].0@ && dn@[k]@[j].value@ == value@[k]@[j].1@,
            decreases value@.len() - i,
        {
            let mut rdn: Vec<IdentityFragment> = Vec::new();
            let mut j: usize = 0;
            while j < value[i].len()
                invariant
                    i < value@.len(),
                    j <= value@[i as int]@.len(),
                    rdn@.len() == j,
                    forall|m: int| 0 <= m < j ==> (#[trigger] rdn@[m]).name@ == value@[i as int]@[m].0@ && rdn@[m].value@ == value@[i as int]@[m].1@,
                decreases value@[i as int]@.len() - j,
            {
                let f = IdentityFragment::new_unchecked(value[i][j].0.as_str(), value[i][j].1.as_str());
                let ghost before = rdn@;
                rdn.push(f);
                assert(forall|m: int| 0 <= m < j ==> rdn@[m] == before[m]);
                j += 1;
            }
            let ghost before = dn@;
            dn.push(rdn);
            assert(forall|k: int| 0 <= k < i ==> dn@[k] == before[k]);
            i += 1;
        }
        Ok(DistinguishedName { dn })
    }

    /// Return `true` when no attribute is present.
    pub fn is_empty(&self) -> (r: bool)
        ensures
            r == dn_empty(self.dn@),
    {
        let mut i: usize = 0;
        while i < self.dn.len()
            invariant
                i <= self.dn@.len(),
                forall|k: int| 0 <= k < i ==> (#[trigger] self.dn@[k])@.len() == 0,
            decreases self.dn@.len() - i,
        {
            if self.dn[i].len() > 0 {
                return false;
            }
            i += 1;
        }
        true
    }

    /// Return the relative distinguished names.
    pub fn rnds(&self) -> (r: &Vec<Vec<IdentityFragment>>)
        ensures
            r@ == self.dn@,
    {
        &self.dn
    }

    /// Return the attribute types and DER values, in the order given.
    pub fn to_rasn_type(dn: &Vec<Vec<IdentityFragment>>) -> (r: Result<Vec<Vec<(Vec<u32>, Vec<u8>)>>, IdentityFragmentError>)
        ensures
            r matches Ok(v) ==> encodes_dn(dn@, v@),
            dn_valid(dn@) ==> r is Ok,
    {
        let mut out: Vec<Vec<(Vec<u32>, Vec<u8>)>> = Vec::new();
        let mut i: usize = 0;
        while i < dn.len()
            invariant
                i <= dn@.len(),
                out@.len() == i,
                forall|k: int| 0 <= k < i ==> (#[trigger] out@[k])@.len() == dn@[k]@.len()
                    && forall|j: int| 0 <= j < dn@[k]@.len() ==> encodes_fragment(dn@[k]@[j], #[trigger] out@[k]@[j]),
            decreases dn@.len() - i,
        {
            let mut rdn: Vec<(Vec<u32>, Vec<u8>)> = Vec::new();
            let mut j: usize = 0;
            while j < dn[i].len()
                invariant
                    i < dn@.len(),
                    j <= dn@[i as int]@.len(),
                    rdn@.len() == j,
                    forall|m: int| 0 <= m < j ==> encodes_fragment(dn@[i as int]@[m], #[trigger] rdn@[m]),
                    dn_valid(dn@) ==> fragment_ok(dn@[i as int]@[j as int]) || j == dn@[i as int]@.len(),
                decreases dn@[i as int]@.len() - j,
            {
                let atv = WellKnownAttribute::to_rasn_type(&dn[i][j])?;
                let ghost before_rdn = rdn@;
                rdn.push(atv);
                proof {
                    assert forall|m: int| 0 <= m < j + 1 implies encodes_fragment(dn@[i as int]@[m], #[trigger] rdn@[m]) by {
                        if m < j {
                            assert(rdn@[m] == before_rdn[m]);
                        }
                    }
                }
                j += 1;
            }
            let ghost before = out@;
            out.push(rdn);
            proof {
                assert forall|k: int| 0 <= k < i + 1 implies (#[trigger] out@[k])@.len() == dn@[k]@.len()
                    && forall|j: int| 0 <= j < dn@[k]@.len() ==> encodes_fragment(dn@[k]@[j], #[trigger] out@[k]@[j]) by {
                    if k < i {
                        assert(out@[k] == before[k]);
                    }
                }
            }
            i += 1;
        }
        Ok(out)
    }

    /// Return the DER encoding of the name.
    pub fn to_der(&self) -> (r: Result<Vec<u8>, IdentityFragmentError>)
        ensures
            r matches Ok(b) ==> exists|v: Seq<Vec<(Vec<u32>, Vec<u8>)>>| encodes_dn(self.dn@, v) && b@ == der::der_name(der::rdns_view(v)),
            dn_valid(self.dn@) ==> r is Ok,
    {
        let rdns = Self::to_rasn_type(&self.dn)?;
        proof {
            assert forall|i: int, j: int| 0 <= i < rdns@.len() && 0 <= j < rdns@[i]@.len() implies der::oid_encodes((#[trigger] rdns@[i]@[j]).0@) by {
                assert(encodes_fragment(self.dn@[i]@[j], rdns@[i]@[j]));
                let a = choose|a: WellKnownAttribute| attr_name(a) == self.dn@[i]@[j].name@ && rdns@[i]@[j].0@ == attr_oid(a)
                    && rdns@[i]@[j].1@ == der_of_value(attr_encoding(a), self.dn@[i]@[j].value@);
                lemma_attr_oid_encodes(a);
            }
        }
        match der::encode_name(&rdns) {
            Some(b) => Ok(b),
            None => Err(IdentityFragmentErrorKind::EncodingFailure.error_with_msg("Name does not encode.")),
        }
    }

    /// Return a name from its DER encoding; every attribute must be well
    /// known.
    pub fn from_der(der_name: &[u8]) -> (r: Result<Self, IdentityFragmentError>)
        ensures
            der::name_of_der(der_name@) is None ==> r is Err,
            r matches Ok(d) ==> der::name_of_der(der_name@) matches Some(n) && n.len() == d.dn@.len()
                && forall|i: int| 0 <= i < n.len() ==> (#[trigger] n[i]).len() == d.dn@[i]@.len()
                    && forall|j: int| 0 <= j < n[i].len() ==> decodes_fragment(n[i][j].0, n[i][j].1, #[trigger] d.dn@[i]@[j]),
    {
        let rdns = match der::decode_name(der_name) {
            Some(v) => v,
            None => {
                return Err(IdentityFragmentErrorKind::DecodingFailure.error_with_msg("Name does not decode."));
            },
        };
        let ghost n = der::rdns_view(rdns@);
        let mut dn: Vec<Vec<IdentityFragment>> = Vec::new();
        let mut i: usize = 0;
        while i < rdns.len()
            invariant
                n == der::rdns_view(rdns@),
                i <= rdns@.len(),
                dn@.len() == i,
                forall|k: int| 0 <= k < i ==> (#[trigger] n[k]).len() == dn@[k]@.len()
                    && forall|j: int| 0 <= j < n[k].len() ==> decodes_fragment(n[k][j].0, n[k][j].1, #[trigger] dn@[k]@[j]),
            decreases rdns@.len() - i,
        {
            let mut rdn: Vec<IdentityFragment> = Vec::new();
            let mut j: usize = 0;
            while j < rdns[i].len()
                invariant
                    n == der::rdns_view(rdns@),
                    i < rdns@.len(),
                    j <= rdns@[i as int]@.len(),
                    rdn@.len() == j,
                    forall|m: int| 0 <= m < j ==> decodes_fragment(n[i as int][m].0, n[i as int][m].1, #[trigger] rdn@[m]),
                decreases rdns@[i as int]@.len() - j,
            {
                let f = WellKnownAttribute::from_rasn_type(rdns[i][j].0.as_slice(), rdns[i][j].1.as_slice())?;
                proof {
                    assert(n[i as int][j as int] == (rdns@[i as int]@[j as int].0@, rdns@[i as int]@[j as int].1@));
                }
                let ghost before = rdn@;
                rdn.push(f);
                assert(forall|m: int| 0 <= m < j ==> rdn@[m] == before[m]);
                j += 1;
            }
            let ghost before = dn@;
            dn.push(rdn);
            assert(forall|k: int| 0 <= k < i ==> dn@[k] == before[k]);
            i += 1;
        }
        Ok(DistinguishedName { dn })
    }

    /// Return the fingerprint of the DER encoding; the order of the names is
    /// kept as given.
    pub fn fingerprint(&self) -> (r: Result<String, IdentityFragmentError>)
        ensures
            r matches Ok(s) ==> s@.len() == 128,
            r matches Ok(s) ==> exists|v: Seq<Vec<(Vec<u32>, Vec<u8>)>>| encodes_dn(self.dn@, v)
                && s@ == crate::text::hex_of(crate::digest::sha3_512(der::der_name(der::rdns_view(v)))),
            dn_valid(self.dn@) ==> r is Ok,
    {
        let der = self.to_der()?;
        Ok(crate::fingerprint_data(der.as_slice()))
    }
}

} // verus!
