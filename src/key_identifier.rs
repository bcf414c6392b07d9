//! Subject and Authority Key Identifier extensions.
use vstd::prelude::*;

verus! {

/// Object identifier of the Authority Key Identifier extension.
pub open spec fn authority_key_identifier_oid() -> Seq<u32> {
    seq![2, 5, 29, 35]
}

/// Object identifier of the Subject Key Identifier extension.
pub open spec fn subject_key_identifier_oid() -> Seq<u32> {
    seq![2, 5, 29, 14]
}

/// Object identifier of the Authority Key Identifier extension.
pub fn authority_key_identifier_oid_vec() -> (r: Vec<u32>)
    ensures
        r@ == authority_key_identifier_oid(),
{
    let r = vec![2u32, 5, 29, 35];
    assert(r@ =~= authority_key_identifier_oid());
    r
}

/// Object identifier of the Subject Key Identifier extension.
pub fn subject_key_identifier_oid_vec() -> (r: Vec<u32>)
    ensures
        r@ == subject_key_identifier_oid(),
{
    let r = vec![2u32, 5, 29, 14];
    assert(r@ =~= subject_key_identifier_oid());
    r
}

} // verus!

verus! {

/// Subject Key Identifier: the SHA3-256 digest of the raw public key.
#[derive(Debug, Clone)]
pub struct SubjectKeyIdentifier {
    pub key_identifier: Vec<u8>,
}

/// Authority Key Identifier holding only the issuer's key identifier.
#[derive(Debug, Clone)]
pub struct AuthorityKeyIdentifier {
    pub key_identifier: Vec<u8>,
}

impl SubjectKeyIdentifier {
    /// Return the key identifier of a raw public key: its SHA3-256 digest,
    /// 32 octets.
    pub fn get_key_identifier_bytes(raw_public_key: &[u8]) -> (r: Vec<u8>)
        ensures
            r@ == crate::digest::sha3_256(raw_public_key@),
            r@.len() == 32,
    {
        crate::digest::sha3_256_digest(raw_public_key)
    }

    /// Return the Subject Key Identifier of a raw public key.
    pub fn from_public_key(raw_public_key: &[u8]) -> (r: Self)
        ensures
            r.key_identifier@ == crate::digest::sha3_256(raw_public_key@),
            r.key_identifier@.len() == 32,
    {
        SubjectKeyIdentifier { key_identifier: Self::get_key_identifier_bytes(raw_public_key) }
    }
}

impl AuthorityKeyIdentifier {
    /// Copy the issuer's Subject Key Identifier.
    pub fn from_issuers_subject_key_identifier(issuer_subject_key_identifier: &[u8]) -> (r: Self)
        ensures
            r.key_identifier@ == issuer_subject_key_identifier@,
    {
        let mut v: Vec<u8> = Vec::new();
        let mut i: usize = 0;
        while i < issuer_subject_key_identifier.len()
            invariant
                i <= issuer_subject_key_identifier@.len(),
                v@ == issuer_subject_key_identifier@.subrange(0, i as int),
            decreases issuer_subject_key_identifier@.len() - i,
        {
            v.push(issuer_subject_key_identifier[i]);
            i += 1;
        }
        assert(v@ =~= issuer_subject_key_identifier@);
        AuthorityKeyIdentifier { key_identifier: v }
    }

    /// Return the Authority Key Identifier for the issuer's raw public key.
    pub fn from_public_key(raw_public_key: &[u8]) -> (r: Self)
        ensures
            r.key_identifier@ == crate::digest::sha3_256(raw_public_key@),
    {
        AuthorityKeyIdentifier { key_identifier: SubjectKeyIdentifier::get_key_identifier_bytes(raw_public_key) }
    }
}

} // verus!

verus! {

impl SubjectKeyIdentifier {
    /// Return the DER of the extension value: the key identifier as OCTET
    /// STRING.
    pub fn to_rasn_type(&self) -> (r: Option<Vec<u8>>)
        ensures
            r matches Some(b) ==> b@ == crate::der::der_octet_string(self.key_identifier@),
            r is Some,
    {
        crate::der::encode_octet_string(self.key_identifier.as_slice())
    }
}

impl AuthorityKeyIdentifier {
    /// Return the DER of the extension value: an AuthorityKeyIdentifier with
    /// only the key identifier.
    pub fn to_rasn_type(&self) -> (r: Option<Vec<u8>>)
        ensures
            r matches Some(b) ==> b@ == crate::der::der_authority_key_id(self.key_identifier@),
            r is Some,
    {
        crate::der::encode_authority_key_identifier(self.key_identifier.as_slice())
    }
}

} // verus!
