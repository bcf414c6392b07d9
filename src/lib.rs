//! Building, parsing and chain validation of X.509 v3 certificates.
use vstd::prelude::*;

pub mod errors;
pub mod text;
pub mod labels;
pub mod puny_code;
pub mod pem;
pub mod digest;
pub mod der;
pub mod der_frame;
pub mod oid;
pub mod basic_constraints;
pub mod key_usage;
pub mod validity;
pub mod serial_number;
pub mod identity_fragment;
pub mod general_name;
pub mod attributes;
pub mod distinguished_name;
pub mod extended_key_usage;
pub mod certificate_policies;
pub mod authority_information_access;
pub mod key_identifier;
pub mod extensions;
pub mod crl_distribution_points;
pub mod parse;
pub mod tbs;
pub mod checkers;
pub mod validate;

verus! {

/// Lower-case hex SHA3-512 fingerprint of `data`.
pub fn fingerprint_data(data: &[u8]) -> (r: String)
    ensures
        r@ == text::hex_of(digest::sha3_512(data@)),
        r@.len() == 128,
{
    let d = digest::sha3_512_digest(data);
    text::to_hex(d.as_slice())
}

} // verus!
