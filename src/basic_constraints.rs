//! Basic Constraints extension model.
use vstd::prelude::*;

verus! {

/// Object identifier of the Basic Constraints extension.
pub open spec fn basic_constraints_oid() -> Seq<u32> {
    seq![2, 5, 29, 19]
}

/// Object identifier of the Basic Constraints extension.
pub fn basic_constraints_oid_vec() -> (r: Vec<u32>)
    ensures
        r@ == basic_constraints_oid(),
{
    let r = vec![2u32, 5, 29, 19];
    assert(r@ =~= basic_constraints_oid());
    r
}

/// Basic Constraints: whether the certificate is a CA and how many
/// intermediate levels may follow below it.
#[derive(Debug, Clone, Copy, PartialEq, Eq, Structural)]
pub struct BasicConstraints {
    pub ca: bool,
    pub path_len: Option<usize>,
}

impl BasicConstraints {
    /// Return a new instance for a leaf certificate.
    pub fn new_leaf() -> (r: Self)
        ensures
            !r.ca,
            r.path_len is None,
    {
        BasicConstraints { ca: false, path_len: None }
    }

    /// Return a new instance for a CA certificate.
    pub fn new_ca(path_len: Option<usize>) -> (r: Self)
        ensures
            r.ca,
            r.path_len == path_len,
    {
        BasicConstraints { ca: true, path_len }
    }

    /// Return `true` if this belongs to a leaf certificate.
    pub fn is_leaf(&self) -> (r: bool)
        ensures
            r == !self.ca,
    {
        !self.ca
    }

    /// Return `true` if this belongs to a CA certificate.
    pub fn is_ca(&self) -> (r: bool)
        ensures
            r == self.ca,
    {
        self.ca
    }

    /// The effective path length: meaningful only for a CA.
    pub open spec fn spec_path_len(&self) -> Option<usize> {
        if self.ca {
            self.path_len
        } else {
            None
        }
    }

    /// Return the number of intermediate levels that this CA allows below it
    /// (`None` for no limit, and always for a leaf).
    pub fn path_len(&self) -> (r: Option<usize>)
        ensures
            r == self.spec_path_len(),
    {
        if self.ca {
            self.path_len
        } else {
            None
        }
    }
}

} // verus!

verus! {

/// Basic Constraints as decoded from DER.
pub open spec fn basic_constraints_from_der(b: Seq<u8>) -> Option<BasicConstraints> {
    match crate::der::basic_constraints_of_der(b) {
        Some((ca, path_len)) => Some(BasicConstraints { ca, path_len }),
        None => None,
    }
}

impl BasicConstraints {
    /// Return the DER of this value.
    pub fn to_rasn_type(&self) -> (r: Option<Vec<u8>>)
        ensures
            r matches Some(b) ==> b@ == crate::der::der_basic_constraints(self.ca, self.path_len),
            r is Some,
    {
        crate::der::encode_basic_constraints(self.ca, self.path_len)
    }

    /// Return the value that DER `basic_constraints` holds.
    pub fn from_rasn_type(basic_constraints: &[u8]) -> (r: Option<Self>)
        ensures
            r == basic_constraints_from_der(basic_constraints@),
    {
        match crate::der::decode_basic_constraints(basic_constraints) {
            Some((ca, path_len)) => Some(BasicConstraints { ca, path_len }),
            None => None,
        }
    }
}

} // verus!
