//! Authority Information Access descriptions.
use vstd::prelude::*;
use crate::general_name::WellKnownGeneralName;
use crate::parse::copy_oid;

verus! {

/// Object identifier of the Authority Information Access extension.
pub open spec fn authority_information_access_oid() -> Seq<u32> {
    seq![1, 3, 6, 1, 5, 5, 7, 1, 1]
}

/// Access method of OCSP.
pub open spec fn access_method_ocsp() -> Seq<u32> {
    seq![1, 3, 6, 1, 5, 5, 7, 48, 1]
}

/// Access method of CA issuers.
pub open spec fn access_method_ca_issuers() -> Seq<u32> {
    seq![1, 3, 6, 1, 5, 5, 7, 48, 2]
}

/// One Authority Information Access description.
#[derive(Debug, PartialEq)]
pub enum AuthorityInfoAccessDescription {
    /// OCSP responder URI.
    Ocsp { uri: String },
    /// Where certificates issued to the CA can be found.
    CaIssuers { access_location: (WellKnownGeneralName, String) },
    /// Any other access method.
    Other { oid: Vec<u32>, access_location: (WellKnownGeneralName, String) },
}

impl AuthorityInfoAccessDescription {
    /// The access method object identifier.
    pub open spec fn spec_access_method(&self) -> Seq<u32> {
        match self {
            AuthorityInfoAccessDescription::Ocsp { .. } => access_method_ocsp(),
            AuthorityInfoAccessDescription::CaIssuers { .. } => access_method_ca_issuers(),
            AuthorityInfoAccessDescription::Other { oid, .. } => oid@,
        }
    }

    /// The kind of the access location.
    pub open spec fn spec_location_kind(&self) -> WellKnownGeneralName {
        match self {
            AuthorityInfoAccessDescription::Ocsp { .. } => WellKnownGeneralName::Uri,
            AuthorityInfoAccessDescription::CaIssuers { access_location } => access_location.0,
            AuthorityInfoAccessDescription::Other { access_location, .. } => access_location.0,
        }
    }

    /// The text of the access location.
    pub open spec fn spec_location_text(&self) -> Seq<char> {
        match self {
            AuthorityInfoAccessDescription::Ocsp { uri } => uri@,
            AuthorityInfoAccessDescription::CaIssuers { access_location } => access_location.1@,
            AuthorityInfoAccessDescription::Other { access_location, .. } => access_location.1@,
        }
    }

    /// Return the access method object identifier.
    pub fn access_method_oid(&self) -> (r: Vec<u32>)
        ensures
            r@ == self.spec_access_method(),
    {
        match self {
            AuthorityInfoAccessDescription::Ocsp { .. } => {
                let r = vec![1u32, 3, 6, 1, 5, 5, 7, 48, 1];
                assert(r@ =~= access_method_ocsp());
                r
            },
            AuthorityInfoAccessDescription::CaIssuers { .. } => {
                let r = vec![1u32, 3, 6, 1, 5, 5, 7, 48, 2];
                assert(r@ =~= access_method_ca_issuers());
                r
            },
            AuthorityInfoAccessDescription::Other { oid, .. } => copy_oid(oid),
        }
    }

    /// The kind and text of the access location.
    pub fn access_location(&self) -> (r: (WellKnownGeneralName, &str))
        ensures
            match self {
                AuthorityInfoAccessDescription::Ocsp { uri } => r.0 == WellKnownGeneralName::Uri && r.1@ == uri@,
                AuthorityInfoAccessDescription::CaIssuers { access_location } => r.0 == access_location.0 && r.1@ == access_location.1@,
                AuthorityInfoAccessDescription::Other { access_location, .. } => r.0 == access_location.0 && r.1@ == access_location.1@,
            },
    {
        match self {
            AuthorityInfoAccessDescription::Ocsp { uri } => (WellKnownGeneralName::Uri, uri.as_str()),
            AuthorityInfoAccessDescription::CaIssuers { access_location } => (access_location.0, access_location.1.as_str()),
            AuthorityInfoAccessDescription::Other { access_location, .. } => (access_location.0, access_location.1.as_str()),
        }
    }
}

} // verus!
