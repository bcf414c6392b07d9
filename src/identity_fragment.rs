//! A `(name, value)` pair describing part of an entity's identity.
use vstd::prelude::*;
use crate::errors::IdentityFragmentError;

verus! {

/// Partial description of an entity's identity: the snake_case `name` of a
/// well-known attribute or general name and the textual `value`.
#[derive(Debug, Clone, PartialEq, Eq, PartialOrd, Ord)]
pub struct IdentityFragment {
    pub name: String,
    pub value: String,
}

impl IdentityFragment {
    /// Return a new instance without checking the `name`.
    pub fn new_unchecked(name: &str, value: &str) -> (r: Self)
        ensures
            r.name@ == name@,
            r.value@ == value@,
    {
        IdentityFragment { name: name.to_owned(), value: value.to_owned() }
    }

    /// Return a new instance. The name is checked against the registry only
    /// when the fragment is validated or encoded.
    pub fn new(name: &str, value: &str) -> (r: Result<Self, IdentityFragmentError>)
        ensures
            r matches Ok(f) && f.name@ == name@ && f.value@ == value@,
    {
        Ok(Self::new_unchecked(name, value))
    }
}

} // verus!
