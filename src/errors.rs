//! Error values returned by decoding, parsing, identity handling and path
//! validation. Each error is a flat kind plus an optional message.
use vstd::prelude::*;

verus! {

/// Error raised when an encoded text or structure cannot be decoded.
#[derive(Debug, Default)]
pub struct DecodingError {
    pub msg: Option<String>,
}

impl DecodingError {
    /// Create a new instance with an error message.
    pub fn with_msg(msg: &str) -> (r: Self)
        ensures
            r.msg matches Some(m) && m@ == msg@,
    {
        DecodingError { msg: Some(msg.to_owned()) }
    }
}

/// Cause of a certificate parsing error.
#[derive(Debug, Clone, Copy, PartialEq, Eq, Structural)]
pub enum CertificateParsingErrorKind {
    /// Failure to parse the DER encoded certificate.
    CertificateDecodingError,
}

/// Certificate parsing error.
#[derive(Debug)]
pub struct CertificateParsingError {
    pub kind: CertificateParsingErrorKind,
    pub msg: Option<String>,
}

impl CertificateParsingErrorKind {
    /// Create a new error of this kind with a message.
    pub fn error_with_msg(self, msg: &str) -> (r: CertificateParsingError)
        ensures
            r.kind == self,
            r.msg matches Some(m) && m@ == msg@,
    {
        CertificateParsingError { kind: self, msg: Some(msg.to_owned()) }
    }

    /// Create a new error of this kind without a message.
    pub fn error(self) -> (r: CertificateParsingError)
        ensures
            r.kind == self,
            r.msg is None,
    {
        CertificateParsingError { kind: self, msg: None }
    }
}

impl CertificateParsingError {
    /// Return the kind of this error.
    pub fn kind(&self) -> (r: &CertificateParsingErrorKind)
        ensures
            *r == self.kind,
    {
        &self.kind
    }
}

/// Cause of an identity fragment handling error.
#[derive(Debug, Clone, Copy, PartialEq, Eq, Structural)]
pub enum IdentityFragmentErrorKind {
    /// Failed to encode the value to ASN.1.
    EncodingFailure,
    /// Failed to decode the value from ASN.1.
    DecodingFailure,
    /// Attribute name is not known.
    UnknownAttribute,
    /// Attribute's value violates restrictions for this attribute.
    InvalidAttributeValue,
}

/// Identity fragment handling error.
#[derive(Debug)]
pub struct IdentityFragmentError {
    pub kind: IdentityFragmentErrorKind,
    pub msg: Option<String>,
}

impl IdentityFragmentErrorKind {
    /// Create a new error of this kind with a message.
    pub fn error_with_msg(self, msg: &str) -> (r: IdentityFragmentError)
        ensures
            r.kind == self,
            r.msg matches Some(m) && m@ == msg@,
    {
        IdentityFragmentError { kind: self, msg: Some(msg.to_owned()) }
    }

    /// Create a new error of this kind without a message.
    pub fn error(self) -> (r: IdentityFragmentError)
        ensures
            r.kind == self,
            r.msg is None,
    {
        IdentityFragmentError { kind: self, msg: None }
    }
}

impl IdentityFragmentError {
    /// Return the kind of this error.
    pub fn kind(&self) -> (r: &IdentityFragmentErrorKind)
        ensures
            *r == self.kind,
    {
        &self.kind
    }
}

/// Cause of a certificate validation error.
#[derive(Debug, Clone, Copy, PartialEq, Eq, Structural)]
pub enum CertificateValidationErrorKind {
    /// Failure to parse an encoded certificate.
    CertificateParsingError,
    /// Failure to verify the signature using the issuer's public key.
    InvalidSignature,
    /// An unknown signature algorithm was used to sign the certificate.
    UnknownSignature,
    /// A certificate was not yet valid or had expired at the point in time of
    /// validation.
    InvalidLifeSpan,
    /// None or more than one leaf was provided, or the chain has a gap.
    NotOneLeaf,
    /// The certificate chain does not lead up to any trust anchor.
    NotTrusted,
    /// Critical extensions remained that no checker handled.
    UnhandledCriticalExtensions,
    /// A checker rejected the chain while verifying an extension.
    ExtensionHandlingFailure,
}

/// Certificate validation error.
#[derive(Debug)]
pub struct CertificateValidationError {
    pub kind: CertificateValidationErrorKind,
    pub msg: Option<String>,
}

impl CertificateValidationErrorKind {
    /// Create a new error of this kind with a message.
    pub fn error_with_msg(self, msg: &str) -> (r: CertificateValidationError)
        ensures
            r.kind == self,
            r.msg matches Some(m) && m@ == msg@,
    {
        CertificateValidationError { kind: self, msg: Some(msg.to_owned()) }
    }

    /// Create a new error of this kind without a message.
    pub fn error(self) -> (r: CertificateValidationError)
        ensures
            r.kind == self,
            r.msg is None,
    {
        CertificateValidationError { kind: self, msg: None }
    }
}

impl CertificateValidationError {
    /// Return the kind of this error.
    pub fn kind(&self) -> (r: &CertificateValidationErrorKind)
        ensures
            *r == self.kind,
    {
        &self.kind
    }
}

} // verus!
