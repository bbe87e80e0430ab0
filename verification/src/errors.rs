use vstd::prelude::*;

verus! {

/// The error taxonomy of the caching and authentication core.
///
/// Every lower-level failure (lock poisoning, network, parsing, template
/// compilation) is reclassified into one of these kinds at the component
/// boundary; no raw lower-level error crosses into request handling.
#[derive(Clone, Copy, Debug, PartialEq, Eq, Structural)]
pub enum CoreError {
    /// Missing or ill-formed `Authorization` header.
    MalformedRequest,
    /// The token decodes structurally but lacks a required field.
    MalformedToken,
    /// No key material is known under the requested key id.
    UnknownKey,
    /// Signature, claim or key-lookup failure.
    Unauthorized,
    /// The token or its key material selects a non-RSA algorithm.
    UnsupportedAlgorithm,
    /// The key-set endpoint was unreachable or returned unparsable data.
    UpstreamFetchFailure,
    /// The backing store or a template compilation failed during reload.
    ReloadFailure,
    /// A shared-cache lock was poisoned by an earlier panic.
    LockFailure,
}

/// What a client is allowed to learn about a failed request.
#[derive(Clone, Copy, Debug, PartialEq, Eq, Structural)]
pub enum ErrorClass {
    /// The request itself was ill-formed.
    BadRequest,
    /// Authentication failed; the cause is deliberately not distinguished.
    Unauthorized,
    /// A server-side fault; the request cannot be served.
    ServerFault,
}

impl CoreError {
    /// The authentication failures that must be indistinguishable to a client,
    /// so that a caller probing the validator learns nothing about why a
    /// token was rejected.
    pub open spec fn is_auth_failure(self) -> bool {
        ||| self is UnknownKey
        ||| self is Unauthorized
        ||| self is UnsupportedAlgorithm
        ||| self is UpstreamFetchFailure
    }

    /// The class a client may observe, as a spec-level function: every
    /// authentication failure maps to the same class.
    pub open spec fn client_class_spec(self) -> ErrorClass {
        if self.is_auth_failure() {
            ErrorClass::Unauthorized
        } else if (self is MalformedRequest || self is MalformedToken) {
            ErrorClass::BadRequest
        } else {
            ErrorClass::ServerFault
        }
    }

    /// Collapse the internal kind into the class a client may observe,
    /// never revealing whether the key was unknown, the signature bad, or
    /// the algorithm unsupported.
    pub fn client_class(&self) -> (c: ErrorClass)
        ensures
            c == self.client_class_spec(),
    {
        match self {
            CoreError::MalformedRequest => ErrorClass::BadRequest,
            CoreError::MalformedToken => ErrorClass::BadRequest,
            CoreError::UnknownKey => ErrorClass::Unauthorized,
            CoreError::Unauthorized => ErrorClass::Unauthorized,
            CoreError::UnsupportedAlgorithm => ErrorClass::Unauthorized,
            CoreError::UpstreamFetchFailure => ErrorClass::Unauthorized,
            CoreError::ReloadFailure => ErrorClass::ServerFault,
            CoreError::LockFailure => ErrorClass::ServerFault,
        }
    }

    /// The generic message for the observable class; equal for every error of
    /// one class, so the text leaks nothing either.
    pub fn client_message(&self) -> (m: String)
        ensures
            self.client_class_spec() is Unauthorized ==> m@ == "Unauthorized"@,
            self.client_class_spec() is BadRequest ==> m@ == "Bad Request"@,
            self.client_class_spec() is ServerFault ==> m@ == "Server Error"@,
    {
        match self.client_class() {
            ErrorClass::BadRequest => "Bad Request".to_owned(),
            ErrorClass::Unauthorized => "Unauthorized".to_owned(),
            ErrorClass::ServerFault => "Server Error".to_owned(),
        }
    }
}

} // verus!
