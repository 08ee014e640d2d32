//! The failure taxonomy and its mapping to wire responses.

use vstd::prelude::*;

verus! {

/// Every way the middleware can refuse a request. The first four are
/// authentication or authorization failures caused by the caller; the
/// defect-class variants indicate a bug or an outage on the server side and
/// are surfaced as generic server errors, with no internal detail leaked.
#[derive(Clone, Copy, Debug, PartialEq, Eq, Structural)]
pub enum AuthError {
    /// Neither the `token` cookie nor a usable `Authorization` header was present.
    MissingCredential,
    /// The token failed signature or expiry verification (the sub-checks are
    /// deliberately not distinguished, to avoid oracle attacks).
    InvalidOrExpiredToken,
    /// The token verified but its subject is not a well-formed account
    /// identifier: a server-side defect, not a forged credential.
    MalformedSubject,
    /// The subject no longer names a persisted account.
    AccountNotFound,
    /// The identity store itself failed.
    LookupInfraFailure,
    /// The account's role is not in the route's allow-list.
    PermissionDenied,
    /// The identity accessor ran on a request the middleware never admitted: a
    /// route was wired to use the accessor without the gating middleware.
    MissingBindingDefect,
}

impl AuthError {
    /// Defect-class failures indicate a bug or an infrastructure outage,
    /// not caller misbehaviour.
    pub open spec fn spec_is_defect(self) -> bool {
        ||| self == AuthError::MalformedSubject
        ||| self == AuthError::LookupInfraFailure
        ||| self == AuthError::MissingBindingDefect
    }

    pub fn is_defect(&self) -> (r: bool)
        ensures
            r == self.spec_is_defect(),
    {
        match self {
            AuthError::MalformedSubject => true,
            AuthError::LookupInfraFailure => true,
            AuthError::MissingBindingDefect => true,
            _ => false,
        }
    }

    /// The HTTP status a failure is reported with: 401 for a missing,
    /// invalid or expired credential and for an unknown account, 403 for a
    /// role mismatch, 500 for defect-class conditions.
    pub open spec fn spec_http_status(self) -> u16 {
        if self.spec_is_defect() {
            500
        } else if self == AuthError::PermissionDenied {
            403
        } else {
            401
        }
    }

    pub fn http_status(&self) -> (s: u16)
        ensures
            s == self.spec_http_status(),
    {
        match self {
            AuthError::MissingCredential => 401,
            AuthError::InvalidOrExpiredToken => 401,
            AuthError::AccountNotFound => 401,
            AuthError::PermissionDenied => 403,
            AuthError::MalformedSubject => 500,
            AuthError::LookupInfraFailure => 500,
            AuthError::MissingBindingDefect => 500,
        }
    }

    /// The user-visible message for a failure. Defect-class failures all
    /// collapse to one generic message: their detail belongs in server-side
    /// logs, never in the response.
    pub open spec fn spec_message(self) -> Seq<char> {
        match self {
            AuthError::MissingCredential => "You are not logged in, please provide a token"@,
            AuthError::InvalidOrExpiredToken => "Authentication token is invalid or expired"@,
            AuthError::AccountNotFound => "The account belonging to this token no longer exists"@,
            AuthError::PermissionDenied => "You are not permitted to perform this action"@,
            _ => "Internal server error"@,
        }
    }

    pub fn message(&self) -> (m: String)
        ensures
            m@ == self.spec_message(),
    {
        match self {
            AuthError::MissingCredential => String::from_str(
                "You are not logged in, please provide a token",
            ),
            AuthError::InvalidOrExpiredToken => String::from_str(
                "Authentication token is invalid or expired",
            ),
            AuthError::AccountNotFound => String::from_str(
                "The account belonging to this token no longer exists",
            ),
            AuthError::PermissionDenied => String::from_str(
                "You are not permitted to perform this action",
            ),
            _ => String::from_str("Internal server error"),
        }
    }
}

/// The wire shape of an error reply: a JSON object
/// `{ "status": "fail", "message": <string> }`.
pub struct ErrorBody {
    pub status: String,
    pub message: String,
}

/// Builds the reply body for a failure: the fixed `"fail"` marker and the
/// failure's user-visible message.
pub fn error_body(e: &AuthError) -> (b: ErrorBody)
    ensures
        b.status@ == "fail"@,
        b.message@ == e.spec_message(),
{
    ErrorBody { status: String::from_str("fail"), message: e.message() }
}

} // verus!
