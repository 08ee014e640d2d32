//! The gating pipeline: verification, resolution, the role gate, and the
//! decision they compose to.
//!
//! Token verification and the account lookup are work of external
//! collaborators (a signing-key-bound verifier and the identity store). The
//! pipeline therefore takes their verdicts as values — [`VerifyOutcome`] and
//! [`LookupOutcome`] — and every decision made on top of them is verified
//! for every verdict they could hand back. The caller drives the stages
//! strictly in order: extract, verify, resolve, gate.

use vstd::prelude::*;
use crate::account::{Account, UserRole};
use crate::credential::{opt_bytes, spec_extract_credential, extract_credential};
use crate::errors::AuthError;

verus! {

/// What the token verifier reported for a credential: the subject identifier
/// embedded in a token whose signature and expiry both checked out, or one
/// collapsed failure for everything else (malformed token, bad signature,
/// expired token — deliberately indistinguishable to the caller).
pub enum VerifyOutcome {
    Subject(String),
    BadToken,
}

/// What the identity store reported for a subject: the current account
/// record, no such account (deleted or deactivated since the token was
/// issued), or a failure of the store itself.
pub enum LookupOutcome {
    Found(Account),
    Missing,
    Fault,
}

/// The 128-bit value a string denotes when it is a well-formed textual UUID,
/// and nothing when it is not.
pub uninterp spec fn parsed_uuid(s: Seq<char>) -> Option<u128>;

/// Relies on `uuid::Uuid::parse_str` and `uuid::Uuid::as_u128`: whether a
/// string is a well-formed textual UUID, and which 128-bit value it denotes,
/// depend on its characters alone.
#[verifier::external_body]
fn parse_subject(s: &str) -> (r: Option<u128>)
    ensures
        r == parsed_uuid(s@),
{
    match uuid::Uuid::parse_str(s) {
        Ok(u) => Some(u.as_u128()),
        Err(_) => None,
    }
}

/// The meaning of the token verifier's report: a rejected token is an
/// authentication failure, a subject that is no well-formed account
/// identifier is a server-side defect, and a well-formed subject moves the
/// request on with its identifier's value.
pub open spec fn spec_verify_step(outcome: VerifyOutcome) -> Result<u128, AuthError> {
    match outcome {
        VerifyOutcome::BadToken => Err(AuthError::InvalidOrExpiredToken),
        VerifyOutcome::Subject(s) => match parsed_uuid(s@) {
            Some(id) => Ok(id),
            None => Err(AuthError::MalformedSubject),
        },
    }
}

/// The Token Verifier's decision stage: maps the verifier's verdict to the
/// subject's identifier value or to the failure it stands for.
pub fn check_verification(outcome: &VerifyOutcome) -> (r: Result<u128, AuthError>)
    ensures
        r == spec_verify_step(*outcome),
{
    match outcome {
        VerifyOutcome::BadToken => Err(AuthError::InvalidOrExpiredToken),
        VerifyOutcome::Subject(s) => match parse_subject(s.as_str()) {
            Some(id) => Ok(id),
            None => Err(AuthError::MalformedSubject),
        },
    }
}

/// What the resolution stage concludes from the store's answer: a missing
/// account is an authentication failure (the account was revoked after the
/// token was issued), a store fault is a server error, and a found record
/// moves the request on.
pub open spec fn spec_resolve_step(outcome: LookupOutcome) -> Result<Account, AuthError> {
    match outcome {
        LookupOutcome::Found(a) => Ok(a),
        LookupOutcome::Missing => Err(AuthError::AccountNotFound),
        LookupOutcome::Fault => Err(AuthError::LookupInfraFailure),
    }
}

/// The Identity Resolver's decision stage: maps the store's answer to the
/// resolved account record or to the failure it stands for.
pub fn check_lookup(outcome: &LookupOutcome) -> (r: Result<Account, AuthError>)
    ensures
        r == spec_resolve_step(*outcome),
{
    match outcome {
        LookupOutcome::Found(a) => Ok(*a),
        LookupOutcome::Missing => Err(AuthError::AccountNotFound),
        LookupOutcome::Fault => Err(AuthError::LookupInfraFailure),
    }
}

/// Route-level configuration: the fixed, ordered list of roles a route
/// group admits, declared once at startup and immutable afterwards.
pub struct RequireAuth {
    pub allowed_roles: Vec<UserRole>,
}

impl RequireAuth {
    /// Declares the allow-list of a route group.
    pub fn allowed_roles(allowed_roles: Vec<UserRole>) -> (r: Self)
        ensures
            r.allowed_roles@ == allowed_roles@,
    {
        RequireAuth { allowed_roles }
    }

    /// Hands a middleware instance its own copy of the allow-list, the way
    /// the configuration is instantiated once per wrapped service.
    pub fn middleware(&self) -> (m: AuthMiddleware)
        ensures
            m.allowed_roles@ == self.allowed_roles@,
    {
        let mut roles: Vec<UserRole> = Vec::new();
        let mut i: usize = 0;
        while i < self.allowed_roles.len()
            invariant
                i <= self.allowed_roles.len(),
                roles@ == self.allowed_roles@.subrange(0, i as int),
            decreases self.allowed_roles.len() - i,
        {
            roles.push(self.allowed_roles[i]);
            i = i + 1;
        }
        proof {
            assert(roles@ == self.allowed_roles@);
        }
        AuthMiddleware { allowed_roles: roles }
    }
}

/// The middleware itself: one instance per wrapped route group, holding that
/// group's allow-list. All its decisions are functions of the request, the
/// collaborators' verdicts and this list alone.
pub struct AuthMiddleware {
    pub allowed_roles: Vec<UserRole>,
}

impl AuthMiddleware {
    /// Whether the Role Gate admits an account: exactly when its role is a
    /// member of the allow-list.
    pub open spec fn spec_gate(self, account: Account) -> Result<Account, AuthError> {
        if self.allowed_roles@.contains(account.role) {
            Ok(account)
        } else {
            Err(AuthError::PermissionDenied)
        }
    }

    /// Membership of a role in the allow-list: plain, order-independent
    /// set membership, with no hierarchy and no wildcard.
    pub fn role_allowed(&self, role: UserRole) -> (r: bool)
        ensures
            r == self.allowed_roles@.contains(role),
    {
        let mut i: usize = 0;
        while i < self.allowed_roles.len()
            invariant
                i <= self.allowed_roles.len(),
                forall|j: int| 0 <= j < i ==> self.allowed_roles@[j] != role,
            decreases self.allowed_roles.len() - i,
        {
            if self.allowed_roles[i] == role {
                proof {
                    assert(self.allowed_roles@[i as int] == role);
                }
                return true;
            }
            i = i + 1;
        }
        false
    }

    /// The Role Gate: admits the account exactly when its role is in the
    /// allow-list, and otherwise denies the request without revealing the
    /// account's details or the list's contents.
    pub fn gate(&self, account: Account) -> (r: Result<Account, AuthError>)
        ensures
            r == self.spec_gate(account),
    {
        if self.role_allowed(account.role) {
            Ok(account)
        } else {
            Err(AuthError::PermissionDenied)
        }
    }

    /// The decision of the whole pipeline, as a function of the request's
    /// two credential sources and the verdicts of the two external
    /// collaborators. The stages short-circuit in order: no credential, then
    /// the verifier's verdict, then the store's answer, then the role gate.
    pub open spec fn spec_decide(
        self,
        cookie: Option<Seq<u8>>,
        header: Option<Seq<u8>>,
        verify: VerifyOutcome,
        lookup: LookupOutcome,
    ) -> Result<Account, AuthError> {
        match spec_extract_credential(cookie, header) {
            None => Err(AuthError::MissingCredential),
            Some(_) => match spec_verify_step(verify) {
                Err(e) => Err(e),
                Ok(_) => match spec_resolve_step(lookup) {
                    Err(e) => Err(e),
                    Ok(a) => self.spec_gate(a),
                },
            },
        }
    }

    /// Runs every decision stage of the pipeline in order, given the
    /// verdicts the two collaborators returned, and yields the admitted
    /// account or the failure that ended the request.
    pub fn decide(
        &self,
        cookie: Option<Vec<u8>>,
        header: Option<Vec<u8>>,
        verify: &VerifyOutcome,
        lookup: &LookupOutcome,
    ) -> (r: Result<Account, AuthError>)
        ensures
            r == self.spec_decide(opt_bytes(cookie), opt_bytes(header), *verify, *lookup),
    {
        let credential = extract_credential(cookie, header);
        if let Err(e) = credential {
            return Err(e);
        }
        let subject = check_verification(verify);
        if let Err(e) = subject {
            return Err(e);
        }
        let account = match check_lookup(lookup) {
            Ok(a) => a,
            Err(e) => {
                return Err(e);
            },
        };
        self.gate(account)
    }
}

} // verus!
