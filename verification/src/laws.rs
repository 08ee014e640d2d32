//! The middleware's laws: what the pipeline's decision guarantees, proved once and
//! for all over the decision function the executable stages are pinned to.

use vstd::prelude::*;
use crate::account::Account;
use crate::credential::spec_extract_credential;
use crate::errors::AuthError;
use crate::pipeline::{AuthMiddleware, LookupOutcome, VerifyOutcome, spec_verify_step};

verus! {

/// A request lacking both the `token` cookie and an `Authorization` header
/// is rejected with `MissingCredential`, whatever the verifier or the
/// identity store would have answered: neither collaborator's verdict can
/// influence the outcome, so neither needs to be consulted.
pub proof fn lemma_missing_credential(
    m: AuthMiddleware,
    verify: VerifyOutcome,
    lookup: LookupOutcome,
)
    ensures
        m.spec_decide(None, None, verify, lookup) == Err::<Account, AuthError>(
            AuthError::MissingCredential,
        ),
{
}

/// A token the verifier rejected ends the request with
/// `InvalidOrExpiredToken`, independent of whether its subject would have
/// resolved: the store's answer cannot change the outcome.
pub proof fn lemma_invalid_token(
    m: AuthMiddleware,
    cookie: Option<Seq<u8>>,
    header: Option<Seq<u8>>,
    lookup: LookupOutcome,
)
    requires
        spec_extract_credential(cookie, header) is Some,
    ensures
        m.spec_decide(cookie, header, VerifyOutcome::BadToken, lookup) == Err::<
            Account,
            AuthError,
        >(AuthError::InvalidOrExpiredToken),
{
}

/// A valid, non-expired token whose well-formed subject resolves to an
/// account whose role is in the allow-list admits the request with exactly
/// that account record.
pub proof fn lemma_admitted(
    m: AuthMiddleware,
    cookie: Option<Seq<u8>>,
    header: Option<Seq<u8>>,
    subject: String,
    account: Account,
)
    requires
        spec_extract_credential(cookie, header) is Some,
        m.allowed_roles@.contains(account.role),
    ensures
        spec_verify_step(VerifyOutcome::Subject(subject)) is Ok ==> m.spec_decide(
            cookie,
            header,
            VerifyOutcome::Subject(subject),
            LookupOutcome::Found(account),
        ) == Ok::<Account, AuthError>(account),
{
}

/// A valid token whose resolved account's role is absent from the
/// allow-list is rejected with `PermissionDenied`, however valid the
/// account itself is.
pub proof fn lemma_permission_denied(
    m: AuthMiddleware,
    cookie: Option<Seq<u8>>,
    header: Option<Seq<u8>>,
    subject: String,
    account: Account,
)
    requires
        spec_extract_credential(cookie, header) is Some,
        !m.allowed_roles@.contains(account.role),
    ensures
        spec_verify_step(VerifyOutcome::Subject(subject)) is Ok ==> m.spec_decide(
            cookie,
            header,
            VerifyOutcome::Subject(subject),
            LookupOutcome::Found(account),
        ) == Err::<Account, AuthError>(AuthError::PermissionDenied),
{
}

/// Revocation responsiveness: an account deleted between token issuance and
/// request arrival is rejected with `AccountNotFound`, although the token
/// itself still verifies.
pub proof fn lemma_revoked_account(
    m: AuthMiddleware,
    cookie: Option<Seq<u8>>,
    header: Option<Seq<u8>>,
    subject: String,
)
    requires
        spec_extract_credential(cookie, header) is Some,
    ensures
        spec_verify_step(VerifyOutcome::Subject(subject)) is Ok ==> m.spec_decide(
            cookie,
            header,
            VerifyOutcome::Subject(subject),
            LookupOutcome::Missing,
        ) == Err::<Account, AuthError>(AuthError::AccountNotFound),
{
}

/// Idempotence: the decision is a function of the request's credential
/// sources, the collaborators' verdicts and the allow-list alone. Two gates
/// configured with the same allow-list — in particular, the same gate asked
/// twice against an unchanged account state — decide the same request the
/// same way every time; there is no hidden state across calls.
pub proof fn lemma_idempotent_decision(
    m1: AuthMiddleware,
    m2: AuthMiddleware,
    cookie: Option<Seq<u8>>,
    header: Option<Seq<u8>>,
    verify: VerifyOutcome,
    lookup: LookupOutcome,
)
    requires
        m1.allowed_roles@ == m2.allowed_roles@,
    ensures
        m1.spec_decide(cookie, header, verify, lookup) == m2.spec_decide(
            cookie,
            header,
            verify,
            lookup,
        ),
{
}

/// Admission characterized: the pipeline admits a request exactly when a
/// credential was present, the verifier accepted the token with a
/// well-formed subject, the store found the account, and the account's role
/// is in the allow-list — and what it admits is exactly the record the
/// store returned. The Bound Identity therefore stands in a request's
/// context if and only if that request passed the Role Gate.
pub proof fn lemma_admission_characterized(
    m: AuthMiddleware,
    cookie: Option<Seq<u8>>,
    header: Option<Seq<u8>>,
    verify: VerifyOutcome,
    lookup: LookupOutcome,
)
    ensures
        m.spec_decide(cookie, header, verify, lookup) is Ok <==> {
            &&& spec_extract_credential(cookie, header) is Some
            &&& spec_verify_step(verify) is Ok
            &&& lookup is Found
            &&& m.allowed_roles@.contains(lookup->0.role)
        },
        m.spec_decide(cookie, header, verify, lookup) matches Ok(a) ==> lookup
            == LookupOutcome::Found(a),
{
}

} // verus!
