//! Tests of the single pipeline stages, the failure taxonomy's wire mapping,
//! and the per-request context.

use auth_gate::account::{Account, UserRole};
use auth_gate::context::{Authenticated, RequestContext};
use auth_gate::credential::extract_credential;
use auth_gate::errors::{error_body, AuthError};
use auth_gate::pipeline::{check_lookup, check_verification, LookupOutcome, VerifyOutcome};

#[test]
fn cookie_value_is_taken_verbatim() {
    let r = extract_credential(Some(b"abc.def.ghi".to_vec()), None);
    assert_eq!(r, Ok(b"abc.def.ghi".to_vec()));
}

#[test]
fn cookie_wins_over_header() {
    let r = extract_credential(Some(b"from-cookie".to_vec()), Some(b"Bearer from-header".to_vec()));
    assert_eq!(r, Ok(b"from-cookie".to_vec()));
}

#[test]
fn header_credential_follows_the_scheme_prefix() {
    let r = extract_credential(None, Some(b"Bearer tok123".to_vec()));
    assert_eq!(r, Ok(b"tok123".to_vec()));
}

#[test]
fn header_of_exactly_the_prefix_yields_an_empty_credential() {
    let r = extract_credential(None, Some(b"Bearer ".to_vec()));
    assert_eq!(r, Ok(Vec::new()));
}

#[test]
fn too_short_header_is_treated_as_missing() {
    assert_eq!(extract_credential(None, Some(b"Bearer".to_vec())), Err(AuthError::MissingCredential));
    assert_eq!(extract_credential(None, Some(Vec::new())), Err(AuthError::MissingCredential));
}

#[test]
fn nothing_at_all_is_missing() {
    assert_eq!(extract_credential(None, None), Err(AuthError::MissingCredential));
}

#[test]
fn verified_subject_parses_to_its_uuid_value() {
    let r = check_verification(&VerifyOutcome::Subject(
        "00000000-0000-0000-0000-000000000001".to_string(),
    ));
    assert_eq!(r, Ok(1));

    let r = check_verification(&VerifyOutcome::Subject(
        "a1a2a3a4-b1b2-c1c2-d1d2-d3d4d5d6d7d8".to_string(),
    ));
    assert_eq!(r, Ok(0xa1a2a3a4b1b2c1c2d1d2d3d4d5d6d7d8));
}

#[test]
fn rejected_token_and_malformed_subject_are_distinguished() {
    assert_eq!(
        check_verification(&VerifyOutcome::BadToken),
        Err(AuthError::InvalidOrExpiredToken)
    );
    assert_eq!(
        check_verification(&VerifyOutcome::Subject("S1".to_string())),
        Err(AuthError::MalformedSubject)
    );
    assert_eq!(
        check_verification(&VerifyOutcome::Subject(String::new())),
        Err(AuthError::MalformedSubject)
    );
}

#[test]
fn lookup_answers_map_to_their_outcomes() {
    let account = Account { id: 11, role: UserRole::Viewer };
    assert_eq!(check_lookup(&LookupOutcome::Found(account)), Ok(account));
    assert_eq!(check_lookup(&LookupOutcome::Missing), Err(AuthError::AccountNotFound));
    assert_eq!(check_lookup(&LookupOutcome::Fault), Err(AuthError::LookupInfraFailure));
}

#[test]
fn statuses_follow_the_wire_contract() {
    assert_eq!(AuthError::MissingCredential.http_status(), 401);
    assert_eq!(AuthError::InvalidOrExpiredToken.http_status(), 401);
    assert_eq!(AuthError::AccountNotFound.http_status(), 401);
    assert_eq!(AuthError::PermissionDenied.http_status(), 403);
    assert_eq!(AuthError::MalformedSubject.http_status(), 500);
    assert_eq!(AuthError::LookupInfraFailure.http_status(), 500);
    assert_eq!(AuthError::MissingBindingDefect.http_status(), 500);
}

#[test]
fn only_defect_class_failures_are_defects() {
    assert!(!AuthError::MissingCredential.is_defect());
    assert!(!AuthError::InvalidOrExpiredToken.is_defect());
    assert!(!AuthError::AccountNotFound.is_defect());
    assert!(!AuthError::PermissionDenied.is_defect());
    assert!(AuthError::MalformedSubject.is_defect());
    assert!(AuthError::LookupInfraFailure.is_defect());
    assert!(AuthError::MissingBindingDefect.is_defect());
}

#[test]
fn error_bodies_carry_the_fail_marker_and_message() {
    let b = error_body(&AuthError::MissingCredential);
    assert_eq!(b.status, "fail");
    assert_eq!(b.message, "You are not logged in, please provide a token");

    let b = error_body(&AuthError::InvalidOrExpiredToken);
    assert_eq!(b.message, "Authentication token is invalid or expired");

    let b = error_body(&AuthError::AccountNotFound);
    assert_eq!(b.message, "The account belonging to this token no longer exists");

    let b = error_body(&AuthError::PermissionDenied);
    assert_eq!(b.message, "You are not permitted to perform this action");

    // Defect-class failures leak no internal detail.
    for e in [
        AuthError::MalformedSubject,
        AuthError::LookupInfraFailure,
        AuthError::MissingBindingDefect,
    ] {
        assert_eq!(error_body(&e).message, "Internal server error");
    }
}

#[test]
fn accessor_without_gating_is_a_defect() {
    let ctx = RequestContext::new();
    let r = Authenticated::from_context(&ctx);
    assert!(matches!(r, Err(AuthError::MissingBindingDefect)));
}

#[test]
fn accessor_returns_the_bound_record() {
    let account = Account { id: 12, role: UserRole::Editor };
    let mut ctx = RequestContext::new();
    ctx.bind(account);
    let auth = Authenticated::from_context(&ctx).unwrap();
    assert_eq!(*auth.account(), account);
}
