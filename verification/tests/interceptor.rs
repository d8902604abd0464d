//! Tests for the authentication interceptor: the four header cases under
//! each mode, token extraction, and the rejection surface.

use request_gateway::interceptor::{
    entry_step, intercept, resolved_step, AuthMode, EntryOutcome, IdentityContext,
    InterceptOutcome, Rejection, SessionMiddleware,
};
use request_gateway::text::extract_token;

fn empty() -> IdentityContext {
    IdentityContext { present: false, identity: 0 }
}

fn resolved(id: u64) -> IdentityContext {
    IdentityContext { present: true, identity: id }
}

#[test]
fn public_mode_ignores_header() {
    assert_eq!(entry_step(AuthMode::Public, None), EntryOutcome::Proceed(empty()));
    assert_eq!(
        entry_step(AuthMode::Public, Some("Bearer sometoken")),
        EntryOutcome::Proceed(empty())
    );
    assert_eq!(entry_step(AuthMode::Public, Some("garbage")), EntryOutcome::Proceed(empty()));
    assert_eq!(entry_step(AuthMode::Public, Some("Bearer")), EntryOutcome::Proceed(empty()));
}

#[test]
fn required_missing_header_rejected() {
    assert_eq!(
        entry_step(AuthMode::Required, None),
        EntryOutcome::Reject(Rejection::MissingCredential)
    );
}

#[test]
fn required_bare_scheme_rejected() {
    assert_eq!(
        entry_step(AuthMode::Required, Some("Bearer")),
        EntryOutcome::Reject(Rejection::MissingCredential)
    );
}

#[test]
fn required_valid_token_proceeds_with_identity() {
    let step = entry_step(AuthMode::Required, Some("Bearer tok123"));
    assert_eq!(step, EntryOutcome::Resolve("tok123".to_string()));
    let out = resolved_step(AuthMode::Required, Some(42));
    assert_eq!(out, InterceptOutcome::Proceed(resolved(42)));
}

#[test]
fn required_invalid_token_rejected() {
    let step = entry_step(AuthMode::Required, Some("Bearer expired"));
    assert_eq!(step, EntryOutcome::Resolve("expired".to_string()));
    let out = resolved_step(AuthMode::Required, None);
    assert_eq!(out, InterceptOutcome::Reject(Rejection::InvalidCredential));
}

#[test]
fn optional_mode_never_rejects() {
    assert_eq!(entry_step(AuthMode::Optional, None), EntryOutcome::Proceed(empty()));
    assert_eq!(entry_step(AuthMode::Optional, Some("Bearer")), EntryOutcome::Proceed(empty()));
    assert_eq!(entry_step(AuthMode::Optional, Some("nospace")), EntryOutcome::Proceed(empty()));
    let step = entry_step(AuthMode::Optional, Some("Bearer good"));
    assert_eq!(step, EntryOutcome::Resolve("good".to_string()));
    assert_eq!(resolved_step(AuthMode::Optional, Some(7)), InterceptOutcome::Proceed(resolved(7)));
    assert_eq!(resolved_step(AuthMode::Optional, None), InterceptOutcome::Proceed(empty()));
}

#[test]
fn optional_bad_token_same_as_absent() {
    let absent = resolved_step(AuthMode::Optional, None);
    assert_eq!(absent, InterceptOutcome::Proceed(empty()));
}

#[test]
fn resolving_same_token_twice_gives_equal_contexts() {
    let first = resolved_step(AuthMode::Required, Some(99));
    let second = resolved_step(AuthMode::Optional, Some(99));
    assert_eq!(first, second);
    assert_eq!(first, InterceptOutcome::Proceed(resolved(99)));
}

#[test]
fn extract_token_takes_second_piece() {
    assert_eq!(extract_token("Bearer abc"), Some("abc".to_string()));
    assert_eq!(extract_token("Bearer a b"), Some("a".to_string()));
}

#[test]
fn extract_token_requires_a_space() {
    assert_eq!(extract_token("Bearer"), None);
    assert_eq!(extract_token(""), None);
    assert_eq!(extract_token("justonetoken"), None);
}

#[test]
fn extract_token_trailing_space_gives_empty_token() {
    assert_eq!(extract_token("Bearer "), Some(String::new()));
}

#[test]
fn extract_token_double_space_gives_empty_token() {
    assert_eq!(extract_token("Bearer  abc"), Some(String::new()));
}

#[test]
fn extract_token_does_not_inspect_the_scheme() {
    assert_eq!(extract_token("Basic xyz"), Some("xyz".to_string()));
}

#[test]
fn intercept_composes_both_steps() {
    assert_eq!(
        intercept(AuthMode::Public, Some("Bearer tok"), Some(5)),
        InterceptOutcome::Proceed(empty())
    );
    assert_eq!(
        intercept(AuthMode::Required, None, Some(5)),
        InterceptOutcome::Reject(Rejection::MissingCredential)
    );
    assert_eq!(
        intercept(AuthMode::Required, Some("Bearer tok"), Some(5)),
        InterceptOutcome::Proceed(resolved(5))
    );
    assert_eq!(
        intercept(AuthMode::Required, Some("Bearer tok"), None),
        InterceptOutcome::Reject(Rejection::InvalidCredential)
    );
    assert_eq!(
        intercept(AuthMode::Optional, Some("Bearer tok"), None),
        InterceptOutcome::Proceed(empty())
    );
}

#[test]
fn rejection_reasons() {
    assert_eq!(Rejection::MissingCredential.reason(), "no/invalid bearer credential");
    assert_eq!(Rejection::InvalidCredential.reason(), "invalid credential");
}

#[test]
fn rejection_status_is_client_error() {
    assert_eq!(Rejection::MissingCredential.status(), 403);
    assert_eq!(Rejection::InvalidCredential.status(), 403);
}

#[test]
fn session_middleware_modes() {
    let mw = SessionMiddleware::new();
    assert!(!mw.auth_optional);
    assert_eq!(mw.mode(), AuthMode::Required);
    let opt = mw.opt_auth();
    assert!(opt.auth_optional);
    assert_eq!(opt.mode(), AuthMode::Optional);
    let strict = opt.auth();
    assert!(!strict.auth_optional);
    assert_eq!(strict.mode(), AuthMode::Required);
}
