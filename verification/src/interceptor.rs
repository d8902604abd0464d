//! The authentication interceptor: per request it extracts a bearer
//! credential from the `Authorization` header, hands it to an external
//! validator, and turns the validator's answer into either a populated
//! identity context or a rejection.
//!
//! The interceptor is a linear state machine: entry, credential
//! extraction, resolution. [`entry_step`] covers entry and extraction and
//! either finishes at once or asks the caller to resolve a token;
//! [`resolved_step`] finishes once the external validator has answered.
//! The caller (the web layer) performs the asynchronous validation call
//! between the two steps; every decision is taken here.

use vstd::prelude::*;

use crate::text::token_of;
use crate::text::extract_token;

verus! {

/// An opaque handle to an authenticated local-user record, owned by the
/// external validator. The gateway never looks inside it.
pub type IdentityId = u64;

/// The authentication requirement a route declares.
#[derive(Clone, Copy, PartialEq, Eq, Structural, Debug)]
pub enum AuthMode {
    /// The route is fully public: the interceptor attaches an empty
    /// context and never reads the header.
    Public,
    /// A credential is welcome but not demanded: a missing or invalid one
    /// leaves the context empty and never causes a rejection.
    Optional,
    /// A valid credential is demanded: anything less is rejected before
    /// the handler runs.
    Required,
}

/// The per-request value carrying either a resolved identity or its
/// explicit absence. Created empty, written exactly once by the
/// interceptor, read-only afterwards.
#[derive(Clone, Copy, PartialEq, Eq, Structural, Debug)]
pub struct IdentityContext {
    /// Whether an identity was resolved for this request.
    pub present: bool,
    /// The resolved identity handle; meaningful only when `present`.
    pub identity: IdentityId,
}

/// A context is well formed when absence carries no stale handle.
pub open spec fn ctx_wf(c: IdentityContext) -> bool {
    !c.present ==> c.identity == 0
}

/// The context of an anonymous request.
pub open spec fn spec_empty_context() -> IdentityContext {
    IdentityContext { present: false, identity: 0 }
}

/// The context of a request whose credential resolved to `id`.
pub open spec fn spec_resolved_context(id: IdentityId) -> IdentityContext {
    IdentityContext { present: true, identity: id }
}

impl IdentityContext {
    /// The empty context: no identity present.
    pub fn empty() -> (r: IdentityContext)
        ensures
            r == spec_empty_context(),
    {
        IdentityContext { present: false, identity: 0 }
    }

    /// The context carrying a resolved identity.
    pub fn resolved(id: IdentityId) -> (r: IdentityContext)
        ensures
            r == spec_resolved_context(id),
    {
        IdentityContext { present: true, identity: id }
    }
}

/// Why a request was rejected. Both variants answer with the same client
/// error class, so a caller learns nothing about which part failed.
#[derive(Clone, Copy, PartialEq, Eq, Structural, Debug)]
pub enum Rejection {
    /// No bearer credential could be extracted from the header.
    MissingCredential,
    /// A credential was extracted but did not resolve to an identity.
    InvalidCredential,
}

impl Rejection {
    /// The HTTP status class of every auth rejection.
    pub fn status(&self) -> (r: u16)
        ensures
            r == 403,
    {
        403
    }

    /// The short machine-readable reason attached to the rejection.
    pub fn reason(&self) -> (r: &'static str)
        ensures
            self is MissingCredential ==> r@ == "no/invalid bearer credential"@,
            self is InvalidCredential ==> r@ == "invalid credential"@,
    {
        match self {
            Rejection::MissingCredential => "no/invalid bearer credential",
            Rejection::InvalidCredential => "invalid credential",
        }
    }
}

/// What the entry and extraction states decide, at the spec level.
pub enum EntryStep {
    /// The request proceeds with this context; no validation is needed.
    Proceed(IdentityContext),
    /// The request is rejected before the handler runs.
    Reject(Rejection),
    /// A token was extracted; the caller must resolve these characters.
    Resolve(Seq<char>),
}

/// What the whole interception decides once validation (if any) is done.
#[derive(Clone, Copy, PartialEq, Eq, Structural, Debug)]
pub enum InterceptOutcome {
    /// The handler runs with this context attached.
    Proceed(IdentityContext),
    /// The handler never runs; the rejection is the response.
    Reject(Rejection),
}

/// The executable counterpart of [`EntryStep`]: the token travels as a
/// `String`.
#[derive(Clone, PartialEq, Eq, Debug)]
pub enum EntryOutcome {
    /// The request proceeds with this context; no validation is needed.
    Proceed(IdentityContext),
    /// The request is rejected before the handler runs.
    Reject(Rejection),
    /// A token was extracted; the caller must resolve it.
    Resolve(String),
}

impl View for EntryOutcome {
    type V = EntryStep;

    open spec fn view(&self) -> EntryStep {
        match self {
            EntryOutcome::Proceed(c) => EntryStep::Proceed(*c),
            EntryOutcome::Reject(r) => EntryStep::Reject(*r),
            EntryOutcome::Resolve(t) => EntryStep::Resolve(t@),
        }
    }
}

/// What extraction failure leads to: a rejection under `Required`, an
/// anonymous pass under `Optional`.
pub open spec fn spec_no_credential(mode: AuthMode) -> EntryStep {
    if mode is Required {
        EntryStep::Reject(Rejection::MissingCredential)
    } else {
        EntryStep::Proceed(spec_empty_context())
    }
}

/// The entry and extraction states. `header` is the `Authorization` header
/// value, absent when the request carries none (or none readable).
pub open spec fn entry_decision(mode: AuthMode, header: Option<Seq<char>>) -> EntryStep {
    if mode is Public {
        EntryStep::Proceed(spec_empty_context())
    } else {
        match header {
            Option::None => spec_no_credential(mode),
            Option::Some(h) => match token_of(h) {
                Option::None => spec_no_credential(mode),
                Option::Some(t) => EntryStep::Resolve(t),
            },
        }
    }
}

/// The resolution state. `resolved` is the external validator's answer
/// for the extracted token: an identity handle, or `None` for any failure.
pub open spec fn resolved_decision(mode: AuthMode, resolved: Option<IdentityId>) -> InterceptOutcome {
    match resolved {
        Option::Some(id) => InterceptOutcome::Proceed(spec_resolved_context(id)),
        Option::None => {
            if mode is Required {
                InterceptOutcome::Reject(Rejection::InvalidCredential)
            } else {
                InterceptOutcome::Proceed(spec_empty_context())
            }
        },
    }
}

/// The whole interception of one request: what it decides given the
/// header and, where a token was extracted, the validator's answer for
/// that token. When no token is extracted, `resolved` is irrelevant.
pub open spec fn intercept_decision(
    mode: AuthMode,
    header: Option<Seq<char>>,
    resolved: Option<IdentityId>,
) -> InterceptOutcome {
    match entry_decision(mode, header) {
        EntryStep::Proceed(c) => InterceptOutcome::Proceed(c),
        EntryStep::Reject(r) => InterceptOutcome::Reject(r),
        EntryStep::Resolve(_) => resolved_decision(mode, resolved),
    }
}

/// Runs the entry and extraction states of the interceptor. Either the
/// decision is final (`Proceed`/`Reject`) or the returned token must be
/// handed to the external validator and the answer to [`resolved_step`].
pub fn entry_step(mode: AuthMode, header: Option<&str>) -> (r: EntryOutcome)
    ensures
        r@ == entry_decision(mode, header.deep_view()),
{
    match mode {
        AuthMode::Public => EntryOutcome::Proceed(IdentityContext::empty()),
        _ => {
            match header {
                Option::None => no_credential(mode),
                Option::Some(h) => {
                    match extract_token(h) {
                        Option::None => no_credential(mode),
                        Option::Some(t) => EntryOutcome::Resolve(t),
                    }
                },
            }
        },
    }
}

/// The decision when no credential could be extracted.
fn no_credential(mode: AuthMode) -> (r: EntryOutcome)
    ensures
        r@ == spec_no_credential(mode),
{
    match mode {
        AuthMode::Required => EntryOutcome::Reject(Rejection::MissingCredential),
        _ => EntryOutcome::Proceed(IdentityContext::empty()),
    }
}

/// Runs the resolution state once the external validator has answered:
/// `Some(id)` when the token resolved to an identity, `None` for any
/// failure (expired, revoked, malformed, unknown, or a resolution error).
pub fn resolved_step(mode: AuthMode, resolved: Option<IdentityId>) -> (r: InterceptOutcome)
    ensures
        r == resolved_decision(mode, resolved),
{
    match resolved {
        Option::Some(id) => InterceptOutcome::Proceed(IdentityContext::resolved(id)),
        Option::None => {
            match mode {
                AuthMode::Required => InterceptOutcome::Reject(Rejection::InvalidCredential),
                _ => InterceptOutcome::Proceed(IdentityContext::empty()),
            }
        },
    }
}

/// The whole interception in one call, for a caller that has already
/// obtained the validator's answer for the extracted token: composes
/// [`entry_step`] with [`resolved_step`] exactly as a dispatcher does
/// around the asynchronous validation call.
pub fn intercept(mode: AuthMode, header: Option<&str>, resolved: Option<IdentityId>) -> (r:
    InterceptOutcome)
    ensures
        r == intercept_decision(mode, header.deep_view(), resolved),
{
    match entry_step(mode, header) {
        EntryOutcome::Proceed(ctx) => InterceptOutcome::Proceed(ctx),
        EntryOutcome::Reject(rej) => InterceptOutcome::Reject(rej),
        EntryOutcome::Resolve(_) => resolved_step(mode, resolved),
    }
}

/// Every context the interceptor can attach is well formed.
pub proof fn lemma_decision_ctx_wf(mode: AuthMode, header: Option<Seq<char>>, resolved: Option<IdentityId>)
    ensures
        match intercept_decision(mode, header, resolved) {
            InterceptOutcome::Proceed(c) => ctx_wf(c),
            InterceptOutcome::Reject(_) => true,
        },
{
}

/// On a fully public route the handler always runs, with an empty
/// identity context, whatever the header holds and whatever the
/// validator would have answered.
pub proof fn lemma_public_always_empty(header: Option<Seq<char>>, resolved: Option<IdentityId>)
    ensures
        intercept_decision(AuthMode::Public, header, resolved)
            == InterceptOutcome::Proceed(spec_empty_context()),
{
}

/// On a mandatory-auth route: a missing header is rejected, a header
/// without an extractable token is rejected, a token the validator
/// refuses is rejected, and a token that resolves to an identity lets
/// the handler run with exactly that identity.
pub proof fn lemma_required_gate(header: Option<Seq<char>>, resolved: Option<IdentityId>)
    ensures
        header is None ==> intercept_decision(AuthMode::Required, header, resolved)
            == InterceptOutcome::Reject(Rejection::MissingCredential),
        header is Some && token_of(header->0) is None
            ==> intercept_decision(AuthMode::Required, header, resolved)
                == InterceptOutcome::Reject(Rejection::MissingCredential),
        header is Some && token_of(header->0) is Some && resolved is None
            ==> intercept_decision(AuthMode::Required, header, resolved)
                == InterceptOutcome::Reject(Rejection::InvalidCredential),
        header is Some && token_of(header->0) is Some && resolved is Some
            ==> intercept_decision(AuthMode::Required, header, resolved)
                == InterceptOutcome::Proceed(spec_resolved_context(resolved->0)),
{
}

/// On an optional-auth route no header case is ever rejected: absence,
/// an unextractable token and a refused token all yield the empty
/// context, and a resolved token yields the populated context.
pub proof fn lemma_optional_never_rejects(header: Option<Seq<char>>, resolved: Option<IdentityId>)
    ensures
        intercept_decision(AuthMode::Optional, header, resolved) is Proceed,
        header is None || (header is Some && token_of(header->0) is None)
            ==> intercept_decision(AuthMode::Optional, header, resolved)
                == InterceptOutcome::Proceed(spec_empty_context()),
        header is Some && token_of(header->0) is Some && resolved is None
            ==> intercept_decision(AuthMode::Optional, header, resolved)
                == InterceptOutcome::Proceed(spec_empty_context()),
        header is Some && token_of(header->0) is Some && resolved is Some
            ==> intercept_decision(AuthMode::Optional, header, resolved)
                == InterceptOutcome::Proceed(spec_resolved_context(resolved->0)),
{
}

/// The interceptor's per-route configuration, as the web layer clones it
/// onto each guarded route: whether the route tolerates an absent or
/// invalid credential. The handle to the external validator stays with
/// the web layer; this value only fixes the decision mode.
#[derive(Clone, Copy, PartialEq, Eq, Structural, Debug)]
pub struct SessionMiddleware {
    /// Whether authentication is optional on the wrapped route.
    pub auth_optional: bool,
}

impl SessionMiddleware {
    /// The mode this configuration decides under: `Optional` when
    /// authentication is optional, `Required` otherwise. A fully public
    /// route is simply never wrapped.
    pub open spec fn spec_mode(&self) -> AuthMode {
        if self.auth_optional {
            AuthMode::Optional
        } else {
            AuthMode::Required
        }
    }

    /// A fresh configuration; it demands a credential until loosened.
    pub fn new() -> (r: SessionMiddleware)
        ensures
            !r.auth_optional,
            r.spec_mode() == AuthMode::Required,
    {
        SessionMiddleware { auth_optional: false }
    }

    /// A copy of this configuration that tolerates a missing or invalid
    /// credential.
    pub fn opt_auth(&self) -> (r: SessionMiddleware)
        ensures
            r.auth_optional,
            r.spec_mode() == AuthMode::Optional,
    {
        let mut no_auth = self.clone();
        no_auth.auth_optional = true;
        no_auth
    }

    /// A copy of this configuration that demands a valid credential.
    pub fn auth(&self) -> (r: SessionMiddleware)
        ensures
            !r.auth_optional,
            r.spec_mode() == AuthMode::Required,
    {
        let mut no_auth = self.clone();
        no_auth.auth_optional = false;
        no_auth
    }

    /// The mode this configuration decides under.
    pub fn mode(&self) -> (m: AuthMode)
        ensures
            m == self.spec_mode(),
    {
        if self.auth_optional {
            AuthMode::Optional
        } else {
            AuthMode::Required
        }
    }
}

/// Two separate requests whose credentials resolve to the same identity
/// handle receive equal — but distinct, request-scoped — contexts, each
/// carrying exactly that handle.
pub proof fn lemma_resolution_idempotent(
    mode_a: AuthMode,
    mode_b: AuthMode,
    header: Option<Seq<char>>,
    id: IdentityId,
)
    requires
        header is Some,
        token_of(header->0) is Some,
        mode_a is Optional || mode_a is Required,
        mode_b is Optional || mode_b is Required,
    ensures
        intercept_decision(mode_a, header, Option::Some(id))
            == intercept_decision(mode_b, header, Option::Some(id)),
        intercept_decision(mode_a, header, Option::Some(id))
            == InterceptOutcome::Proceed(spec_resolved_context(id)),
{
}

} // verus!
