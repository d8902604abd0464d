//! Tests for the route table: building, duplicate detection, override
//! precedence, lookup, and the declared API surface.

use request_gateway::api_routes::{api_route_table, api_scope_declarations};
use request_gateway::handlers::Handler;
use request_gateway::interceptor::{entry_step, AuthMode, EntryOutcome, IdentityContext, Rejection};
use request_gateway::table::{build_table, Method, RateClass, RouteDecl, ScopeDecl};

fn decl(subpath: &str, method: Method, auth: Option<AuthMode>, handler: Handler) -> RouteDecl {
    RouteDecl { subpath: subpath.to_string(), method, auth_override: auth, handler }
}

fn scope_of(
    prefix: &str,
    rate_class: RateClass,
    default_auth: AuthMode,
    routes: Vec<RouteDecl>,
) -> ScopeDecl {
    ScopeDecl { prefix: prefix.to_string(), rate_class, default_auth, routes }
}

#[test]
fn build_is_deterministic() {
    let first = build_table(&api_scope_declarations()).expect("the API surface builds");
    let second = build_table(&api_scope_declarations()).expect("the API surface builds");
    assert_eq!(first, second);
}

#[test]
fn duplicate_pair_with_conflicting_auth_fails_the_build() {
    let scopes = vec![
        scope_of("/thing", RateClass::Message, AuthMode::Required, vec![decl(
            "",
            Method::Get,
            None,
            Handler::GetSite,
        )]),
        scope_of("/thing", RateClass::Message, AuthMode::Optional, vec![decl(
            "",
            Method::Get,
            None,
            Handler::GetSite,
        )]),
    ];
    let err = build_table(&scopes).expect_err("a duplicate (path, method) pair must fail");
    assert_eq!(err.path, "/thing");
    assert_eq!(err.method, Method::Get);
}

#[test]
fn duplicate_identical_pair_also_fails_the_build() {
    let route = decl("/a", Method::Post, None, Handler::CreatePost);
    let scopes = vec![scope_of("/x", RateClass::Message, AuthMode::Required, vec![
        route.clone(),
        route,
    ])];
    assert!(build_table(&scopes).is_err());
}

#[test]
fn same_path_disjoint_methods_is_no_conflict() {
    let scopes = vec![
        scope_of("/r", RateClass::Posting, AuthMode::Required, vec![decl(
            "",
            Method::Post,
            None,
            Handler::CreatePost,
        )]),
        scope_of("/r", RateClass::Message, AuthMode::Required, vec![decl(
            "",
            Method::Get,
            None,
            Handler::GetPost,
        )]),
    ];
    let table = build_table(&scopes).expect("disjoint methods on one path are two entries");
    assert_eq!(table.entries().len(), 2);
}

#[test]
fn per_route_override_wins_over_scope_default() {
    let scopes = vec![scope_of("/s", RateClass::Message, AuthMode::Required, vec![
        decl("/read", Method::Get, Some(AuthMode::Optional), Handler::GetPost),
        decl("/open", Method::Get, Some(AuthMode::Public), Handler::GetSite),
        decl("/write", Method::Post, None, Handler::CreatePost),
    ])];
    let table = build_table(&scopes).unwrap();
    assert_eq!(table.lookup("/s/read", Method::Get).unwrap().auth_mode, AuthMode::Optional);
    assert_eq!(table.lookup("/s/open", Method::Get).unwrap().auth_mode, AuthMode::Public);
    assert_eq!(table.lookup("/s/write", Method::Post).unwrap().auth_mode, AuthMode::Required);
}

#[test]
fn empty_declarations_build_an_empty_table() {
    let table = build_table(&Vec::new()).unwrap();
    assert_eq!(table.len(), 0);
    assert!(table.lookup("/anything", Method::Get).is_none());
}

#[test]
fn api_surface_builds_without_conflicts() {
    let table = api_route_table().expect("the declared API surface has no duplicate pair");
    assert_eq!(table.len(), 87);
}

#[test]
fn community_get_is_optional_while_ban_user_requires_auth() {
    let table = api_route_table().unwrap();

    let read = table.lookup("/api/v3/community", Method::Get).unwrap();
    assert_eq!(read.auth_mode, AuthMode::Optional);
    assert_eq!(read.handler, Handler::GetCommunity);
    let outcome = entry_step(read.auth_mode, None);
    assert_eq!(
        outcome,
        EntryOutcome::Proceed(IdentityContext { present: false, identity: 0 })
    );

    let ban = table.lookup("/api/v3/community/ban_user", Method::Post).unwrap();
    assert_eq!(ban.auth_mode, AuthMode::Required);
    assert_eq!(ban.handler, Handler::BanFromCommunity);
    let outcome = entry_step(ban.auth_mode, None);
    assert_eq!(outcome, EntryOutcome::Reject(Rejection::MissingCredential));
}

#[test]
fn post_creation_uses_the_stricter_rate_class() {
    let table = api_route_table().unwrap();

    let create = table.lookup("/api/v3/post", Method::Post).unwrap();
    assert_eq!(create.rate_class, RateClass::Posting);
    assert_eq!(create.handler, Handler::CreatePost);

    let read = table.lookup("/api/v3/post", Method::Get).unwrap();
    assert_eq!(read.rate_class, RateClass::Message);
    assert_eq!(read.handler, Handler::GetPost);

    let update = table.lookup("/api/v3/post", Method::Put).unwrap();
    assert_eq!(update.rate_class, RateClass::Message);
    assert_eq!(update.handler, Handler::UpdatePost);
}

#[test]
fn comment_and_register_rate_classes() {
    let table = api_route_table().unwrap();
    assert_eq!(
        table.lookup("/api/v3/comment", Method::Post).unwrap().rate_class,
        RateClass::Comment
    );
    assert_eq!(
        table.lookup("/api/v3/user/register", Method::Post).unwrap().rate_class,
        RateClass::Register
    );
    assert_eq!(
        table.lookup("/api/v3/community", Method::Post).unwrap().rate_class,
        RateClass::Register
    );
    assert_eq!(
        table.lookup("/api/v3/user/get_captcha", Method::Get).unwrap().rate_class,
        RateClass::Posting
    );
}

#[test]
fn public_routes_of_the_surface() {
    let table = api_route_table().unwrap();
    for (path, method) in [
        ("/api/v3/user/login", Method::Post),
        ("/api/v3/user/register", Method::Post),
        ("/api/v3/user/password_reset", Method::Post),
        ("/api/v3/user/password_change", Method::Post),
        ("/api/v3/user/verify_email", Method::Post),
        ("/api/v3/federated_instances", Method::Get),
        ("/api/v3/post/site_metadata", Method::Get),
        ("/sitemap.xml", Method::Get),
    ] {
        let entry = table.lookup(path, method).unwrap();
        assert_eq!(entry.auth_mode, AuthMode::Public, "{path} should be public");
    }
}

#[test]
fn lookup_misses_unbound_pairs() {
    let table = api_route_table().unwrap();
    assert!(table.lookup("/api/v3/unknown", Method::Get).is_none());
    assert!(table.lookup("/api/v3/post", Method::Delete).is_none());
    assert!(table.lookup("/api/v3/community/ban_user", Method::Get).is_none());
}

#[test]
fn lookup_matches_whole_paths_only() {
    let table = api_route_table().unwrap();
    assert!(table.lookup("/api/v3/communities", Method::Get).is_none());
    assert!(table.lookup("/api/v3/post/", Method::Get).is_none());
    assert!(table.lookup("/api/v3", Method::Get).is_none());
    assert!(table.lookup("api/v3/post", Method::Get).is_none());
}

#[test]
fn admin_purge_routes_are_nested_and_guarded() {
    let table = api_route_table().unwrap();
    for sub in ["person", "community", "post", "comment"] {
        let path = format!("/api/v3/admin/purge/{sub}");
        let entry = table.lookup(&path, Method::Post).unwrap();
        assert_eq!(entry.auth_mode, AuthMode::Required);
        assert_eq!(entry.rate_class, RateClass::Message);
    }
}

#[test]
fn private_message_list_is_a_get_route() {
    let table = api_route_table().unwrap();
    let entry = table.lookup("/api/v3/private_message/list", Method::Get).unwrap();
    assert_eq!(entry.handler, Handler::GetPrivateMessage);
    assert_eq!(entry.auth_mode, AuthMode::Required);
}
