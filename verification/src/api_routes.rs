//! The declarative route surface of the gateway: every path, method,
//! rate-limit class and authentication mode the service exposes, rooted
//! at the versioned API prefix.
//!
//! This is configuration, not logic: the declarations are hand-authored
//! data, flattened and checked by [`crate::table::build_table`], which
//! fails fast on any (path, method) pair bound twice. A path that needs a
//! stricter rate-limit class for one method (creation via POST) appears
//! as a scope of its own with disjoint methods, not as a conflict.

use vstd::prelude::*;

use crate::handlers::Handler;
use crate::interceptor::AuthMode;
use crate::table::build_table;
use crate::table::ConfigError;
use crate::table::Method;
use crate::table::RateClass;
use crate::table::RouteDecl;
use crate::table::RouteDeclV;
use crate::table::RouteTable;
use crate::table::ScopeDecl;
use crate::table::ScopeDeclV;

verus! {

/// The spec-level route declaration with the given fields.
pub open spec fn route_v(
    subpath: Seq<char>,
    method: Method,
    auth_override: Option<AuthMode>,
    handler: Handler,
) -> RouteDeclV {
    RouteDeclV { subpath, method, auth_override, handler }
}

/// The spec-level scope declaration with the given fields.
pub open spec fn scope_v(
    prefix: Seq<char>,
    rate_class: RateClass,
    default_auth: AuthMode,
    routes: Seq<RouteDeclV>,
) -> ScopeDeclV {
    ScopeDeclV { prefix, rate_class, default_auth, routes }
}

/// One route declaration with the given fields.
fn route(subpath: &str, method: Method, auth_override: Option<AuthMode>, handler: Handler) -> (r:
    RouteDecl)
    ensures
        r.subpath@ == subpath@,
        r.method == method,
        r.auth_override == auth_override,
        r.handler == handler,
{
    RouteDecl { subpath: String::from_str(subpath), method, auth_override, handler }
}

/// One scope declaration with the given fields.
fn scope(prefix: &str, rate_class: RateClass, default_auth: AuthMode, routes: Vec<RouteDecl>) -> (r:
    ScopeDecl)
    ensures
        r.prefix@ == prefix@,
        r.rate_class == rate_class,
        r.default_auth == default_auth,
        r.routes == routes,
{
    ScopeDecl { prefix: String::from_str(prefix), rate_class, default_auth, routes }
}

/// The declared API surface at the spec level: what
/// [`api_scope_declarations`] promises to return, scope by scope.
pub open spec fn api_scopes_spec() -> Seq<ScopeDeclV> {
    seq![
        scope_v("/api/v3/site"@, RateClass::Message, AuthMode::Required, seq![
            route_v(""@, Method::Get, Some(AuthMode::Optional), Handler::GetSite),
            route_v(""@, Method::Post, None, Handler::CreateSite),
            route_v(""@, Method::Put, None, Handler::UpdateSite),
        ]),
        scope_v("/api/v3/modlog"@, RateClass::Message, AuthMode::Optional, seq![
            route_v(""@, Method::Get, None, Handler::GetModLog),
        ]),
        scope_v("/api/v3/search"@, RateClass::Search, AuthMode::Optional, seq![
            route_v(""@, Method::Get, None, Handler::Search),
        ]),
        scope_v("/api/v3/resolve_object"@, RateClass::Message, AuthMode::Optional, seq![
            route_v(""@, Method::Get, None, Handler::ResolveObject),
        ]),
        scope_v("/api/v3/community"@, RateClass::Register, AuthMode::Required, seq![
            route_v(""@, Method::Post, None, Handler::CreateCommunity),
        ]),
        scope_v("/api/v3/community"@, RateClass::Message, AuthMode::Required, seq![
            route_v(""@, Method::Get, Some(AuthMode::Optional), Handler::GetCommunity),
            route_v(""@, Method::Put, None, Handler::UpdateCommunity),
            route_v("/hide"@, Method::Put, None, Handler::HideCommunity),
            route_v("/list"@, Method::Get, None, Handler::ListCommunities),
            route_v("/follow"@, Method::Post, None, Handler::FollowCommunity),
            route_v("/block"@, Method::Post, None, Handler::BlockCommunity),
            route_v("/delete"@, Method::Post, None, Handler::DeleteCommunity),
            route_v("/remove"@, Method::Post, None, Handler::RemoveCommunity),
            route_v("/transfer"@, Method::Post, None, Handler::TransferCommunity),
            route_v("/ban_user"@, Method::Post, None, Handler::BanFromCommunity),
            route_v("/mod"@, Method::Post, None, Handler::AddModToCommunity),
        ]),
        scope_v("/api/v3/federated_instances"@, RateClass::Message, AuthMode::Public, seq![
            route_v(""@, Method::Get, None, Handler::GetFederatedInstances),
        ]),
        scope_v("/api/v3/post"@, RateClass::Posting, AuthMode::Required, seq![
            route_v(""@, Method::Post, None, Handler::CreatePost),
        ]),
        scope_v("/api/v3/post"@, RateClass::Message, AuthMode::Required, seq![
            route_v(""@, Method::Get, Some(AuthMode::Optional), Handler::GetPost),
            route_v(""@, Method::Put, None, Handler::UpdatePost),
            route_v("/delete"@, Method::Post, None, Handler::DeletePost),
            route_v("/remove"@, Method::Post, None, Handler::RemovePost),
            route_v("/mark_as_read"@, Method::Post, None, Handler::MarkPostAsRead),
            route_v("/lock"@, Method::Post, None, Handler::LockPost),
            route_v("/feature"@, Method::Post, None, Handler::FeaturePost),
            route_v("/list"@, Method::Get, Some(AuthMode::Optional), Handler::ListPosts),
            route_v("/like"@, Method::Post, None, Handler::LikePost),
            route_v("/save"@, Method::Put, None, Handler::SavePost),
            route_v("/report"@, Method::Post, None, Handler::CreatePostReport),
            route_v("/report/resolve"@, Method::Put, None, Handler::ResolvePostReport),
            route_v("/report/list"@, Method::Get, None, Handler::ListPostReports),
            route_v("/site_metadata"@, Method::Get, Some(AuthMode::Public), Handler::GetLinkMetadata),
        ]),
        scope_v("/api/v3/comment"@, RateClass::Comment, AuthMode::Required, seq![
            route_v(""@, Method::Post, None, Handler::CreateComment),
        ]),
        scope_v("/api/v3/comment"@, RateClass::Message, AuthMode::Required, seq![
            route_v(""@, Method::Get, Some(AuthMode::Optional), Handler::GetComment),
            route_v(""@, Method::Put, None, Handler::UpdateComment),
            route_v("/delete"@, Method::Post, None, Handler::DeleteComment),
            route_v("/remove"@, Method::Post, None, Handler::RemoveComment),
            route_v("/mark_as_read"@, Method::Post, None, Handler::MarkReplyAsRead),
            route_v("/distinguish"@, Method::Post, None, Handler::DistinguishComment),
            route_v("/like"@, Method::Post, None, Handler::LikeComment),
            route_v("/save"@, Method::Put, None, Handler::SaveComment),
            route_v("/list"@, Method::Get, Some(AuthMode::Optional), Handler::ListComments),
            route_v("/report"@, Method::Post, None, Handler::CreateCommentReport),
            route_v("/report/resolve"@, Method::Put, None, Handler::ResolveCommentReport),
            route_v("/report/list"@, Method::Get, None, Handler::ListCommentReports),
        ]),
        scope_v("/api/v3/private_message"@, RateClass::Message, AuthMode::Required, seq![
            route_v("/list"@, Method::Get, None, Handler::GetPrivateMessage),
            route_v(""@, Method::Post, None, Handler::CreatePrivateMessage),
            route_v(""@, Method::Put, None, Handler::UpdatePrivateMessage),
            route_v("/delete"@, Method::Post, None, Handler::DeletePrivateMessage),
            route_v("/mark_as_read"@, Method::Post, None, Handler::MarkPmAsRead),
            route_v("/report"@, Method::Post, None, Handler::CreatePmReport),
            route_v("/report/resolve"@, Method::Put, None, Handler::ResolvePmReport),
            route_v("/report/list"@, Method::Get, None, Handler::ListPmReports),
        ]),
        scope_v("/api/v3/user/register"@, RateClass::Register, AuthMode::Public, seq![
            route_v(""@, Method::Post, None, Handler::Register),
        ]),
        scope_v("/api/v3/user/get_captcha"@, RateClass::Posting, AuthMode::Public, seq![
            route_v(""@, Method::Get, None, Handler::GetCaptcha),
        ]),
        scope_v("/api/v3/user"@, RateClass::Message, AuthMode::Required, seq![
            route_v(""@, Method::Get, Some(AuthMode::Optional), Handler::ReadPerson),
            route_v("/mention"@, Method::Get, None, Handler::ListMentions),
            route_v("/mention/mark_as_read"@, Method::Post, None, Handler::MarkPersonMentionAsRead),
            route_v("/replies"@, Method::Get, None, Handler::ListReplies),
            route_v("/ban"@, Method::Post, None, Handler::BanFromSite),
            route_v("/banned"@, Method::Get, None, Handler::ListBannedUsers),
            route_v("/block"@, Method::Post, None, Handler::BlockPerson),
            route_v("/login"@, Method::Post, Some(AuthMode::Public), Handler::Login),
            route_v("/delete_account"@, Method::Post, None, Handler::DeleteAccount),
            route_v("/password_reset"@, Method::Post, Some(AuthMode::Public), Handler::ResetPassword),
            route_v(
                "/password_change"@,
                Method::Post,
                Some(AuthMode::Public),
                Handler::ChangePasswordAfterReset,
            ),
            route_v("/mark_all_as_read"@, Method::Post, None, Handler::MarkAllNotificationsRead),
            route_v("/save_user_settings"@, Method::Put, None, Handler::SaveUserSettings),
            route_v("/change_password"@, Method::Put, None, Handler::ChangePassword),
            route_v("/report_count"@, Method::Get, None, Handler::ReportCount),
            route_v("/unread_count"@, Method::Get, None, Handler::UnreadCount),
            route_v("/verify_email"@, Method::Post, Some(AuthMode::Public), Handler::VerifyEmail),
            route_v("/leave_admin"@, Method::Post, None, Handler::LeaveAdmin),
        ]),
        scope_v("/api/v3/admin"@, RateClass::Message, AuthMode::Required, seq![
            route_v("/add"@, Method::Post, None, Handler::AddAdmin),
            route_v(
                "/registration_application/count"@,
                Method::Get,
                None,
                Handler::GetUnreadRegistrationApplicationCount,
            ),
            route_v(
                "/registration_application/list"@,
                Method::Get,
                None,
                Handler::ListRegistrationApplications,
            ),
            route_v(
                "/registration_application/approve"@,
                Method::Put,
                None,
                Handler::ApproveRegistrationApplication,
            ),
            route_v("/purge/person"@, Method::Post, None, Handler::PurgePerson),
            route_v("/purge/community"@, Method::Post, None, Handler::PurgeCommunity),
            route_v("/purge/post"@, Method::Post, None, Handler::PurgePost),
            route_v("/purge/comment"@, Method::Post, None, Handler::PurgeComment),
        ]),
        scope_v("/api/v3/custom_emoji"@, RateClass::Message, AuthMode::Required, seq![
            route_v(""@, Method::Post, None, Handler::CreateCustomEmoji),
            route_v(""@, Method::Put, None, Handler::UpdateCustomEmoji),
            route_v("/delete"@, Method::Post, None, Handler::DeleteCustomEmoji),
        ]),
        scope_v("/sitemap.xml"@, RateClass::Message, AuthMode::Public, seq![
            route_v(""@, Method::Get, None, Handler::GetSitemap),
        ]),
    ]
}

/// The full, hand-authored scope declarations of the service: site,
/// community, post, comment, private-message, user, admin and
/// custom-emoji resources under the versioned prefix, plus the sitemap.
/// Creation POSTs on a collection root stand in a scope of their own so
/// that a stricter rate-limit class governs them than the other verbs on
/// the same path.
#[verifier::rlimit(60)]
pub fn api_scope_declarations() -> (r: Vec<ScopeDecl>)
    ensures
        r.deep_view() == api_scopes_spec(),
{
    let mut scopes: Vec<ScopeDecl> = Vec::new();
    scopes.push(scope("/api/v3/site", RateClass::Message, AuthMode::Required, vec![
        route("", Method::Get, Some(AuthMode::Optional), Handler::GetSite),
        route("", Method::Post, None, Handler::CreateSite),
        route("", Method::Put, None, Handler::UpdateSite),
    ]));
    scopes.push(scope("/api/v3/modlog", RateClass::Message, AuthMode::Optional, vec![
        route("", Method::Get, None, Handler::GetModLog),
    ]));
    scopes.push(scope("/api/v3/search", RateClass::Search, AuthMode::Optional, vec![
        route("", Method::Get, None, Handler::Search),
    ]));
    scopes.push(scope("/api/v3/resolve_object", RateClass::Message, AuthMode::Optional, vec![
        route("", Method::Get, None, Handler::ResolveObject),
    ]));
    scopes.push(scope("/api/v3/community", RateClass::Register, AuthMode::Required, vec![
        route("", Method::Post, None, Handler::CreateCommunity),
    ]));
    scopes.push(scope("/api/v3/community", RateClass::Message, AuthMode::Required, vec![
        route("", Method::Get, Some(AuthMode::Optional), Handler::GetCommunity),
        route("", Method::Put, None, Handler::UpdateCommunity),
        route("/hide", Method::Put, None, Handler::HideCommunity),
        route("/list", Method::Get, None, Handler::ListCommunities),
        route("/follow", Method::Post, None, Handler::FollowCommunity),
        route("/block", Method::Post, None, Handler::BlockCommunity),
        route("/delete", Method::Post, None, Handler::DeleteCommunity),
        route("/remove", Method::Post, None, Handler::RemoveCommunity),
        route("/transfer", Method::Post, None, Handler::TransferCommunity),
        route("/ban_user", Method::Post, None, Handler::BanFromCommunity),
        route("/mod", Method::Post, None, Handler::AddModToCommunity),
    ]));
    scopes.push(scope("/api/v3/federated_instances", RateClass::Message, AuthMode::Public, vec![
        route("", Method::Get, None, Handler::GetFederatedInstances),
    ]));
    scopes.push(scope("/api/v3/post", RateClass::Posting, AuthMode::Required, vec![
        route("", Method::Post, None, Handler::CreatePost),
    ]));
    scopes.push(scope("/api/v3/post", RateClass::Message, AuthMode::Required, vec![
        route("", Method::Get, Some(AuthMode::Optional), Handler::GetPost),
        route("", Method::Put, None, Handler::UpdatePost),
        route("/delete", Method::Post, None, Handler::DeletePost),
        route("/remove", Method::Post, None, Handler::RemovePost),
        route("/mark_as_read", Method::Post, None, Handler::MarkPostAsRead),
        route("/lock", Method::Post, None, Handler::LockPost),
        route("/feature", Method::Post, None, Handler::FeaturePost),
        route("/list", Method::Get, Some(AuthMode::Optional), Handler::ListPosts),
        route("/like", Method::Post, None, Handler::LikePost),
        route("/save", Method::Put, None, Handler::SavePost),
        route("/report", Method::Post, None, Handler::CreatePostReport),
        route("/report/resolve", Method::Put, None, Handler::ResolvePostReport),
        route("/report/list", Method::Get, None, Handler::ListPostReports),
        route("/site_metadata", Method::Get, Some(AuthMode::Public), Handler::GetLinkMetadata),
    ]));
    scopes.push(scope("/api/v3/comment", RateClass::Comment, AuthMode::Required, vec![
        route("", Method::Post, None, Handler::CreateComment),
    ]));
    scopes.push(scope("/api/v3/comment", RateClass::Message, AuthMode::Required, vec![
        route("", Method::Get, Some(AuthMode::Optional), Handler::GetComment),
        route("", Method::Put, None, Handler::UpdateComment),
        route("/delete", Method::Post, None, Handler::DeleteComment),
        route("/remove", Method::Post, None, Handler::RemoveComment),
        route("/mark_as_read", Method::Post, None, Handler::MarkReplyAsRead),
        route("/distinguish", Method::Post, None, Handler::DistinguishComment),
        route("/like", Method::Post, None, Handler::LikeComment),
        route("/save", Method::Put, None, Handler::SaveComment),
        route("/list", Method::Get, Some(AuthMode::Optional), Handler::ListComments),
        route("/report", Method::Post, None, Handler::CreateCommentReport),
        route("/report/resolve", Method::Put, None, Handler::ResolveCommentReport),
        route("/report/list", Method::Get, None, Handler::ListCommentReports),
    ]));
    scopes.push(scope("/api/v3/private_message", RateClass::Message, AuthMode::Required, vec![
        route("/list", Method::Get, None, Handler::GetPrivateMessage),
        route("", Method::Post, None, Handler::CreatePrivateMessage),
        route("", Method::Put, None, Handler::UpdatePrivateMessage),
        route("/delete", Method::Post, None, Handler::DeletePrivateMessage),
        route("/mark_as_read", Method::Post, None, Handler::MarkPmAsRead),
        route("/report", Method::Post, None, Handler::CreatePmReport),
        route("/report/resolve", Method::Put, None, Handler::ResolvePmReport),
        route("/report/list", Method::Get, None, Handler::ListPmReports),
    ]));
    scopes.push(scope("/api/v3/user/register", RateClass::Register, AuthMode::Public, vec![
        route("", Method::Post, None, Handler::Register),
    ]));
    scopes.push(scope("/api/v3/user/get_captcha", RateClass::Posting, AuthMode::Public, vec![
        route("", Method::Get, None, Handler::GetCaptcha),
    ]));
    scopes.push(scope("/api/v3/user", RateClass::Message, AuthMode::Required, vec![
        route("", Method::Get, Some(AuthMode::Optional), Handler::ReadPerson),
        route("/mention", Method::Get, None, Handler::ListMentions),
        route("/mention/mark_as_read", Method::Post, None, Handler::MarkPersonMentionAsRead),
        route("/replies", Method::Get, None, Handler::ListReplies),
        route("/ban", Method::Post, None, Handler::BanFromSite),
        route("/banned", Method::Get, None, Handler::ListBannedUsers),
        route("/block", Method::Post, None, Handler::BlockPerson),
        route("/login", Method::Post, Some(AuthMode::Public), Handler::Login),
        route("/delete_account", Method::Post, None, Handler::DeleteAccount),
        route("/password_reset", Method::Post, Some(AuthMode::Public), Handler::ResetPassword),
        route(
            "/password_change",
            Method::Post,
            Some(AuthMode::Public),
            Handler::ChangePasswordAfterReset,
        ),
        route("/mark_all_as_read", Method::Post, None, Handler::MarkAllNotificationsRead),
        route("/save_user_settings", Method::Put, None, Handler::SaveUserSettings),
        route("/change_password", Method::Put, None, Handler::ChangePassword),
        route("/report_count", Method::Get, None, Handler::ReportCount),
        route("/unread_count", Method::Get, None, Handler::UnreadCount),
        route("/verify_email", Method::Post, Some(AuthMode::Public), Handler::VerifyEmail),
        route("/leave_admin", Method::Post, None, Handler::LeaveAdmin),
    ]));
    scopes.push(scope("/api/v3/admin", RateClass::Message, AuthMode::Required, vec![
        route("/add", Method::Post, None, Handler::AddAdmin),
        route(
            "/registration_application/count",
            Method::Get,
            None,
            Handler::GetUnreadRegistrationApplicationCount,
        ),
        route(
            "/registration_application/list",
            Method::Get,
            None,
            Handler::ListRegistrationApplications,
        ),
        route(
            "/registration_application/approve",
            Method::Put,
            None,
            Handler::ApproveRegistrationApplication,
        ),
        route("/purge/person", Method::Post, None, Handler::PurgePerson),
        route("/purge/community", Method::Post, None, Handler::PurgeCommunity),
        route("/purge/post", Method::Post, None, Handler::PurgePost),
        route("/purge/comment", Method::Post, None, Handler::PurgeComment),
    ]));
    scopes.push(scope("/api/v3/custom_emoji", RateClass::Message, AuthMode::Required, vec![
        route("", Method::Post, None, Handler::CreateCustomEmoji),
        route("", Method::Put, None, Handler::UpdateCustomEmoji),
        route("/delete", Method::Post, None, Handler::DeleteCustomEmoji),
    ]));
    scopes.push(scope("/sitemap.xml", RateClass::Message, AuthMode::Public, vec![
        route("", Method::Get, None, Handler::GetSitemap),
    ]));
    proof {
        assert(scopes.deep_view() =~~= api_scopes_spec());
    }
    scopes
}

/// Builds the full route table from [`api_scope_declarations`]. An error
/// means the declarations bind some (path, method) pair twice; the
/// process must not start on it.
pub fn api_route_table() -> (r: Result<RouteTable, ConfigError>)
    ensures
        match r {
            Ok(t) => t@ == crate::table::flat_entries(api_scopes_spec()) && t.wf(),
            Err(e) => !crate::table::conflict_free(
                crate::table::flat_entries(api_scopes_spec()),
            ),
        },
{
    let scopes = api_scope_declarations();
    build_table(&scopes)
}

} // verus!
