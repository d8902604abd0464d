//! The route table: scope declarations, their flattening into route
//! entries, duplicate detection, and the (path, method) lookup the
//! dispatcher uses.
//!
//! A scope declares a path prefix, the rate-limit class all its routes
//! share, and a default authentication mode; each route under it may
//! override that mode. Building flattens the scopes into one list of
//! entries and fails fast on a duplicate (path, method) pair, so a built
//! table matches at most one entry per request.

use vstd::prelude::*;

use crate::handlers::Handler;
use crate::interceptor::AuthMode;
use crate::text::str_eq;

verus! {

/// An HTTP method, as far as the gateway distinguishes them.
#[derive(Clone, Copy, PartialEq, Eq, Structural, Debug)]
pub enum Method {
    Get,
    Post,
    Put,
    Delete,
}

/// The external rate-limit counter bucket a route is governed by.
#[derive(Clone, Copy, PartialEq, Eq, Structural, Debug)]
pub enum RateClass {
    Message,
    Search,
    Register,
    Posting,
    Comment,
}

/// One route inside a scope: a path relative to the scope's prefix
/// (empty for the scope root), a method, and an optional authentication
/// override. `None` inherits the scope's default mode.
#[derive(Clone, PartialEq, Eq, Debug)]
pub struct RouteDecl {
    pub subpath: String,
    pub method: Method,
    pub auth_override: Option<AuthMode>,
    pub handler: Handler,
}

/// The spec-level image of a [`RouteDecl`].
#[verifier::ext_equal]
pub struct RouteDeclV {
    pub subpath: Seq<char>,
    pub method: Method,
    pub auth_override: Option<AuthMode>,
    pub handler: Handler,
}

impl DeepView for RouteDecl {
    type V = RouteDeclV;

    open spec fn deep_view(&self) -> RouteDeclV {
        RouteDeclV {
            subpath: self.subpath@,
            method: self.method,
            auth_override: self.auth_override,
            handler: self.handler,
        }
    }
}

/// A scope: a path prefix shared by a group of routes, the rate-limit
/// class that governs all of them, and the authentication mode a route
/// gets when it declares no override of its own.
#[derive(Clone, PartialEq, Eq, Debug)]
pub struct ScopeDecl {
    pub prefix: String,
    pub rate_class: RateClass,
    pub default_auth: AuthMode,
    pub routes: Vec<RouteDecl>,
}

/// The spec-level image of a [`ScopeDecl`].
#[verifier::ext_equal]
pub struct ScopeDeclV {
    pub prefix: Seq<char>,
    pub rate_class: RateClass,
    pub default_auth: AuthMode,
    pub routes: Seq<RouteDeclV>,
}

impl DeepView for ScopeDecl {
    type V = ScopeDeclV;

    open spec fn deep_view(&self) -> ScopeDeclV {
        ScopeDeclV {
            prefix: self.prefix@,
            rate_class: self.rate_class,
            default_auth: self.default_auth,
            routes: self.routes.deep_view(),
        }
    }
}

/// One flattened entry of the built table: the full path, the method,
/// and the policies and handler bound to the pair.
#[derive(Clone, PartialEq, Eq, Debug)]
pub struct RouteEntry {
    pub path: String,
    pub method: Method,
    pub auth_mode: AuthMode,
    pub rate_class: RateClass,
    pub handler: Handler,
}

/// The spec-level image of a [`RouteEntry`].
#[verifier::ext_equal]
pub struct RouteEntryV {
    pub path: Seq<char>,
    pub method: Method,
    pub auth_mode: AuthMode,
    pub rate_class: RateClass,
    pub handler: Handler,
}

impl View for RouteEntry {
    type V = RouteEntryV;

    open spec fn view(&self) -> RouteEntryV {
        RouteEntryV {
            path: self.path@,
            method: self.method,
            auth_mode: self.auth_mode,
            rate_class: self.rate_class,
            handler: self.handler,
        }
    }
}

impl DeepView for RouteEntry {
    type V = RouteEntryV;

    open spec fn deep_view(&self) -> RouteEntryV {
        self.view()
    }
}

/// The mode a route is served under: its own override when it declares
/// one, the scope's default otherwise.
pub open spec fn effective_auth(scope_default: AuthMode, over: Option<AuthMode>) -> AuthMode {
    match over {
        Option::Some(m) => m,
        Option::None => scope_default,
    }
}

/// The entry a route declaration flattens to within its scope.
pub open spec fn entry_of(s: ScopeDeclV, r: RouteDeclV) -> RouteEntryV {
    RouteEntryV {
        path: s.prefix + r.subpath,
        method: r.method,
        auth_mode: effective_auth(s.default_auth, r.auth_override),
        rate_class: s.rate_class,
        handler: r.handler,
    }
}

/// All entries of one scope, in declaration order.
pub open spec fn scope_entries(s: ScopeDeclV) -> Seq<RouteEntryV> {
    Seq::new(s.routes.len(), |i: int| entry_of(s, s.routes[i]))
}

/// All entries of a list of scopes, scope by scope, in order.
pub open spec fn flat_entries(scopes: Seq<ScopeDeclV>) -> Seq<RouteEntryV>
    decreases scopes.len(),
{
    if scopes.len() == 0 {
        Seq::empty()
    } else {
        flat_entries(scopes.drop_last()) + scope_entries(scopes.last())
    }
}

/// Two entries claim the same (path, method) pair.
pub open spec fn same_key(a: RouteEntryV, b: RouteEntryV) -> bool {
    a.path == b.path && a.method == b.method
}

/// No two entries claim the same (path, method) pair.
pub open spec fn conflict_free(entries: Seq<RouteEntryV>) -> bool {
    forall|i: int, j: int|
        0 <= i < j < entries.len() ==> !same_key(entries[i], entries[j])
}

/// Some pair of entries collides, and the later one binds exactly this
/// (path, method) pair.
pub open spec fn duplicate_at(entries: Seq<RouteEntryV>, path: Seq<char>, m: Method) -> bool {
    exists|i: int, j: int|
        0 <= i < j < entries.len() && #[trigger] same_key(entries[i], entries[j])
            && entries[j].path == path && entries[j].method == m
}

/// Flattening one more scope appends exactly that scope's entries.
proof fn lemma_flat_take_succ(s: Seq<ScopeDeclV>, i: int)
    requires
        0 <= i < s.len(),
    ensures
        flat_entries(s.take(i + 1)) == flat_entries(s.take(i)) + scope_entries(s[i]),
{
    let t = s.take(i + 1);
    assert(t.drop_last() =~= s.take(i));
    assert(t.last() == s[i]);
}

/// A build-time configuration error: the flattened declarations bind the
/// same (path, method) pair twice.
#[derive(Clone, PartialEq, Eq, Debug)]
pub struct ConfigError {
    /// The path bound twice.
    pub path: String,
    /// The method bound twice on that path.
    pub method: Method,
}

/// The immutable mapping from (path, method) to route entry. Built once
/// at startup; thereafter only read.
#[derive(Clone, PartialEq, Eq, Debug)]
pub struct RouteTable {
    entries: Vec<RouteEntry>,
}

impl View for RouteTable {
    type V = Seq<RouteEntryV>;

    closed spec fn view(&self) -> Seq<RouteEntryV> {
        self.entries.deep_view()
    }
}

/// The first entry at or after `from` that matches the pair, if any.
pub open spec fn spec_lookup_from(
    entries: Seq<RouteEntryV>,
    path: Seq<char>,
    m: Method,
    from: int,
) -> Option<RouteEntryV>
    decreases entries.len() - from,
{
    if from < 0 || from >= entries.len() {
        Option::None
    } else if entries[from].path == path && entries[from].method == m {
        Option::Some(entries[from])
    } else {
        spec_lookup_from(entries, path, m, from + 1)
    }
}

/// The entry matching the pair, if any.
pub open spec fn spec_lookup(entries: Seq<RouteEntryV>, path: Seq<char>, m: Method) -> Option<
    RouteEntryV,
> {
    spec_lookup_from(entries, path, m, 0)
}

/// What `spec_lookup_from` finds: a matching entry of the list, or none
/// matches at or after `from`.
proof fn lemma_lookup_from_characterization(
    entries: Seq<RouteEntryV>,
    path: Seq<char>,
    m: Method,
    from: int,
)
    requires
        0 <= from,
    ensures
        match spec_lookup_from(entries, path, m, from) {
            Option::Some(e) => exists|i: int|
                from <= i < entries.len() && entries[i] == e && e.path == path && e.method == m,
            Option::None => forall|i: int|
                from <= i < entries.len() ==> !(entries[i].path == path && entries[i].method == m),
        },
    decreases entries.len() - from,
{
    if from >= entries.len() {
    } else if entries[from].path == path && entries[from].method == m {
        assert(from <= from < entries.len() && entries[from] == entries[from]);
    } else {
        lemma_lookup_from_characterization(entries, path, m, from + 1);
    }
}

/// A lookup answer is an entry of the table matching the pair; `None`
/// means no entry matches.
pub proof fn lemma_lookup_characterization(entries: Seq<RouteEntryV>, path: Seq<char>, m: Method)
    ensures
        match spec_lookup(entries, path, m) {
            Option::Some(e) => exists|i: int|
                0 <= i < entries.len() && entries[i] == e && e.path == path && e.method == m,
            Option::None => forall|i: int|
                0 <= i < entries.len() ==> !(entries[i].path == path && entries[i].method == m),
        },
{
    lemma_lookup_from_characterization(entries, path, m, 0);
}

/// In a conflict-free table at most one entry matches a pair: any two
/// matching indices are the same index.
pub proof fn lemma_conflict_free_unique_match(
    entries: Seq<RouteEntryV>,
    path: Seq<char>,
    m: Method,
    i: int,
    j: int,
)
    requires
        conflict_free(entries),
        0 <= i < entries.len(),
        0 <= j < entries.len(),
        entries[i].path == path && entries[i].method == m,
        entries[j].path == path && entries[j].method == m,
    ensures
        i == j,
{
    if i < j {
        assert(same_key(entries[i], entries[j]));
    } else if j < i {
        assert(same_key(entries[j], entries[i]));
    }
}

/// Flattening is a function of the declarations alone: equal declaration
/// lists flatten to equal entry lists with the same build verdict, so
/// building twice from the same declarations yields identical tables.
pub proof fn lemma_build_deterministic(a: Seq<ScopeDeclV>, b: Seq<ScopeDeclV>)
    requires
        a == b,
    ensures
        flat_entries(a) == flat_entries(b),
        conflict_free(flat_entries(a)) <==> conflict_free(flat_entries(b)),
{
}

/// Flattens the scope declarations into one entry per declared route.
fn flatten_scopes(scopes: &Vec<ScopeDecl>) -> (r: Vec<RouteEntry>)
    ensures
        r.deep_view() == flat_entries(scopes.deep_view()),
{
    let ghost sv = scopes.deep_view();
    let mut entries: Vec<RouteEntry> = Vec::new();
    assert(entries.deep_view() =~= flat_entries(sv.take(0)));
    let mut si: usize = 0;
    while si < scopes.len()
        invariant
            si <= scopes.len(),
            sv == scopes.deep_view(),
            entries.deep_view() == flat_entries(sv.take(si as int)),
        decreases scopes.len() - si,
    {
        let scope = &scopes[si];
        let ghost scv = sv[si as int];
        let ghost before = entries.deep_view();
        let mut ri: usize = 0;
        assert(scope_entries(scv).take(0) =~= Seq::<RouteEntryV>::empty());
        assert(entries.deep_view() =~= before + scope_entries(scv).take(0));
        while ri < scope.routes.len()
            invariant
                ri <= scope.routes.len(),
                sv == scopes.deep_view(),
                si < scopes.len(),
                scope == scopes@[si as int],
                scv == sv[si as int],
                before == flat_entries(sv.take(si as int)),
                entries.deep_view() == before + scope_entries(scv).take(ri as int),
            decreases scope.routes.len() - ri,
        {
            let rd = &scope.routes[ri];
            let mut path = scope.prefix.clone();
            path.append(rd.subpath.as_str());
            let auth = match rd.auth_override {
                Option::Some(m) => m,
                Option::None => scope.default_auth,
            };
            let entry = RouteEntry {
                path,
                method: rd.method,
                auth_mode: auth,
                rate_class: scope.rate_class,
                handler: rd.handler,
            };
            proof {
                assert(entry.deep_view() == entry_of(scv, scv.routes[ri as int]));
            }
            let ghost prev = entries.deep_view();
            entries.push(entry);
            proof {
                assert(entries.deep_view() =~= prev.push(entry.deep_view()));
                assert(scope_entries(scv).take(ri + 1) =~= scope_entries(scv).take(ri as int).push(
                    entry_of(scv, scv.routes[ri as int]),
                ));
                assert(entries.deep_view() =~= before + scope_entries(scv).take(ri + 1));
            }
            ri += 1;
        }
        proof {
            assert(scope_entries(scv).take(ri as int) =~= scope_entries(scv));
            lemma_flat_take_succ(sv, si as int);
            assert(entries.deep_view() =~= flat_entries(sv.take(si + 1)));
        }
        si += 1;
    }
    proof {
        assert(sv.take(sv.len() as int) =~= sv);
    }
    entries
}

/// Builds the route table from the scope declarations: flattens them and
/// verifies that no (path, method) pair is bound twice. A duplicate pair
/// is a configuration error naming the pair, never a table that silently
/// picks one of the bindings.
pub fn build_table(scopes: &Vec<ScopeDecl>) -> (r: Result<RouteTable, ConfigError>)
    ensures
        match r {
            Ok(t) => t@ == flat_entries(scopes.deep_view()) && conflict_free(t@),
            Err(e) => {
                &&& !conflict_free(flat_entries(scopes.deep_view()))
                &&& duplicate_at(flat_entries(scopes.deep_view()), e.path@, e.method)
            },
        },
{
    let entries = flatten_scopes(scopes);
    let ghost dv = entries.deep_view();
    let n = entries.len();
    let mut a: usize = 0;
    while a < n
        invariant
            a <= n,
            n == entries.len(),
            dv == entries.deep_view(),
            dv == flat_entries(scopes.deep_view()),
            forall|i: int, j: int| 0 <= i < j < n && i < a ==> !same_key(dv[i], dv[j]),
        decreases n - a,
    {
        let mut b: usize = a + 1;
        while b < n
            invariant
                a < b <= n,
                n == entries.len(),
                dv == entries.deep_view(),
                dv == flat_entries(scopes.deep_view()),
                forall|i: int, j: int| 0 <= i < j < n && i < a ==> !same_key(dv[i], dv[j]),
                forall|j: int| a < j < b ==> !same_key(dv[a as int], dv[j]),
            decreases n - b,
        {
            let ea = &entries[a];
            let eb = &entries[b];
            if str_eq(ea.path.as_str(), eb.path.as_str()) && ea.method == eb.method {
                proof {
                    assert(same_key(dv[a as int], dv[b as int]));
                    assert(!conflict_free(dv));
                }
                let err = ConfigError { path: eb.path.clone(), method: eb.method };
                proof {
                    assert(0 <= a < b < dv.len() && same_key(dv[a as int], dv[b as int])
                        && dv[b as int].path == err.path@ && dv[b as int].method == err.method);
                }
                return Err(err);
            }
            b += 1;
        }
        a += 1;
    }
    Ok(RouteTable { entries })
}

impl RouteTable {
    /// A built table holds no duplicate (path, method) pair.
    pub open spec fn wf(&self) -> bool {
        conflict_free(self@)
    }

    /// The flattened entries, in declaration order.
    pub fn entries(&self) -> (r: &Vec<RouteEntry>)
        ensures
            r.deep_view() == self@,
    {
        &self.entries
    }

    /// How many routes the table binds.
    pub fn len(&self) -> (r: usize)
        ensures
            r == self@.len(),
    {
        self.entries.len()
    }

    /// The dispatcher's match: the first — in a well-formed table, the
    /// only — entry bound to this (path, method) pair, or `None` when the
    /// table does not route the pair.
    pub fn lookup(&self, path: &str, method: Method) -> (r: Option<&RouteEntry>)
        ensures
            match r {
                Option::Some(e) => spec_lookup(self@, path@, method) == Option::Some(e@),
                Option::None => spec_lookup(self@, path@, method) is None,
            },
    {
        let ghost dv = self@;
        let n = self.entries.len();
        let mut i: usize = 0;
        while i < n
            invariant
                i <= n,
                n == self.entries.len(),
                dv == self@,
                spec_lookup_from(dv, path@, method, 0) == spec_lookup_from(dv, path@, method, i as int),
            decreases n - i,
        {
            let e = &self.entries[i];
            if str_eq(e.path.as_str(), path) && e.method == method {
                return Option::Some(e);
            }
            i += 1;
        }
        Option::None
    }
}

} // verus!
