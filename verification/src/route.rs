//! Routes: which names lead to which instance.

use crate::backend::BackendEndpoint;
use crate::duration::Duration;
use crate::ids::{BackendGeneration, Generation, InstanceId, RouteBindingId};
use crate::instance::InstanceState;
use crate::manifest;
use crate::text::{self, characters, ends_with, is_blank, same_text, starts_with, text_of};
use vstd::prelude::*;
use vstd::string::*;
use vstd::utf8::*;

verus! {

/// Whether a host stands for itself or for all names below it.
#[derive(Clone, Copy, Debug, PartialEq, Eq, Structural)]
pub enum RouteHostKind {
    Exact,
    WildcardSuffix,
}

/// A host of a route.
#[derive(Debug, PartialEq, Eq)]
pub struct RouteHost {
    kind: RouteHostKind,
    host: String,
}

/// The mathematical model of a [`RouteHost`].
#[verifier::ext_equal]
pub struct RouteHostView {
    pub kind: RouteHostKind,
    pub host: Seq<char>,
}

impl View for RouteHost {
    type V = RouteHostView;

    closed spec fn view(&self) -> RouteHostView {
        RouteHostView { kind: self.kind, host: self.host@ }
    }
}

/// A part of a route that is empty, or not what it must be.
#[derive(Clone, Debug, PartialEq, Eq)]
pub struct InvalidRoute {
    pub message: &'static str,
}

impl Clone for RouteHost {
    fn clone(&self) -> (copy: RouteHost)
        ensures
            copy@ == self@,
    {
        self.duplicate()
    }
}

impl RouteHost {
    #[verifier::type_invariant]
    spec fn not_blank(self) -> bool {
        !text::blank(self.host@)
    }

    /// The host of a kind, if it is not blank.
    pub fn new(kind: RouteHostKind, host: &str) -> (result: Result<RouteHost, InvalidRoute>)
        ensures
            match result {
                Ok(made) => !text::blank(host@) && made@ == (RouteHostView { kind, host: host@ }),
                Err(error) => text::blank(host@) && error.message@
                    == "route host must not be empty"@,
            },
    {
        if is_blank(host) {
            return Err(InvalidRoute { message: "route host must not be empty" });
        }
        Ok(RouteHost { kind, host: host.to_owned() })
    }

    /// Whether the host stands for itself.
    pub fn kind(&self) -> (kind: RouteHostKind)
        ensures
            kind == self@.kind,
    {
        self.kind
    }

    /// The name, which is never blank.
    pub fn as_str(&self) -> (host: &str)
        ensures
            host@ == self@.host,
            !text::blank(host@),
    {
        proof {
            use_type_invariant(self);
        }
        self.host.as_str()
    }

    /// The same host once more.
    pub fn duplicate(&self) -> (host: RouteHost)
        ensures
            host@ == self@,
    {
        proof {
            use_type_invariant(self);
        }
        RouteHost { kind: self.kind, host: self.host.clone() }
    }
}

/// The front of a path, which begins with a slash.
#[derive(Debug, PartialEq, Eq)]
pub struct PathPrefix {
    path: String,
}

impl View for PathPrefix {
    type V = Seq<char>;

    closed spec fn view(&self) -> Seq<char> {
        self.path@
    }
}

impl Clone for PathPrefix {
    fn clone(&self) -> (copy: PathPrefix)
        ensures
            copy@ == self@,
    {
        self.duplicate()
    }
}

impl PathPrefix {
    #[verifier::type_invariant]
    spec fn begins_with_a_slash(self) -> bool {
        text::opens_with(self.path@, "/"@)
    }

    /// The front of a path, if it begins with a slash.
    pub fn new(path: &str) -> (result: Result<PathPrefix, InvalidRoute>)
        ensures
            match result {
                Ok(prefix) => text::opens_with(path@, "/"@) && prefix@ == path@,
                Err(error) => !text::opens_with(path@, "/"@) && error.message@
                    == "route path prefix must begin with a slash"@,
            },
    {
        if !starts_with(path, "/") {
            return Err(InvalidRoute { message: "route path prefix must begin with a slash" });
        }
        Ok(PathPrefix { path: path.to_owned() })
    }

    /// The path, which begins with a slash.
    pub fn as_str(&self) -> (path: &str)
        ensures
            path@ == self@,
            text::opens_with(path@, "/"@),
    {
        proof {
            use_type_invariant(self);
        }
        self.path.as_str()
    }

    /// The same path once more.
    pub fn duplicate(&self) -> (prefix: PathPrefix)
        ensures
            prefix@ == self@,
    {
        proof {
            use_type_invariant(self);
        }
        PathPrefix { path: self.path.clone() }
    }
}

/// What a request is told apart by.
#[derive(Clone, Debug, PartialEq, Eq)]
pub enum RouteIdentity {
    Http { host: RouteHost, path: Option<PathPrefix> },
    Sni { host: RouteHost },
}

/// The mathematical model of a [`RouteIdentity`].
#[verifier::ext_equal]
pub enum RouteIdentityView {
    Http { host: RouteHostView, path: Option<Seq<char>> },
    Sni { host: RouteHostView },
}

impl View for RouteIdentity {
    type V = RouteIdentityView;

    open spec fn view(&self) -> RouteIdentityView {
        match self {
            RouteIdentity::Http { host, path } => RouteIdentityView::Http {
                host: host@,
                path: manifest::optional_view(*path),
            },
            RouteIdentity::Sni { host } => RouteIdentityView::Sni { host: host@ },
        }
    }
}

fn duplicate_path(path: &Option<PathPrefix>) -> (copy: Option<PathPrefix>)
    ensures
        manifest::optional_view(copy) == manifest::optional_view(*path),
{
    match path {
        Some(path) => Some(path.duplicate()),
        None => None,
    }
}

impl RouteIdentity {
    /// The same identity once more.
    pub fn duplicate(&self) -> (identity: RouteIdentity)
        ensures
            identity@ == self@,
    {
        match self {
            RouteIdentity::Http { host, path } => RouteIdentity::Http {
                host: host.duplicate(),
                path: duplicate_path(path),
            },
            RouteIdentity::Sni { host } => RouteIdentity::Sni { host: host.duplicate() },
        }
    }
}

/// The protocol that a route carries.
#[derive(Clone, Copy, Debug, PartialEq, Eq, Structural)]
pub enum ProtocolRoute {
    Http,
    TlsSni,
}

/// The protocol of an identity.
pub open spec fn protocol_of(identity: RouteIdentityView) -> ProtocolRoute {
    match identity {
        RouteIdentityView::Http { .. } => ProtocolRoute::Http,
        RouteIdentityView::Sni { .. } => ProtocolRoute::TlsSni,
    }
}

/// The protocol of an identity.
pub fn protocol_for_route_identity(identity: &RouteIdentity) -> (protocol: ProtocolRoute)
    ensures
        protocol == protocol_of(identity@),
{
    match identity {
        RouteIdentity::Http { .. } => ProtocolRoute::Http,
        RouteIdentity::Sni { .. } => ProtocolRoute::TlsSni,
    }
}

// ---------------------------------------------------------------------------
// Matching
// ---------------------------------------------------------------------------
/// How closely a route fits a request: a host that stands for itself before one
/// that stands for many, then the longer host, then the longer path.
#[derive(Clone, Copy, Debug, PartialEq, Eq, Structural)]
pub struct MatchScore {
    pub exact: bool,
    pub host_length: usize,
    pub path_length: usize,
}

/// One score is closer than another.
pub open spec fn closer(left: MatchScore, right: MatchScore) -> bool {
    ||| left.exact && !right.exact
    ||| left.exact == right.exact && left.host_length > right.host_length
    ||| left.exact == right.exact && left.host_length == right.host_length && left.path_length
        > right.path_length
}

/// Whether one score is closer than another.
pub fn is_closer(left: MatchScore, right: MatchScore) -> (result: bool)
    ensures
        result == closer(left, right),
{
    (left.exact && !right.exact) || (left.exact == right.exact && (left.host_length
        > right.host_length || (left.host_length == right.host_length && left.path_length
        > right.path_length)))
}

/// A name stands below a suffix: what follows one of its dots is the suffix.
pub open spec fn stands_below(name: Seq<char>, suffix: Seq<char>) -> bool {
    exists|dot: int| 0 <= dot < name.len() && name[dot] == '.' && #[trigger] name.skip(dot + 1)
        == suffix
}

/// A host fits a name.
pub open spec fn host_fits(pattern: RouteHostView, name: Seq<char>) -> bool {
    match pattern.kind {
        RouteHostKind::Exact => pattern.host == name,
        RouteHostKind::WildcardSuffix => stands_below(name, pattern.host),
    }
}

/// The front of a path fits a path: it is the path, or ends where one of the
/// path's segments does.
pub open spec fn path_fits(prefix: Option<Seq<char>>, path: Option<Seq<char>>) -> bool {
    match prefix {
        None => true,
        Some(prefix) => match path {
            None => false,
            Some(path) => {
                ||| prefix == "/"@
                ||| prefix == path
                ||| text::closes_with(prefix, "/"@) && text::opens_with(path, prefix)
                ||| text::opens_with(path, prefix + "/"@)
            },
        },
    }
}

/// How many bytes a text takes.
pub open spec fn bytes_of(content: Seq<char>) -> nat {
    encode_utf8(content).len()
}

/// How closely a route fits a request, or nothing where it does not.
pub open spec fn match_score(pattern: RouteIdentityView, request: RouteIdentityView) -> Option<
    MatchScore,
> {
    match (pattern, request) {
        (
            RouteIdentityView::Http { host, path },
            RouteIdentityView::Http { host: name, path: asked },
        ) => if host_fits(host, name.host) && path_fits(path, asked) {
            Some(
                MatchScore {
                    exact: host.kind == RouteHostKind::Exact,
                    host_length: bytes_of(host.host) as usize,
                    path_length: match path {
                        Some(path) => bytes_of(path) as usize,
                        None => 0,
                    },
                },
            )
        } else {
            None
        },
        (RouteIdentityView::Sni { host }, RouteIdentityView::Sni { host: name }) => if host_fits(
            host,
            name.host,
        ) {
            Some(
                MatchScore {
                    exact: host.kind == RouteHostKind::Exact,
                    host_length: bytes_of(host.host) as usize,
                    path_length: 0,
                },
            )
        } else {
            None
        },
        _ => None,
    }
}

fn is_below(name: &str, suffix: &str) -> (result: bool)
    ensures
        result == stands_below(name@, suffix@),
{
    let list = characters(name);
    let mut at: usize = 0;
    while at < list.len()
        invariant
            at <= list@.len(),
            list@ == name@,
            forall|dot: int|
                0 <= dot < at && name@[dot] == '.' ==> #[trigger] name@.skip(dot + 1) != suffix@,
        decreases list@.len() - at,
    {
        if list[at] == '.' {
            let rest = text_of(&list, at + 1, list.len());
            assert(rest@ =~= name@.skip(at + 1));
            if same_text(rest.as_str(), suffix) {
                return true;
            }
        }
        at = at + 1;
    }
    false
}

fn fits_host(pattern: &RouteHost, name: &RouteHost) -> (result: bool)
    ensures
        result == host_fits(pattern@, name@.host),
{
    match pattern.kind() {
        RouteHostKind::Exact => same_text(pattern.as_str(), name.as_str()),
        RouteHostKind::WildcardSuffix => is_below(name.as_str(), pattern.as_str()),
    }
}

fn fits_path(prefix: &Option<PathPrefix>, path: &Option<PathPrefix>) -> (result: bool)
    ensures
        result == path_fits(manifest::optional_view(*prefix), manifest::optional_view(*path)),
{
    match prefix {
        None => true,
        Some(prefix) => match path {
            None => false,
            Some(path) => {
                let front = prefix.as_str();
                let whole = path.as_str();
                let segment = front.to_owned().concat("/");
                same_text(front, "/") || same_text(front, whole) || (ends_with(front, "/")
                    && starts_with(whole, front)) || starts_with(whole, segment.as_str())
            },
        },
    }
}

/// How closely a route fits a request, or nothing where it does not.
pub fn route_match_score(pattern: &RouteIdentity, request: &RouteIdentity) -> (score: Option<
    MatchScore,
>)
    ensures
        score == match_score(pattern@, request@),
{
    match pattern {
        RouteIdentity::Http { host, path } => match request {
            RouteIdentity::Http { host: name, path: asked } => {
                if fits_host(host, name) && fits_path(path, asked) {
                    let path_length: usize = match path {
                        Some(path) => path.as_str().len(),
                        None => 0,
                    };
                    Some(
                        MatchScore {
                            exact: host.kind() == RouteHostKind::Exact,
                            host_length: host.as_str().len(),
                            path_length,
                        },
                    )
                } else {
                    None
                }
            },
            _ => None,
        },
        RouteIdentity::Sni { host } => match request {
            RouteIdentity::Sni { host: name } => {
                if fits_host(host, name) {
                    Some(
                        MatchScore {
                            exact: host.kind() == RouteHostKind::Exact,
                            host_length: host.as_str().len(),
                            path_length: 0,
                        },
                    )
                } else {
                    None
                }
            },
            _ => None,
        },
    }
}

/// Of two scores at most one is closer, none is closer than itself, and being
/// closer carries over.
pub proof fn law_scores_are_ordered(a: MatchScore, b: MatchScore, c: MatchScore)
    ensures
        !closer(a, a),
        !(closer(a, b) && closer(b, a)),
        closer(a, b) && closer(b, c) ==> closer(a, c),
        a == b || closer(a, b) || closer(b, a),
{
}

// ---------------------------------------------------------------------------
// Answers
// ---------------------------------------------------------------------------
/// Where a route leads.
#[derive(Clone, Debug, PartialEq, Eq)]
pub struct RouteEntry {
    pub route_binding_id: RouteBindingId,
    pub instance_id: InstanceId,
    pub instance_state: InstanceState,
    pub instance_generation: Generation,
    pub backend: Option<BackendEndpoint>,
    pub backend_generation: Option<BackendGeneration>,
}

/// What became of a request for a route.
#[derive(Clone, Debug, PartialEq, Eq)]
pub enum RouteResolution {
    Resolved { matched_identity: RouteIdentity, entry: RouteEntry },
    Miss { negative_cache: Duration },
}

/// A change of routes.
#[derive(Clone, Debug, PartialEq, Eq)]
pub enum RouteBindingChange {
    Reset,
    Instance(InstanceId),
    Route {
        route_binding_id: RouteBindingId,
        removed: bool,
        identity: Option<RouteIdentity>,
        protocol: Option<ProtocolRoute>,
    },
}

} // verus!
