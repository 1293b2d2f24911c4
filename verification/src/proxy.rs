//! The multiplexing reverse proxy's routing state: one public listener
//! fronting a binary-RPC backend and a rebuildable query-language backend.
//!
//! Each inbound request is classified by its shape — binary-RPC framing by
//! content type, the query language by path — and forwarded to the current
//! endpoint of its backend. The query-language endpoint is replaced as one
//! value carrying a generation counter, so a reader observes either the
//! complete old pair or the complete new one, never a torn mixture, and
//! never an unset endpoint once the first replacement completed.

use vstd::prelude::*;

verus! {

use crate::text::{starts_with, str_starts_with};

/// A backend's current network location and its generation: how many
/// times this logical backend has been (re)pointed.
#[derive(Debug)]
pub struct BackendEndpoint {
    pub host: String,
    pub port: u16,
    pub generation: u64,
}

impl BackendEndpoint {
    /// A copy of this endpoint.
    pub fn duplicate(&self) -> (e: BackendEndpoint)
        ensures
            e == *self,
    {
        BackendEndpoint {
            host: self.host.clone(),
            port: self.port,
            generation: self.generation,
        }
    }
}

/// The endpoint as contracts see it.
pub struct EndpointModel {
    pub host: Seq<char>,
    pub port: u16,
    pub generation: u64,
}

impl View for BackendEndpoint {
    type V = EndpointModel;

    open spec fn view(&self) -> EndpointModel {
        EndpointModel { host: self.host@, port: self.port, generation: self.generation }
    }
}

/// A request's routing-relevant shape: its path and its content type.
pub struct Request {
    pub path: String,
    pub content_type: String,
}

/// Which backend a request's shape belongs to.
#[derive(Clone, Copy, Debug, PartialEq, Eq, Structural)]
pub enum RouteClass {
    /// Binary-RPC framing, told apart by its content type.
    BinaryRpc,
    /// The query-language protocol, told apart by its path.
    QueryLanguage,
    /// Neither backend.
    Other,
}

/// Where the proxy sends a request, or why it does not.
pub enum RouteDecision {
    /// Relay to this backend endpoint.
    Forward(BackendEndpoint),
    /// The request's backend endpoint is not yet set.
    ServiceUnavailable,
    /// The request matches no backend.
    NotFound,
}

/// The classification rule: binary-RPC framing wins, then the
/// query-language path, then nothing.
pub open spec fn spec_classify(path: Seq<char>, content_type: Seq<char>) -> RouteClass {
    if starts_with(content_type, "application/grpc"@) {
        RouteClass::BinaryRpc
    } else if starts_with(path, "/graphql"@) {
        RouteClass::QueryLanguage
    } else {
        RouteClass::Other
    }
}

/// Classify a request by its shape alone.
pub fn classify(req: &Request) -> (c: RouteClass)
    ensures
        c == spec_classify(req.path@, req.content_type@),
{
    if str_starts_with(self_str(&req.content_type), "application/grpc") {
        RouteClass::BinaryRpc
    } else if str_starts_with(self_str(&req.path), "/graphql") {
        RouteClass::QueryLanguage
    } else {
        RouteClass::Other
    }
}

/// Borrow a `String` as `&str` for the character-level helpers.
fn self_str(s: &String) -> (r: &str)
    ensures
        r@ == s@,
{
    s.as_str()
}

/// The proxy's routing state. The binary-RPC endpoint is set once at
/// startup; the query-language endpoint is absent until the rebuilding
/// supervisor publishes its first instance and is then re-pointed on
/// every rebuild.
pub struct Proxy {
    pub rpc: BackendEndpoint,
    pub graphql: Option<BackendEndpoint>,
}

/// The generation the query-language backend is at: 0 before the first
/// publication.
pub open spec fn graphql_generation(p: Proxy) -> int {
    match p.graphql {
        Some(e) => e.generation as int,
        None => 0,
    }
}

impl Proxy {
    /// A proxy whose binary-RPC backend lives at `host:port` and whose
    /// query-language backend is not yet published.
    pub fn new(host: String, port: u16) -> (p: Proxy)
        ensures
            p.rpc@.host == host@,
            p.rpc@.port == port,
            p.rpc@.generation == 0,
            p.graphql is None,
    {
        Proxy { rpc: BackendEndpoint { host, port, generation: 0 }, graphql: None }
    }

    /// Atomically re-point the query-language backend: the new address
    /// replaces the old pair wholly, at the next generation. The
    /// binary-RPC endpoint and the listener are untouched, and once set
    /// the query-language endpoint never becomes unset again.
    pub fn set_graphql_addr(&mut self, host: String, port: u16)
        requires
            graphql_generation(*old(self)) < u64::MAX,
        ensures
            final(self).graphql matches Some(e) && e@.host == host@ && e@.port == port
                && e@.generation == graphql_generation(*old(self)) + 1,
            final(self).rpc == old(self).rpc,
    {
        let generation: u64 = match &self.graphql {
            Some(e) => e.generation + 1,
            None => 1,
        };
        self.graphql = Some(BackendEndpoint { host, port, generation });
    }

    /// Decide where a request goes: to the binary-RPC endpoint for
    /// binary-RPC framing, to the current query-language endpoint for a
    /// query-language path — transiently unavailable before the first
    /// publication — and nowhere otherwise.
    pub fn route(&self, req: &Request) -> (d: RouteDecision)
        ensures
            spec_classify(req.path@, req.content_type@) is BinaryRpc ==> (d matches
                RouteDecision::Forward(e) && e == self.rpc),
            spec_classify(req.path@, req.content_type@) is QueryLanguage ==> match self.graphql {
                Some(g) => (d matches RouteDecision::Forward(e) && e == g),
                None => d is ServiceUnavailable,
            },
            spec_classify(req.path@, req.content_type@) is Other ==> d is NotFound,
    {
        match classify(req) {
            RouteClass::BinaryRpc => RouteDecision::Forward(self.rpc.duplicate()),
            RouteClass::QueryLanguage => match &self.graphql {
                Some(g) => RouteDecision::Forward(g.duplicate()),
                None => RouteDecision::ServiceUnavailable,
            },
            RouteClass::Other => RouteDecision::NotFound,
        }
    }
}

/// Where the public router sends a request, by its path.
#[derive(Clone, Copy, Debug, PartialEq, Eq, Structural)]
pub enum RouterTarget {
    /// The funds endpoint.
    Fund,
    /// The block-manipulation endpoint.
    Block,
    /// The configuration endpoint.
    Config,
    /// The dashboard's static assets.
    KeikoAssets,
    /// The dashboard's index page.
    KeikoIndex,
    /// The served world's static assets.
    Assets,
    /// Everything else: the served world's index page.
    Fallback,
}

/// The public route table: the three API paths exactly, then the
/// dashboard and asset trees by prefix, most specific first, and the
/// index page for everything else.
pub open spec fn spec_router_target(path: Seq<char>) -> RouterTarget {
    if path == "/api/fund"@ {
        RouterTarget::Fund
    } else if path == "/api/block"@ {
        RouterTarget::Block
    } else if path == "/config"@ {
        RouterTarget::Config
    } else if starts_with(path, "/keiko/assets"@) {
        RouterTarget::KeikoAssets
    } else if starts_with(path, "/keiko"@) {
        RouterTarget::KeikoIndex
    } else if starts_with(path, "/assets"@) {
        RouterTarget::Assets
    } else {
        RouterTarget::Fallback
    }
}

/// Classify a request path against the public route table.
pub fn router_target(path: &str) -> (t: RouterTarget)
    ensures
        t == spec_router_target(path@),
{
    if crate::text::str_eq(path, "/api/fund") {
        RouterTarget::Fund
    } else if crate::text::str_eq(path, "/api/block") {
        RouterTarget::Block
    } else if crate::text::str_eq(path, "/config") {
        RouterTarget::Config
    } else if str_starts_with(path, "/keiko/assets") {
        RouterTarget::KeikoAssets
    } else if str_starts_with(path, "/keiko") {
        RouterTarget::KeikoIndex
    } else if str_starts_with(path, "/assets") {
        RouterTarget::Assets
    } else {
        RouterTarget::Fallback
    }
}

/// One mutation of the proxy's routing state. Routing itself reads but
/// never writes, so re-pointing the query-language backend is the only
/// way the state changes while serving.
pub struct SetQueryBackend {
    pub host: Seq<char>,
    pub port: u16,
}

/// The proxy model: the same state as `Proxy`, for reasoning over
/// mutation sequences.
pub struct ProxyModel {
    pub rpc: EndpointModel,
    pub graphql: Option<EndpointModel>,
}

impl View for Proxy {
    type V = ProxyModel;

    open spec fn view(&self) -> ProxyModel {
        ProxyModel {
            rpc: self.rpc@,
            graphql: match self.graphql {
                Some(e) => Some(e@),
                None => None,
            },
        }
    }
}

/// The generation of a model state.
pub open spec fn model_generation(m: ProxyModel) -> int {
    match m.graphql {
        Some(e) => e.generation as int,
        None => 0,
    }
}

/// The state after one re-pointing, mirroring `set_graphql_addr`.
pub open spec fn model_set(m: ProxyModel, op: SetQueryBackend) -> ProxyModel {
    ProxyModel {
        rpc: m.rpc,
        graphql: Some(
            EndpointModel {
                host: op.host,
                port: op.port,
                generation: (model_generation(m) + 1) as u64,
            },
        ),
    }
}

/// The state after a sequence of re-pointings.
pub open spec fn model_run(m: ProxyModel, ops: Seq<SetQueryBackend>) -> ProxyModel
    decreases ops.len(),
{
    if ops.len() == 0 {
        m
    } else {
        model_set(model_run(m, ops.drop_last()), ops.last())
    }
}

/// Across rebuilds the observed query-language endpoint moves atomically
/// from generation G to G + 1: after `k` re-pointings the generation is
/// exactly `k` more than at the start, and once any re-pointing has
/// completed, no observation point ever again shows an unset endpoint.
pub proof fn lemma_generation_counts_sets(m: ProxyModel, ops: Seq<SetQueryBackend>, k: int)
    requires
        0 <= k <= ops.len(),
        model_generation(m) + ops.len() <= u64::MAX,
    ensures
        model_generation(model_run(m, ops.take(k))) == model_generation(m) + k,
        k > 0 ==> model_run(m, ops.take(k)).graphql is Some,
        model_run(m, ops.take(k)).rpc == m.rpc,
    decreases k,
{
    if k == 0 {
        assert(ops.take(0) =~= Seq::empty());
    } else {
        lemma_generation_counts_sets(m, ops, k - 1);
        assert(ops.take(k).drop_last() =~= ops.take(k - 1));
        assert(model_run(m, ops.take(k)) == model_set(
            model_run(m, ops.take(k - 1)),
            ops.take(k).last(),
        ));
    }
}

} // verus!
