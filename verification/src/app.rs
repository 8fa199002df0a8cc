//! The application: owner of the registered HTTP routes and WebSocket
//! behaviors, and the dispatch rule that sends an inbound request to
//! exactly one handler.  Routes are registered before `run`; the handler
//! closures themselves live for the whole process and are named here by
//! the tokens under which the embedder registered them.
//!
//! Dispatch treats the route table as a lookup keyed by method and
//! pattern: the first entry whose method matches (or was registered for
//! any method) and whose pattern equals the request URL wins.

use vstd::prelude::*;

use crate::us_socket_context_options::UsSocketContextOptions;
use crate::utils::bytes_eq;
use crate::websocket_behavior::WebSocketBehavior;

verus! {

/// HTTP method of a route registration; `Any` matches every method.
#[derive(Clone, Copy, Debug, PartialEq, Eq, Structural)]
pub enum HttpMethod {
    Get,
    Post,
    Put,
    Patch,
    Delete,
    Options,
    Trace,
    Connect,
    Any,
}

/// One registered HTTP route: method, URL pattern, and the token of the
/// boxed handler closure, owned by the application for its whole lifetime.
pub struct RouteEntry {
    pub method: HttpMethod,
    pub pattern: Vec<u8>,
    pub handler: u64,
}

/// One registered WebSocket route: URL pattern and its behavior bundle,
/// never deallocated while the pattern is routable.
pub struct WsRouteEntry {
    pub pattern: Vec<u8>,
    pub behavior: WebSocketBehavior,
}

/// Whether `entry` accepts a request with this method and URL.
pub open spec fn route_matches(entry: RouteEntry, method: HttpMethod, url: Seq<u8>) -> bool {
    (entry.method == method || entry.method is Any) && entry.pattern@ == url
}

/// First matching entry at or after `i`: its index and handler token.
pub open spec fn match_from(
    routes: Seq<RouteEntry>,
    i: int,
    method: HttpMethod,
    url: Seq<u8>,
) -> Option<(int, u64)>
    decreases routes.len() - i,
{
    if i < 0 || i >= routes.len() {
        None
    } else if route_matches(routes[i], method, url) {
        Some((i, routes[i].handler))
    } else {
        match_from(routes, i + 1, method, url)
    }
}

/// The route chosen for a request: the first registered entry that
/// matches.
pub open spec fn route_match(routes: Seq<RouteEntry>, method: HttpMethod, url: Seq<u8>) -> Option<
    (int, u64),
> {
    match_from(routes, 0, method, url)
}

/// Dispatch selects exactly one handler: when some entry matches, the
/// chosen one is the unique earliest match and its handler token is
/// returned; no entry matching means no handler is invoked at all.
proof fn lemma_dispatch_selects_unique_first_match(
    routes: Seq<RouteEntry>,
    i: int,
    method: HttpMethod,
    url: Seq<u8>,
)
    requires
        0 <= i <= routes.len(),
    ensures
        match_from(routes, i, method, url) matches Some(p) ==> {
            &&& i <= p.0 < routes.len()
            &&& route_matches(routes[p.0], method, url)
            &&& forall|j: int| i <= j < p.0 ==> !route_matches(routes[j], method, url)
            &&& p.1 == routes[p.0].handler
        },
        match_from(routes, i, method, url) is None ==> forall|j: int|
            i <= j < routes.len() ==> !route_matches(routes[j], method, url),
    decreases routes.len() - i,
{
    if i < routes.len() && !route_matches(routes[i], method, url) {
        lemma_dispatch_selects_unique_first_match(routes, i + 1, method, url);
    }
}

/// The application under construction and at run time: the route
/// registry, the WebSocket behaviors, the socket-context configuration
/// and the optional listen callback.  It is mutated only during the
/// registration phase, then handed to the engine for the process
/// lifetime.
pub struct Application {
    pub routes: Vec<RouteEntry>,
    pub ws_routes: Vec<WsRouteEntry>,
    pub socket_config: UsSocketContextOptions,
    pub listen_handler: Option<u64>,
    pub listen_port: Option<i32>,
    pub running: bool,
}

impl Application {
    /// A fresh application over the given socket configuration, with no
    /// routes yet.
    pub fn new(socket_config: UsSocketContextOptions) -> (r: Application)
        ensures
            r.routes@.len() == 0,
            r.ws_routes@.len() == 0,
            r.socket_config == socket_config,
            r.listen_handler is None,
            r.listen_port is None,
            !r.running,
    {
        Application {
            routes: Vec::new(),
            ws_routes: Vec::new(),
            socket_config,
            listen_handler: None,
            listen_port: None,
            running: false,
        }
    }

    /// Register `handler` for requests with this method and pattern.
    /// Registration happens only before `run`; entries are immutable once
    /// added and their closures are owned until application teardown.
    pub fn register_http_handler(&mut self, method: HttpMethod, pattern: &[u8], handler: u64)
        requires
            !old(self).running,
        ensures
            final(self).routes@.len() == old(self).routes@.len() + 1,
            final(self).routes@.take(old(self).routes@.len() as int) == old(self).routes@,
            final(self).routes@.last().method == method,
            final(self).routes@.last().pattern@ == pattern@,
            final(self).routes@.last().handler == handler,
            *final(self) == (Application { routes: final(self).routes, ..*old(self) }),
    {
        self.routes.push(
            RouteEntry { method, pattern: crate::utils::copy_bytes(pattern), handler },
        );
        proof {
            assert(final(self).routes@.take(old(self).routes@.len() as int) =~= old(self).routes@);
        }
    }

    /// Register a handler for `GET` requests on `pattern`.
    pub fn get(&mut self, pattern: &[u8], handler: u64)
        requires
            !old(self).running,
        ensures
            final(self).routes@.len() == old(self).routes@.len() + 1,
            final(self).routes@.take(old(self).routes@.len() as int) == old(self).routes@,
            final(self).routes@.last().method == HttpMethod::Get,
            final(self).routes@.last().pattern@ == pattern@,
            final(self).routes@.last().handler == handler,
            *final(self) == (Application { routes: final(self).routes, ..*old(self) }),
    {
        self.register_http_handler(HttpMethod::Get, pattern, handler)
    }

    /// Register a handler for `POST` requests on `pattern`.
    pub fn post(&mut self, pattern: &[u8], handler: u64)
        requires
            !old(self).running,
        ensures
            final(self).routes@.len() == old(self).routes@.len() + 1,
            final(self).routes@.take(old(self).routes@.len() as int) == old(self).routes@,
            final(self).routes@.last().method == HttpMethod::Post,
            final(self).routes@.last().pattern@ == pattern@,
            final(self).routes@.last().handler == handler,
            *final(self) == (Application { routes: final(self).routes, ..*old(self) }),
    {
        self.register_http_handler(HttpMethod::Post, pattern, handler)
    }

    /// Register a handler for `PUT` requests on `pattern`.
    pub fn put(&mut self, pattern: &[u8], handler: u64)
        requires
            !old(self).running,
        ensures
            final(self).routes@.len() == old(self).routes@.len() + 1,
            final(self).routes@.take(old(self).routes@.len() as int) == old(self).routes@,
            final(self).routes@.last().method == HttpMethod::Put,
            final(self).routes@.last().pattern@ == pattern@,
            final(self).routes@.last().handler == handler,
            *final(self) == (Application { routes: final(self).routes, ..*old(self) }),
    {
        self.register_http_handler(HttpMethod::Put, pattern, handler)
    }

    /// Register a handler for `PATCH` requests on `pattern`.
    pub fn patch(&mut self, pattern: &[u8], handler: u64)
        requires
            !old(self).running,
        ensures
            final(self).routes@.len() == old(self).routes@.len() + 1,
            final(self).routes@.take(old(self).routes@.len() as int) == old(self).routes@,
            final(self).routes@.last().method == HttpMethod::Patch,
            final(self).routes@.last().pattern@ == pattern@,
            final(self).routes@.last().handler == handler,
            *final(self) == (Application { routes: final(self).routes, ..*old(self) }),
    {
        self.register_http_handler(HttpMethod::Patch, pattern, handler)
    }

    /// Register a handler for `DELETE` requests on `pattern`.
    pub fn delete(&mut self, pattern: &[u8], handler: u64)
        requires
            !old(self).running,
        ensures
            final(self).routes@.len() == old(self).routes@.len() + 1,
            final(self).routes@.take(old(self).routes@.len() as int) == old(self).routes@,
            final(self).routes@.last().method == HttpMethod::Delete,
            final(self).routes@.last().pattern@ == pattern@,
            final(self).routes@.last().handler == handler,
            *final(self) == (Application { routes: final(self).routes, ..*old(self) }),
    {
        self.register_http_handler(HttpMethod::Delete, pattern, handler)
    }

    /// Register a handler for `OPTIONS` requests on `pattern`.
    pub fn options(&mut self, pattern: &[u8], handler: u64)
        requires
            !old(self).running,
        ensures
            final(self).routes@.len() == old(self).routes@.len() + 1,
            final(self).routes@.take(old(self).routes@.len() as int) == old(self).routes@,
            final(self).routes@.last().method == HttpMethod::Options,
            final(self).routes@.last().pattern@ == pattern@,
            final(self).routes@.last().handler == handler,
            *final(self) == (Application { routes: final(self).routes, ..*old(self) }),
    {
        self.register_http_handler(HttpMethod::Options, pattern, handler)
    }

    /// Register a handler for `TRACE` requests on `pattern`.
    pub fn trace(&mut self, pattern: &[u8], handler: u64)
        requires
            !old(self).running,
        ensures
            final(self).routes@.len() == old(self).routes@.len() + 1,
            final(self).routes@.take(old(self).routes@.len() as int) == old(self).routes@,
            final(self).routes@.last().method == HttpMethod::Trace,
            final(self).routes@.last().pattern@ == pattern@,
            final(self).routes@.last().handler == handler,
            *final(self) == (Application { routes: final(self).routes, ..*old(self) }),
    {
        self.register_http_handler(HttpMethod::Trace, pattern, handler)
    }

    /// Register a handler for `CONNECT` requests on `pattern`.
    pub fn connect(&mut self, pattern: &[u8], handler: u64)
        requires
            !old(self).running,
        ensures
            final(self).routes@.len() == old(self).routes@.len() + 1,
            final(self).routes@.take(old(self).routes@.len() as int) == old(self).routes@,
            final(self).routes@.last().method == HttpMethod::Connect,
            final(self).routes@.last().pattern@ == pattern@,
            final(self).routes@.last().handler == handler,
            *final(self) == (Application { routes: final(self).routes, ..*old(self) }),
    {
        self.register_http_handler(HttpMethod::Connect, pattern, handler)
    }

    /// Register a handler for requests of any method on `pattern`.
    pub fn any(&mut self, pattern: &[u8], handler: u64)
        requires
            !old(self).running,
        ensures
            final(self).routes@.len() == old(self).routes@.len() + 1,
            final(self).routes@.take(old(self).routes@.len() as int) == old(self).routes@,
            final(self).routes@.last().method == HttpMethod::Any,
            final(self).routes@.last().pattern@ == pattern@,
            final(self).routes@.last().handler == handler,
            *final(self) == (Application { routes: final(self).routes, ..*old(self) }),
    {
        self.register_http_handler(HttpMethod::Any, pattern, handler)
    }

    /// Attach a WebSocket behavior to `pattern`.  The behavior's callback
    /// bundle is owned until application teardown.
    pub fn ws(&mut self, pattern: &[u8], behavior: WebSocketBehavior)
        requires
            !old(self).running,
        ensures
            final(self).ws_routes@.len() == old(self).ws_routes@.len() + 1,
            final(self).ws_routes@.take(old(self).ws_routes@.len() as int) == old(self).ws_routes@,
            final(self).ws_routes@.last().pattern@ == pattern@,
            final(self).ws_routes@.last().behavior == behavior,
            *final(self) == (Application { ws_routes: final(self).ws_routes, ..*old(self) }),
    {
        self.ws_routes.push(WsRouteEntry { pattern: crate::utils::copy_bytes(pattern), behavior });
        proof {
            assert(final(self).ws_routes@.take(old(self).ws_routes@.len() as int) =~= old(
                self,
            ).ws_routes@);
        }
    }

    /// Record the port to listen on and the optional listen callback.
    pub fn listen(&mut self, port: i32, handler: Option<u64>)
        requires
            !old(self).running,
        ensures
            *final(self) == (Application {
                listen_port: Some(port),
                listen_handler: handler,
                ..*old(self)
            }),
    {
        self.listen_port = Some(port);
        self.listen_handler = handler;
    }

    /// End the registration phase and hand the application to the engine's
    /// event loop.
    pub fn run(&mut self)
        ensures
            *final(self) == (Application { running: true, ..*old(self) }),
    {
        self.running = true;
    }

    /// The handler for an inbound request: the token of the first
    /// registered entry whose method and pattern match, if any.  A request
    /// is dispatched to exactly one handler, or none.
    pub fn match_route(&self, method: HttpMethod, url: &[u8]) -> (r: Option<u64>)
        ensures
            (match r {
                Some(h) => route_match(self.routes@, method, url@) matches Some(p) && p.1 == h,
                None => route_match(self.routes@, method, url@) is None,
            }),
    {
        let n = self.routes.len();
        let mut i: usize = 0;
        while i < n
            invariant
                i <= n,
                n == self.routes@.len(),
                route_match(self.routes@, method, url@) == match_from(
                    self.routes@,
                    i as int,
                    method,
                    url@,
                ),
            decreases n - i,
        {
            let entry = &self.routes[i];
            let method_ok = entry.method == method || entry.method == HttpMethod::Any;
            if method_ok && bytes_eq(entry.pattern.as_slice(), url) {
                return Some(entry.handler);
            }
            i = i + 1;
        }
        None
    }
}

/// For all registered route patterns, a request matching one invokes
/// exactly one handler exactly once: the dispatch rule resolves every
/// request to the unique earliest matching entry — a single handler token
/// — and to nothing when no pattern matches.
pub proof fn lemma_request_invokes_one_handler(
    routes: Seq<RouteEntry>,
    method: HttpMethod,
    url: Seq<u8>,
)
    ensures
        route_match(routes, method, url) matches Some(p) ==> {
            &&& 0 <= p.0 < routes.len()
            &&& route_matches(routes[p.0], method, url)
            &&& forall|j: int| 0 <= j < p.0 ==> !route_matches(routes[j], method, url)
            &&& p.1 == routes[p.0].handler
        },
        route_match(routes, method, url) is None ==> forall|j: int|
            0 <= j < routes.len() ==> !route_matches(routes[j], method, url),
{
    lemma_dispatch_selects_unique_first_match(routes, 0, method, url);
}

} // verus!
