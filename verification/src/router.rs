//! The routing table: which handler serves which method and path.
use vstd::prelude::*;
use vstd::string::*;

verus! {

/// The method of a request.
#[derive(Debug, Clone, Copy, PartialEq, Eq, Structural)]
pub enum Method {
    Get,
    Post,
    Put,
    Delete,
    Head,
    Options,
    Connect,
    Patch,
    Trace,
    /// A method that is none of the others.
    Other,
}

/// The handlers of the service, by name.
#[derive(Debug, Clone, Copy, PartialEq, Eq, Structural)]
pub enum Handler {
    Root,
    HealthCheck,
    LoadUsers,
    CreateUser,
    /// The handler of every request that no route serves.
    Fallback,
}

/// One line of the table.
#[derive(Debug, Clone, PartialEq, Eq)]
pub struct Route {
    pub method: Method,
    pub path: String,
    pub handler: Handler,
}

/// One line of the table as mathematics.
pub struct RouteEntry {
    pub method: Method,
    pub path: Seq<char>,
    pub handler: Handler,
}

impl View for Route {
    type V = RouteEntry;

    open spec fn view(&self) -> RouteEntry {
        RouteEntry { method: self.method, path: self.path@, handler: self.handler }
    }
}

/// The table: its routes in the order in which they were added, and the
/// handler of everything else.
#[derive(Debug, Clone, PartialEq, Eq)]
pub struct Router {
    pub routes: Vec<Route>,
    pub fallback: Handler,
}

/// The handler of the first of `routes` with this method and this path.
pub open spec fn find(routes: Seq<RouteEntry>, method: Method, path: Seq<char>) -> Option<Handler>
    decreases routes.len(),
{
    if routes.len() == 0 {
        None
    } else if routes[0].method == method && routes[0].path == path {
        Some(routes[0].handler)
    } else {
        find(routes.skip(1), method, path)
    }
}

/// A table as mathematics.
pub struct RouterView {
    pub routes: Seq<RouteEntry>,
    pub fallback: Handler,
}

impl RouterView {
    /// The handler that serves a request: that of the route with the
    /// request's method and path, and the fallback where there is none.
    pub open spec fn handler_for(self, method: Method, path: Seq<char>) -> Handler {
        match find(self.routes, method, path) {
            Some(handler) => handler,
            None => self.fallback,
        }
    }
}

impl View for Router {
    type V = RouterView;

    open spec fn view(&self) -> RouterView {
        RouterView {
            routes: self.routes@.map_values(|route: Route| route@),
            fallback: self.fallback,
        }
    }
}

/// A search of `routes` that finds nothing in its first `n` lines goes on
/// behind them.
proof fn lemma_find_skips(routes: Seq<RouteEntry>, method: Method, path: Seq<char>, n: int)
    requires
        0 <= n <= routes.len(),
        forall|j: int| 0 <= j < n ==> !(routes[j].method == method && routes[j].path == path),
    ensures
        find(routes, method, path) == find(routes.skip(n), method, path),
    decreases n,
{
    if n == 0 {
        assert(routes.skip(0) =~= routes);
    } else {
        lemma_find_skips(routes, method, path, n - 1);
        assert(routes.skip(n - 1).skip(1) =~= routes.skip(n));
    }
}

/// A line added at the end of a table serves what the table did not serve,
/// and changes nothing else.
proof fn lemma_find_push(routes: Seq<RouteEntry>, entry: RouteEntry, method: Method, path: Seq<char>)
    ensures
        find(routes.push(entry), method, path) == match find(routes, method, path) {
            Some(handler) => Some(handler),
            None => if entry.method == method && entry.path == path {
                Some(entry.handler)
            } else {
                None
            },
        },
    decreases routes.len(),
{
    let longer = routes.push(entry);
    if routes.len() == 0 {
        assert(longer.skip(1) =~= Seq::<RouteEntry>::empty());
    } else {
        assert(longer[0] == routes[0]);
        assert(longer.skip(1) =~= routes.skip(1).push(entry));
        lemma_find_push(routes.skip(1), entry, method, path);
    }
}

impl Router {
    /// The table without routes: the fallback serves every request.
    pub fn new() -> (router: Router)
        ensures
            router@.routes == Seq::<RouteEntry>::empty(),
            router@.fallback == Handler::Fallback,
    {
        let router = Router { routes: Vec::new(), fallback: Handler::Fallback };
        router
    }

    /// Adds a route. The table must not serve this method and path yet.
    ///
    /// Afterwards `handler` serves them, and every other request is served as
    /// before.
    pub fn route(self, method: Method, path: &str, handler: Handler) -> (router: Router)
        requires
            find(self@.routes, method, path@) is None,
        ensures
            router@.routes == self@.routes.push(RouteEntry { method, path: path@, handler }),
            router@.fallback == self@.fallback,
            router@.handler_for(method, path@) == handler,
            forall|other: Method, elsewhere: Seq<char>|
                !(other == method && elsewhere == path@) ==> #[trigger] router@.handler_for(
                    other,
                    elsewhere,
                ) == self@.handler_for(other, elsewhere),
    {
        let ghost before = self@;
        let ghost entry = RouteEntry { method, path: path@, handler };
        let mut routes = self.routes;
        routes.push(Route { method, path: String::from_str(path), handler });
        let router = Router { routes, fallback: self.fallback };
        proof {
            assert(router@.routes =~= before.routes.push(entry));
            lemma_find_push(before.routes, entry, method, path@);
            assert forall|other: Method, elsewhere: Seq<char>|
                !(other == method && elsewhere == path@) implies #[trigger] router@.handler_for(
                other,
                elsewhere,
            ) == before.handler_for(other, elsewhere) by {
                lemma_find_push(before.routes, entry, other, elsewhere);
            }
        }
        router
    }

    /// Finds the handler that serves a request with this method and this
    /// path.
    pub fn dispatch(&self, method: Method, path: &str) -> (handler: Handler)
        ensures
            handler == self@.handler_for(method, path@),
    {
        let wanted = String::from_str(path);
        let mut i: usize = 0;
        while i < self.routes.len()
            invariant
                i <= self.routes.len(),
                wanted@ == path@,
                forall|j: int|
                    0 <= j < i ==> !((#[trigger] self@.routes[j]).method == method
                        && self@.routes[j].path == path@),
            decreases self.routes.len() - i,
        {
            let route = &self.routes[i];
            if route.method == method && route.path == wanted {
                proof {
                    lemma_find_skips(self@.routes, method, path@, i as int);
                }
                return route.handler;
            }
            i = i + 1;
        }
        proof {
            lemma_find_skips(self@.routes, method, path@, i as int);
        }
        self.fallback
    }
}

/// The handler that the service has for a request: the root and the health
/// check answer `GET`, the users are listed with `GET` and created with
/// `POST`, and the fallback has everything else.
pub open spec fn route_of(method: Method, path: Seq<char>) -> Handler {
    if method == Method::Get && path == "/"@ {
        Handler::Root
    } else if method == Method::Get && path == "/health-check"@ {
        Handler::HealthCheck
    } else if method == Method::Get && path == "/users"@ {
        Handler::LoadUsers
    } else if method == Method::Post && path == "/users"@ {
        Handler::CreateUser
    } else {
        Handler::Fallback
    }
}

/// The table of the service.
pub fn app() -> (router: Router)
    ensures
        forall|method: Method, path: Seq<char>| #[trigger]
            router@.handler_for(method, path) == route_of(method, path),
{
    proof {
        reveal_strlit("/");
        reveal_strlit("/health-check");
        reveal_strlit("/users");
        assert("/"@.len() == 1 && "/health-check"@.len() == 13 && "/users"@.len() == 6);
    }
    let ghost root = RouteEntry { method: Method::Get, path: "/"@, handler: Handler::Root };
    let ghost health = RouteEntry {
        method: Method::Get,
        path: "/health-check"@,
        handler: Handler::HealthCheck,
    };
    let ghost list = RouteEntry {
        method: Method::Get,
        path: "/users"@,
        handler: Handler::LoadUsers,
    };
    let none = Router::new();
    let one = none.route(Method::Get, "/", Handler::Root);
    proof {
        lemma_find_push(none@.routes, root, Method::Get, "/health-check"@);
    }
    let two = one.route(Method::Get, "/health-check", Handler::HealthCheck);
    proof {
        lemma_find_push(none@.routes, root, Method::Get, "/users"@);
        lemma_find_push(one@.routes, health, Method::Get, "/users"@);
    }
    let three = two.route(Method::Get, "/users", Handler::LoadUsers);
    proof {
        lemma_find_push(none@.routes, root, Method::Post, "/users"@);
        lemma_find_push(one@.routes, health, Method::Post, "/users"@);
        lemma_find_push(two@.routes, list, Method::Post, "/users"@);
    }
    let router = three.route(Method::Post, "/users", Handler::CreateUser);
    proof {
        let create = RouteEntry {
            method: Method::Post,
            path: "/users"@,
            handler: Handler::CreateUser,
        };
        assert forall|method: Method, path: Seq<char>| #[trigger]
            router@.handler_for(method, path) == route_of(method, path) by {
            lemma_find_push(none@.routes, root, method, path);
            lemma_find_push(one@.routes, health, method, path);
            lemma_find_push(two@.routes, list, method, path);
            lemma_find_push(three@.routes, create, method, path);
        }
    }
    router
}

} // verus!
