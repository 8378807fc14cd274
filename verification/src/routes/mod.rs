pub mod ascii;
pub mod model;
pub mod params;

use vstd::prelude::*;
use route_recognizer::{Params, Router};
use crate::method::Method;
use crate::modules::Modules;
use crate::status::StatusCode;

pub use self::ascii::{ascii_form, escaped, is_routable, routable};
use self::ascii::routable_is_its_own_form;
pub use self::model::{model_handler, ModelHandlerWrapper, ModelRouteHandler, RouteModel};
pub use self::params::{
    body_params_from_data, url_params_from_route_recognizer, BodyParams, FormData, UriParams,
};
use self::params::params_map;

verus! {

/// The matcher of one method: an automaton over the patterns added to it.
#[verifier::external_type_specification]
#[verifier::external_body]
#[verifier::reject_recursive_types(T)]
pub struct ExRouter<T>(Router<T>);

/// Whether `router` is the matcher that a new matcher becomes when `routes` are added to
/// it in their order, each pattern under its number. An addition is merged into the
/// automaton: the matcher keeps neither the text of a pattern nor the order of the
/// additions, and a pattern that ends where an earlier one ends takes its place. So one
/// matcher may be built from more than one sequence.
pub uninterp spec fn built_from(router: Router<usize>, routes: Seq<(Seq<char>, usize)>) -> bool;

/// What the matcher built from `routes` finds for `path`: the number of the pattern that
/// wins and the values it captured, or nothing where no pattern matches the whole path.
/// Of two additions that end in the same place of the automaton (the same pattern but
/// for a leading slash and the names of its captures) only the later one is found.
pub uninterp spec fn recognized(routes: Seq<(Seq<char>, usize)>, path: Seq<char>) -> Option<
    (usize, Map<Seq<char>, Seq<char>>),
>;

/// Whether `found` is what the matcher built from `routes` finds for `path`. A number
/// that is found is the number of one of the additions.
pub open spec fn finds(
    routes: Seq<(Seq<char>, usize)>,
    path: Seq<char>,
    found: Option<(usize, Params)>,
) -> bool {
    match found {
        Some((dest, params)) => {
            &&& recognized(routes, path) == Some((dest, params_map(params)))
            &&& exists|j: int| 0 <= j < routes.len() && (#[trigger] routes[j]).1 == dest
        },
        None => recognized(routes, path) is None,
    }
}

/// The outcome of handling a request, before a response is made of it.
#[derive(Debug)]
pub enum RouteResult {
    /// A rendered page.
    Html(String),
    /// A body of raw bytes.
    Raw(Vec<u8>),
    /// A redirect to the given location.
    Redirect(String),
    /// A failure with the given status.
    Error(StatusCode),
}

/// The logic bound to one method and pattern.
pub trait RouteHandler: Send + Sync {
    /// What the handler may answer to a request: `result` is an outcome of handling the
    /// captured values `url` and the body `body` with the services `modules`. A handler
    /// that says nothing of itself may answer anything.
    open spec fn handled(
        &self,
        modules: &Modules,
        url: UriParams,
        body: BodyParams,
        result: RouteResult,
    ) -> bool {
        true
    }

    /// The requests that the handler takes. A handler that says nothing of itself takes
    /// every request.
    open spec fn accepts(&self, modules: &Modules, url: UriParams, body: BodyParams) -> bool {
        true
    }

    fn handle(&self, modules: &Modules, url: UriParams, body: BodyParams) -> (result:
        RouteResult)
        requires
            self.accepts(modules, url, body),
        ensures
            self.handled(modules, url, body, result),
    ;
}

/// A function or closure of the right shape is a handler: it takes what its own
/// precondition admits and answers as its own postcondition says.
impl<F: Fn(&Modules, UriParams, BodyParams) -> RouteResult + Send + Sync> RouteHandler for F {
    open spec fn handled(
        &self,
        modules: &Modules,
        url: UriParams,
        body: BodyParams,
        result: RouteResult,
    ) -> bool {
        call_ensures(*self, (modules, url, body), result)
    }

    open spec fn accepts(&self, modules: &Modules, url: UriParams, body: BodyParams) -> bool {
        call_requires(*self, (modules, url, body))
    }

    fn handle(&self, modules: &Modules, url: UriParams, body: BodyParams) -> (result:
        RouteResult) {
        self(modules, url, body)
    }
}

/// What the handler relations of a function or closure are: it takes the requests that
/// its precondition admits, and its answers are those that its postcondition allows.
pub proof fn function_is_handler<
    F: Fn(&Modules, UriParams, BodyParams) -> RouteResult + Send + Sync,
>(f: F)
    ensures
        forall|modules: &Modules, url: UriParams, body: BodyParams| #[trigger]
            f.accepts(modules, url, body) == call_requires(f, (modules, url, body)),
        forall|modules: &Modules, url: UriParams, body: BodyParams, result: RouteResult|
            #[trigger] f.handled(modules, url, body, result) == call_ensures(
                f,
                (modules, url, body),
                result,
            ),
{
}

/// The handler takes every request, whatever the services, the captured values and the
/// body.
pub open spec fn takes_all<H: RouteHandler>(handler: H) -> bool {
    forall|modules: &Modules, url: UriParams, body: BodyParams| #[trigger]
        handler.accepts(modules, url, body)
}

/// What the matcher takes as a pattern: any character but NUL.
pub open spec fn is_pattern(route: Seq<char>) -> bool {
    forall|i: int| 0 <= i < route.len() ==> #[trigger] route[i] != '\0'
}

/// The path without the slashes at its end.
pub open spec fn strip_trailing_slashes(path: Seq<char>) -> Seq<char>
    decreases path.len(),
{
    if path.len() > 0 && path.last() == '/' {
        strip_trailing_slashes(path.drop_last())
    } else {
        path
    }
}

/// `Router::new` of route_recognizer: a matcher to which nothing has been added.
#[verifier::external_body]
fn router_new() -> (router: Router<usize>)
    ensures
        built_from(router, Seq::empty()),
{
    Router::new()
}

/// `Router::add` of route_recognizer: the pattern is merged into the automaton, and the
/// place where it ends is given the number `dest`. A matcher built from some additions
/// is afterwards the matcher built from those and this one.
#[verifier::external_body]
fn router_add(router: &mut Router<usize>, route: &str, dest: usize)
    requires
        is_pattern(route@),
    ensures
        forall|routes: Seq<(Seq<char>, usize)>| #[trigger]
            built_from(*old(router), routes) ==> built_from(
                *final(router),
                routes.push((route@, dest)),
            ),
{
    router.add(route, dest)
}

/// `Router::recognize` of route_recognizer: the number stored where the winning pattern
/// ends, with the values captured, or nothing where no pattern matches. The number was
/// given to `Router::add` in one of the additions that the matcher is built from.
#[verifier::external_body]
fn router_recognize(router: &Router<usize>, path: &str) -> (found: Option<(usize, Params)>)
    requires
        routable(path@),
    ensures
        forall|routes: Seq<(Seq<char>, usize)>| #[trigger]
            built_from(*router, routes) ==> match found {
                Some((dest, params)) => {
                    &&& recognized(routes, path@) == Some((dest, params_map(params)))
                    &&& exists|j: int| 0 <= j < routes.len() && (#[trigger] routes[j]).1 == dest
                },
                None => recognized(routes, path@) is None,
            },
{
    match router.recognize(path) {
        Ok(found) => Some((*found.handler, found.params)),
        Err(_) => None,
    }
}

/// A path with one more slash at its end strips to the same path: a trailing slash
/// never changes what a path is matched as.
pub proof fn trailing_slash_is_stripped(path: Seq<char>)
    ensures
        strip_trailing_slashes(path.push('/')) == strip_trailing_slashes(path),
{
    let longer = path.push('/');
    assert(longer.last() == '/');
    assert(longer.drop_last() =~= path);
}

/// One more slash at the end of a path changes nothing in what the path finds: under
/// every method the lookup gives the same handler and the same captured values, and the
/// request has the same outcomes.
pub proof fn trailing_slash_finds_the_same<H: RouteHandler>(
    routes: &Routes<H>,
    method: Method,
    path: Seq<char>,
)
    ensures
        routes.lookup(method, path.push('/')) == routes.lookup(method, path),
        forall|modules: &Modules, body: Seq<u8>, result: RouteResult|
            #[trigger] routes.dispatched(modules, method, path.push('/'), body, result)
                == routes.dispatched(modules, method, path, body, result),
{
    trailing_slash_is_stripped(path);
}

/// A request that finds no route has one outcome, the not-found error: under a method
/// without a matcher, and under any method where no pattern matches the path.
pub proof fn miss_is_not_found<H: RouteHandler>(
    routes: &Routes<H>,
    modules: &Modules,
    method: Method,
    path: Seq<char>,
    body: Seq<u8>,
    result: RouteResult,
)
    requires
        !method.is_supported() || routes.lookup(method, path) is None,
        routes.dispatched(modules, method, path, body, result),
    ensures
        result == RouteResult::Error(StatusCode::not_found()),
{
}

/// A request that finds a route is answered by the handler registered at the place
/// found, which is handed the captured values and the body of the request.
pub proof fn match_runs_the_handler<H: RouteHandler>(
    routes: &Routes<H>,
    modules: &Modules,
    method: Method,
    path: Seq<char>,
    body: Seq<u8>,
    result: RouteResult,
    dest: usize,
    captured: Map<Seq<char>, Seq<char>>,
)
    requires
        routes.lookup(method, path) == Some((dest, captured)),
        routes.dispatched(modules, method, path, body, result),
    ensures
        dest < routes.handlers().len(),
        exists|url: UriParams, data: BodyParams|
            url@ == captured && data@ == body && #[trigger] routes.handlers()[dest as int].handled(
                modules,
                url,
                data,
                result,
            ),
{
}

/// The path without the slashes at its end, so that `/users/` is looked up as `/users`.
pub fn normalize_path(path: &str) -> (stripped: &str)
    ensures
        stripped@ == strip_trailing_slashes(path@),
{
    let mut end: usize = path.unicode_len();
    let mut done: bool = false;
    assert(path@.subrange(0, end as int) =~= path@);
    while !done && end > 0
        invariant
            end <= path@.len(),
            strip_trailing_slashes(path@) == strip_trailing_slashes(
                path@.subrange(0, end as int),
            ),
            done ==> end == 0 || path@[end - 1] != '/',
        decreases end + (if done { 0int } else { 1int }),
    {
        let c: char = path.get_char(end - 1);
        if c == '/' {
            assert(path@.subrange(0, end as int).drop_last() =~= path@.subrange(0, end - 1));
            end -= 1;
        } else {
            done = true;
        }
    }
    path.substring_char(0, end)
}

/// A boxed handler is a handler: it answers as the handler inside it does. A routing
/// table of boxed handlers holds handlers of different types side by side.
impl RouteHandler for Box<dyn RouteHandler> {
    open spec fn handled(
        &self,
        modules: &Modules,
        url: UriParams,
        body: BodyParams,
        result: RouteResult,
    ) -> bool {
        (**self).handled(modules, url, body, result)
    }

    open spec fn accepts(&self, modules: &Modules, url: UriParams, body: BodyParams) -> bool {
        (**self).accepts(modules, url, body)
    }

    fn handle(&self, modules: &Modules, url: UriParams, body: BodyParams) -> (result:
        RouteResult) {
        (**self).handle(modules, url, body)
    }
}

/// The matcher of one method, with the additions that it was built from.
struct Matcher {
    router: Router<usize>,
    added: Ghost<Seq<(Seq<char>, usize)>>,
}

impl Matcher {
    /// The patterns added, each with the number it was added under, in the order of the
    /// additions.
    spec fn routes(&self) -> Seq<(Seq<char>, usize)> {
        self.added@
    }

    /// The automaton is the one built from the additions recorded.
    spec fn wf(&self) -> bool {
        built_from(self.router, self.added@)
    }

    /// A matcher without patterns.
    fn new() -> (matcher: Matcher)
        ensures
            matcher.wf(),
            matcher.routes().len() == 0,
    {
        Matcher { router: router_new(), added: Ghost(Seq::empty()) }
    }

    /// Adds a pattern under the number `dest`.
    fn add(&mut self, route: &str, dest: usize)
        requires
            old(self).wf(),
            is_pattern(route@),
        ensures
            final(self).wf(),
            final(self).routes() == old(self).routes().push((route@, dest)),
    {
        router_add(&mut self.router, route, dest);
        self.added = Ghost(self.added@.push((route@, dest)));
    }

    /// Matches a path against the patterns added.
    fn recognize(&self, path: &str) -> (found: Option<(usize, Params)>)
        requires
            self.wf(),
            routable(path@),
        ensures
            finds(self.routes(), path@, found),
    {
        router_recognize(&self.router, path)
    }
}

/// The matchers of a routing table: one for each of GET, POST, PATCH and DELETE.
struct Matchers {
    get_handlers: Matcher,
    post_handlers: Matcher,
    patch_handlers: Matcher,
    delete_handlers: Matcher,
}

impl Matchers {
    /// The patterns added under `method`, each with the number it was added under, in
    /// the order of the additions. A method without a matcher has none.
    spec fn routes(&self, method: Method) -> Seq<(Seq<char>, usize)> {
        match method {
            Method::Get => self.get_handlers.routes(),
            Method::Post => self.post_handlers.routes(),
            Method::Patch => self.patch_handlers.routes(),
            Method::Delete => self.delete_handlers.routes(),
            _ => Seq::empty(),
        }
    }

    /// Each of the four automata is the one built from its additions.
    spec fn wf(&self) -> bool {
        &&& self.get_handlers.wf()
        &&& self.post_handlers.wf()
        &&& self.patch_handlers.wf()
        &&& self.delete_handlers.wf()
    }

    /// Four matchers without patterns.
    fn new() -> (matchers: Matchers)
        ensures
            matchers.wf(),
            forall|method: Method| #[trigger] matchers.routes(method).len() == 0,
    {
        Matchers {
            get_handlers: Matcher::new(),
            post_handlers: Matcher::new(),
            patch_handlers: Matcher::new(),
            delete_handlers: Matcher::new(),
        }
    }

    /// The matcher of a method that has one.
    fn get_router(&self, method: Method) -> (router: &Matcher)
        requires
            method.is_supported(),
        ensures
            router.routes() == self.routes(method),
            self.wf() ==> router.wf(),
    {
        match method {
            Method::Get => &self.get_handlers,
            Method::Post => &self.post_handlers,
            Method::Patch => &self.patch_handlers,
            _ => &self.delete_handlers,
        }
    }

    /// The matcher of a method that has one, to add a pattern to.
    fn get_router_mut(&mut self, method: Method) -> (router: &mut Matcher)
        requires
            method.is_supported(),
        ensures
            router.routes() == old(self).routes(method),
            old(self).wf() ==> router.wf(),
            final(self).routes(method) == final(router).routes(),
            old(self).wf() && final(router).wf() ==> final(self).wf(),
            forall|other: Method|
                other != method ==> #[trigger] final(self).routes(other) == old(self).routes(
                    other,
                ),
    {
        match method {
            Method::Get => &mut self.get_handlers,
            Method::Post => &mut self.post_handlers,
            Method::Patch => &mut self.patch_handlers,
            _ => &mut self.delete_handlers,
        }
    }
}

/// The routing table: the matchers, and the handlers that their patterns lead to.
pub struct Routes<H: RouteHandler> {
    matchers: Matchers,
    handlers: Vec<H>,
}

impl<H: RouteHandler> Routes<H> {
    /// The record of the registrations under `method`: each pattern, without the slashes
    /// at its end, with the place of its handler, in the order of registration. A method
    /// without a matcher has none.
    pub closed spec fn routes(&self, method: Method) -> Seq<(Seq<char>, usize)> {
        self.matchers.routes(method)
    }

    /// The handlers registered, in the order of registration.
    pub closed spec fn handlers(&self) -> Seq<H> {
        self.handlers@
    }

    /// Each matcher is the one built from the patterns registered under its method.
    pub closed spec fn built(&self) -> bool {
        self.matchers.wf()
    }

    /// The matchers are built from the patterns registered, every registered pattern
    /// leads to a registered handler, and every registered handler takes every request.
    /// Every routing table that a program holds is of this kind.
    #[verifier::type_invariant]
    pub open spec fn wf(&self) -> bool {
        &&& self.built()
        &&& forall|method: Method, j: int|
            0 <= j < self.routes(method).len() ==> (#[trigger] self.routes(method)[j]).1
                < self.handlers().len()
        &&& forall|i: int|
            0 <= i < self.handlers().len() ==> takes_all(#[trigger] self.handlers()[i])
    }

    /// Whether a pattern registered under `method` leads to the place `dest`.
    pub open spec fn leads_to(&self, method: Method, dest: usize) -> bool {
        exists|j: int|
            0 <= j < self.routes(method).len() && (#[trigger] self.routes(method)[j]).1 == dest
    }

    /// What looking `path` up under `method` gives: the place of the handler and the
    /// values captured. A method without a matcher finds nothing. Under any other the
    /// path is matched without the slashes at its end and in its ASCII form, as the
    /// patterns are registered.
    pub open spec fn lookup(&self, method: Method, path: Seq<char>) -> Option<
        (usize, Map<Seq<char>, Seq<char>>),
    > {
        if method.is_supported() {
            recognized(self.routes(method), escaped(strip_trailing_slashes(path)))
        } else {
            None
        }
    }

    /// A routing table without routes.
    pub fn new() -> (routes: Routes<H>)
        ensures
            routes.handlers().len() == 0,
            forall|method: Method| #[trigger] routes.routes(method).len() == 0,
    {
        Routes { matchers: Matchers::new(), handlers: Vec::new() }
    }

    /// Registers `handler` for the paths that match `route` under `method`. The pattern
    /// is registered without the slashes at its end and in its ASCII form, as paths are
    /// looked up, so that a pattern may hold any character; a capture whose name holds
    /// a character outside ASCII is found again by that name. The handler takes the
    /// next free place. The registrations made before
    /// stay on record, but a pattern that was registered under this method before, the
    /// same but for a leading slash and the names of its captures, is no longer found:
    /// the later registration takes its place in the matcher.
    pub fn register(&mut self, method: Method, route: &str, handler: H)
        requires
            method.is_supported(),
            takes_all(handler),
        ensures
            final(self).routes(method) == old(self).routes(method).push(
                (escaped(strip_trailing_slashes(route@)), old(self).handlers().len() as usize),
            ),
            forall|other: Method|
                other != method ==> #[trigger] final(self).routes(other) == old(self).routes(
                    other,
                ),
            final(self).handlers() == old(self).handlers().push(handler),
    {
        proof {
            use_type_invariant(&*self);
        }
        let dest: usize = self.handlers.len();
        let mut matchers = Matchers::new();
        let mut handlers: Vec<H> = Vec::new();
        assert(self.handlers() == self.handlers@);
        core::mem::swap(&mut self.matchers, &mut matchers);
        core::mem::swap(&mut self.handlers, &mut handlers);
        handlers.push(handler);
        let pattern = ascii_form(normalize_path(route));
        matchers.get_router_mut(method).add(pattern.as_str(), dest);
        core::mem::swap(&mut self.handlers, &mut handlers);
        proof {
            assert forall|other: Method, j: int|
                0 <= j < matchers.routes(other).len() implies (#[trigger] matchers.routes(
                other,
            )[j]).1 < self.handlers().len() by {
                if other == method {
                    if j < old(self).routes(method).len() {
                        assert(matchers.routes(other)[j] == old(self).routes(method)[j]);
                    }
                } else {
                    assert(matchers.routes(other) == old(self).routes(other));
                }
            }
        }
        core::mem::swap(&mut self.matchers, &mut matchers);
    }

    /// Registers `handler` for GET requests whose path matches `route`.
    pub fn get(&mut self, route: &str, handler: H)
        requires
            takes_all(handler),
        ensures
            final(self).routes(Method::Get) == old(self).routes(Method::Get).push(
                (escaped(strip_trailing_slashes(route@)), old(self).handlers().len() as usize),
            ),
            forall|other: Method|
                other != Method::Get ==> #[trigger] final(self).routes(other) == old(self).routes(
                    other,
                ),
            final(self).handlers() == old(self).handlers().push(handler),
    {
        self.register(Method::Get, route, handler);
    }

    /// Registers `handler` for POST requests whose path matches `route`.
    pub fn post(&mut self, route: &str, handler: H)
        requires
            takes_all(handler),
        ensures
            final(self).routes(Method::Post) == old(self).routes(Method::Post).push(
                (escaped(strip_trailing_slashes(route@)), old(self).handlers().len() as usize),
            ),
            forall|other: Method|
                other != Method::Post ==> #[trigger] final(self).routes(other) == old(self).routes(
                    other,
                ),
            final(self).handlers() == old(self).handlers().push(handler),
    {
        self.register(Method::Post, route, handler);
    }

    /// Registers `handler` for PATCH requests whose path matches `route`.
    pub fn patch(&mut self, route: &str, handler: H)
        requires
            takes_all(handler),
        ensures
            final(self).routes(Method::Patch) == old(self).routes(Method::Patch).push(
                (escaped(strip_trailing_slashes(route@)), old(self).handlers().len() as usize),
            ),
            forall|other: Method|
                other != Method::Patch ==> #[trigger] final(self).routes(other) == old(self).routes(
                    other,
                ),
            final(self).handlers() == old(self).handlers().push(handler),
    {
        self.register(Method::Patch, route, handler);
    }

    /// Registers `handler` for DELETE requests whose path matches `route`.
    pub fn delete(&mut self, route: &str, handler: H)
        requires
            takes_all(handler),
        ensures
            final(self).routes(Method::Delete) == old(self).routes(Method::Delete).push(
                (escaped(strip_trailing_slashes(route@)), old(self).handlers().len() as usize),
            ),
            forall|other: Method|
                other != Method::Delete ==> #[trigger] final(self).routes(other) == old(self).routes(
                    other,
                ),
            final(self).handlers() == old(self).handlers().push(handler),
    {
        self.register(Method::Delete, route, handler);
    }

    /// Whether `result` is an outcome of answering a lookup that found `found`: the
    /// not-found error where it found nothing, and otherwise an answer of the handler at
    /// the place found, to the values captured and the body given.
    pub open spec fn answered(
        &self,
        modules: &Modules,
        found: Option<(usize, Map<Seq<char>, Seq<char>>)>,
        body: Seq<u8>,
        result: RouteResult,
    ) -> bool {
        match found {
            None => result == RouteResult::Error(StatusCode::not_found()),
            Some((dest, captured)) => {
                &&& dest < self.handlers().len()
                &&& exists|url: UriParams, data: BodyParams|
                    url@ == captured && data@ == body
                        && #[trigger] self.handlers()[dest as int].handled(
                        modules,
                        url,
                        data,
                        result,
                    )
            },
        }
    }

    /// Whether `result` is an outcome of dispatching the request: an outcome of
    /// answering what the lookup of `path` under `method` finds.
    pub open spec fn dispatched(
        &self,
        modules: &Modules,
        method: Method,
        path: Seq<char>,
        body: Seq<u8>,
        result: RouteResult,
    ) -> bool {
        self.answered(modules, self.lookup(method, path), body, result)
    }

    /// Answers a lookup. Where it found a handler, the handler is run on the values
    /// captured and on the body, and its answer is returned unchanged; where it found
    /// nothing, or a place that holds no handler, the answer is the not-found error.
    pub fn answer(
        &self,
        modules: &Modules,
        found: Option<(usize, Params)>,
        body: Vec<u8>,
    ) -> (result: RouteResult)
        ensures
            match found {
                Some((dest, params)) if dest < self.handlers().len() => self.answered(
                    modules,
                    Some((dest, params_map(params))),
                    body@,
                    result,
                ),
                _ => result == RouteResult::Error(StatusCode::not_found()),
            },
    {
        proof {
            use_type_invariant(self);
        }
        match found {
            Some((dest, params)) => {
                if dest < self.handlers.len() {
                    let url = url_params_from_route_recognizer(params);
                    let data = body_params_from_data(body);
                    self.handlers[dest].handle(modules, url, data)
                } else {
                    RouteResult::Error(StatusCode::not_found())
                }
            },
            None => RouteResult::Error(StatusCode::not_found()),
        }
    }

    /// Dispatches a request: looks the path up under the method, without the slashes at
    /// its end, and answers what was found. A method without a matcher finds nothing.
    /// The matcher is asked in ASCII, because it cuts the captured values out of the path
    /// by counting characters as bytes and has no character class for NUL: a path that
    /// holds other characters is matched in its ASCII form, each byte outside ASCII
    /// percent-encoded, and the handler reads the values percent-decoded again.
    pub fn handle(&self, modules: &Modules, method: Method, route: &str, body: Vec<u8>) -> (result:
        RouteResult)
        ensures
            self.dispatched(modules, method, route@, body@, result),
            match self.lookup(method, route@) {
                Some((dest, _)) => self.leads_to(method, dest),
                None => true,
            },
    {
        proof {
            use_type_invariant(self);
        }
        if !method.is_supported() {
            return RouteResult::Error(StatusCode::not_found());
        }
        let path = normalize_path(route);
        let found = if is_routable(path) {
            proof {
                routable_is_its_own_form(path@);
            }
            self.matchers.get_router(method).recognize(path)
        } else {
            let ascii = ascii_form(path);
            self.matchers.get_router(method).recognize(ascii.as_str())
        };
        self.answer(modules, found, body)
    }
}

} // verus!
