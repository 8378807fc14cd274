use vstd::prelude::*;
use vstd::utf8::encode_utf8;
use crate::method::Method;
use crate::modules::Modules;
use crate::routes::{RouteHandler, RouteResult, Routes};
use crate::status::StatusCode;

verus! {

/// What the transport hands over for one request.
#[derive(Debug)]
pub struct Request {
    pub method: Method,
    pub path: String,
    pub body: Vec<u8>,
}

/// What the transport is to send back: the status, the two headers that the pipeline
/// sets, and the body.
#[derive(Debug)]
pub struct Response {
    pub status: StatusCode,
    pub content_length: u64,
    pub location: Option<String>,
    pub body: Vec<u8>,
}

/// Turns a bare error status into the body of the response.
pub trait ErrorHandler: Send + Sync + 'static {
    /// Whether `body` is a body that the handler may give for `status` with the services
    /// `modules`. A handler that says nothing of itself may give any body.
    open spec fn handled(&self, modules: &Modules, status: StatusCode, body: Seq<u8>) -> bool {
        true
    }

    /// The statuses that the handler takes. A handler that says nothing of itself takes
    /// every status.
    open spec fn accepts(&self, modules: &Modules, status: StatusCode) -> bool {
        true
    }

    fn handle(&self, modules: &Modules, status: StatusCode) -> (body: Vec<u8>)
        requires
            self.accepts(modules, status),
        ensures
            self.handled(modules, status, body@),
    ;
}

/// A function or closure of the right shape is an error handler.
impl<F: Fn(&Modules, StatusCode) -> Vec<u8> + Send + Sync + 'static> ErrorHandler for F {
    open spec fn handled(&self, modules: &Modules, status: StatusCode, body: Seq<u8>) -> bool {
        exists|bytes: Vec<u8>| bytes@ == body && #[trigger] call_ensures(
            *self,
            (modules, status),
            bytes,
        )
    }

    open spec fn accepts(&self, modules: &Modules, status: StatusCode) -> bool {
        call_requires(*self, (modules, status))
    }

    fn handle(&self, modules: &Modules, status: StatusCode) -> (body: Vec<u8>) {
        self(modules, status)
    }
}

/// What the handler relations of a function or closure on a status are: it takes the
/// statuses that its precondition admits, and its bodies are those that its
/// postcondition allows.
pub proof fn function_is_error_handler<
    F: Fn(&Modules, StatusCode) -> Vec<u8> + Send + Sync + 'static,
>(f: F)
    ensures
        forall|modules: &Modules, status: StatusCode| #[trigger]
            f.accepts(modules, status) == call_requires(f, (modules, status)),
        forall|modules: &Modules, status: StatusCode, bytes: Vec<u8>|
            #[trigger] call_ensures(f, (modules, status), bytes) ==> f.handled(
                modules,
                status,
                bytes@,
            ),
        forall|modules: &Modules, status: StatusCode, body: Seq<u8>|
            #[trigger] f.handled(modules, status, body) ==> exists|bytes: Vec<u8>|
                bytes@ == body && #[trigger] call_ensures(f, (modules, status), bytes),
{
}

/// The response pipeline: the services, the routing table and the error handler of an
/// application.
pub struct Clockwork<H: RouteHandler, E: ErrorHandler> {
    modules: Modules,
    routes: Routes<H>,
    error_handler: E,
}

impl<H: RouteHandler, E: ErrorHandler> Clockwork<H, E> {
    /// The services that the handlers are given.
    pub closed spec fn modules(&self) -> Modules {
        self.modules
    }

    /// The routing table that requests are dispatched with.
    pub closed spec fn routes(&self) -> Routes<H> {
        self.routes
    }

    /// The handler that gives the body for an error status.
    pub closed spec fn error_handler(&self) -> E {
        self.error_handler
    }

    /// The error handler takes every status with the services of this pipeline. Every
    /// pipeline that a program holds is of this kind.
    #[verifier::type_invariant]
    pub open spec fn wf(&self) -> bool {
        forall|status: StatusCode| #[trigger]
            self.error_handler().accepts(&self.modules(), status)
    }

    /// Whether `response` is the response to the outcome `result`: 200 with the given
    /// body for a page or raw bytes; 303 with an empty body and the target as location
    /// for a redirect; for an error its own status, with a body that the error handler
    /// gives for that status and the services of this pipeline. The content length is
    /// always the length of the body, and only a redirect has a location.
    pub open spec fn responded(&self, result: RouteResult, response: Response) -> bool {
        &&& response.content_length == response.body@.len()
        &&& match result {
            RouteResult::Html(page) => {
                &&& response.status == StatusCode::ok()
                &&& response.body@ == encode_utf8(page@)
                &&& response.location is None
            },
            RouteResult::Raw(bytes) => {
                &&& response.status == StatusCode::ok()
                &&& response.body@ == bytes@
                &&& response.location is None
            },
            RouteResult::Redirect(target) => {
                &&& response.status == StatusCode::see_other()
                &&& response.body@.len() == 0
                &&& response.location == Some(target)
            },
            RouteResult::Error(status) => {
                &&& response.status == status
                &&& self.error_handler().handled(&self.modules(), status, response.body@)
                &&& response.location is None
            },
        }
    }

    /// A redirect is answered with 303, an empty body, a content length of zero and the
    /// target as location, whatever the target is.
    pub proof fn redirect_is_see_other(&self, target: String, response: Response)
        requires
            self.responded(RouteResult::Redirect(target), response),
        ensures
            response.status.code == 303,
            response.body@ == Seq::<u8>::empty(),
            response.content_length == 0,
            response.location == Some(target),
    {
        assert(response.body@ =~= Seq::<u8>::empty());
    }

    /// An error is answered with its own status, whatever body the error handler gives;
    /// the body is one that the error handler gives for exactly that status and the
    /// services of this pipeline.
    pub proof fn error_keeps_its_status(&self, status: StatusCode, response: Response)
        requires
            self.responded(RouteResult::Error(status), response),
        ensures
            response.status == status,
            self.error_handler().handled(&self.modules(), status, response.body@),
            response.location is None,
    {
    }

    /// A pipeline of the three parts. The error handler is to take every status with
    /// these services.
    pub fn new(modules: Modules, routes: Routes<H>, error_handler: E) -> (clockwork: Self)
        requires
            forall|status: StatusCode| #[trigger] error_handler.accepts(&modules, status),
        ensures
            clockwork.modules() == modules,
            clockwork.routes() == routes,
            clockwork.error_handler() == error_handler,
    {
        Clockwork { modules, routes, error_handler }
    }

    /// Makes the response of an outcome. For an error the error handler is asked, once,
    /// with the status of the error and the services of this pipeline; the status of the
    /// response is that of the error whatever body comes back.
    pub fn respond(&self, result: RouteResult) -> (response: Response)
        ensures
            self.responded(result, response),
    {
        proof {
            use_type_invariant(self);
        }
        let (status, body, location): (StatusCode, Vec<u8>, Option<String>) = match result {
            RouteResult::Html(page) => (StatusCode::ok(), page.as_str().as_bytes_vec(), None),
            RouteResult::Raw(bytes) => (StatusCode::ok(), bytes, None),
            RouteResult::Redirect(target) => (StatusCode::see_other(), Vec::new(), Some(target)),
            RouteResult::Error(status) => {
                assert(self.error_handler().accepts(&self.modules(), status));
                let body = self.error_handler.handle(&self.modules, status);
                (status, body, None)
            },
        };
        let content_length: u64 = body.len() as u64;
        Response { status, content_length, location, body }
    }

    /// Handles one request: dispatches it with the routing table and makes the response
    /// of the outcome. A place that the lookup finds is one that a pattern registered
    /// under the method of the request leads to, so a method without a pattern that
    /// matches is answered by the error handler with the not-found status.
    pub fn on_request(&self, request: Request) -> (response: Response)
        ensures
            exists|result: RouteResult|
                #![trigger self.responded(result, response)]
                self.routes().dispatched(
                    &self.modules(),
                    request.method,
                    request.path@,
                    request.body@,
                    result,
                ) && self.responded(result, response),
            match self.routes().lookup(request.method, request.path@) {
                Some((dest, _)) => self.routes().leads_to(request.method, dest),
                None => true,
            },
    {
        let result = self.routes.handle(
            &self.modules,
            request.method,
            request.path.as_str(),
            request.body,
        );
        let ghost outcome = result;
        let response = self.respond(result);
        assert(self.responded(outcome, response));
        response
    }
}

} // verus!
