use vstd::prelude::*;
use core::marker::PhantomData;
use crate::modules::Modules;
use crate::routes::{BodyParams, RouteHandler, RouteResult, UriParams};
use crate::status::StatusCode;

verus! {

/// A request model: a value of the application's own that is made once for each
/// request, from the values captured in the path and from the body. The conversion may
/// fail: parameters that give no model give nothing.
pub trait RouteModel: Send + Sync + Sized {
    /// Whether `model` is what the conversion may give for these parameters: a model
    /// or, where they give none, nothing. A model that says nothing of itself may give
    /// anything.
    open spec fn bound(url: UriParams, body: BodyParams, model: Option<Self>) -> bool {
        true
    }

    fn from(url: UriParams, body: BodyParams) -> (model: Option<Self>)
        ensures
            Self::bound(url, body, model),
    ;
}

/// The logic of a route that works on a request model.
pub trait ModelRouteHandler<M: RouteModel>: Send + Sync {
    /// What the handler may answer: `result` is an outcome of handling `model` with the
    /// services `modules`. A handler that says nothing of itself may answer anything.
    open spec fn handled(&self, modules: &Modules, model: M, result: RouteResult) -> bool {
        true
    }

    /// The models that the handler takes. A handler that says nothing of itself takes
    /// every model.
    open spec fn accepts(&self, modules: &Modules, model: M) -> bool {
        true
    }

    fn handle(&self, modules: &Modules, model: M) -> (result: RouteResult)
        requires
            self.accepts(modules, model),
        ensures
            self.handled(modules, model, result),
    ;
}

/// A function or closure of the right shape is a handler on the model.
impl<M: RouteModel, F: Fn(&Modules, M) -> RouteResult + Send + Sync> ModelRouteHandler<M> for F {
    open spec fn handled(&self, modules: &Modules, model: M, result: RouteResult) -> bool {
        call_ensures(*self, (modules, model), result)
    }

    open spec fn accepts(&self, modules: &Modules, model: M) -> bool {
        call_requires(*self, (modules, model))
    }

    fn handle(&self, modules: &Modules, model: M) -> (result: RouteResult) {
        self(modules, model)
    }
}

/// What the handler relations of a function or closure on a model are: it takes the
/// models that its precondition admits, and its answers are those that its postcondition
/// allows.
pub proof fn function_is_model_handler<
    M: RouteModel,
    F: Fn(&Modules, M) -> RouteResult + Send + Sync,
>(f: F)
    ensures
        forall|modules: &Modules, model: M| #[trigger]
            f.accepts(modules, model) == call_requires(f, (modules, model)),
        forall|modules: &Modules, model: M, result: RouteResult| #[trigger]
            f.handled(modules, model, result) == call_ensures(f, (modules, model), result),
{
}

/// A handler on a request model, dressed as a handler on the raw parameters.
pub struct ModelHandlerWrapper<M: RouteModel, H: ModelRouteHandler<M>> {
    handler: H,
    _model: PhantomData<M>,
}

impl<M: RouteModel, H: ModelRouteHandler<M>> ModelHandlerWrapper<M, H> {
    /// The handler that works on the model.
    pub closed spec fn inner(&self) -> H {
        self.handler
    }

    /// Whether `result` is an answer to what the conversion made: an answer of the inner
    /// handler to the model, or the bad-request error where there is no model. The
    /// inner handler is not asked then.
    pub open spec fn answers(&self, modules: &Modules, made: Option<M>, result: RouteResult) -> bool {
        match made {
            Some(model) => self.inner().handled(modules, model, result),
            None => result == RouteResult::Error(StatusCode::bad_request()),
        }
    }
}

impl<M: RouteModel, H: ModelRouteHandler<M>> RouteHandler for ModelHandlerWrapper<M, H> {
    /// An answer of the wrapper is an answer of the inner handler to a model that the
    /// conversion gives for the parameters, or the bad-request error where the
    /// conversion gives none.
    open spec fn handled(
        &self,
        modules: &Modules,
        url: UriParams,
        body: BodyParams,
        result: RouteResult,
    ) -> bool {
        exists|made: Option<M>| #[trigger]
            M::bound(url, body, made) && self.answers(modules, made, result)
    }

    /// The wrapper takes a request where the inner handler takes every model that the
    /// conversion may give for it.
    open spec fn accepts(&self, modules: &Modules, url: UriParams, body: BodyParams) -> bool {
        forall|model: M|
            M::bound(url, body, Some(model)) ==> #[trigger] self.inner().accepts(modules, model)
    }

    fn handle(&self, modules: &Modules, url: UriParams, body: BodyParams) -> (result:
        RouteResult) {
        let made = M::from(url, body);
        let ghost given = made;
        let result = match made {
            Some(model) => {
                assert(self.inner().accepts(modules, model));
                self.handler.handle(modules, model)
            },
            None => RouteResult::Error(StatusCode::bad_request()),
        };
        assert(M::bound(url, body, given) && self.answers(modules, given, result));
        result
    }
}

/// Wraps a handler on the model `M` so that it can be registered as a route: for each
/// request the wrapper makes the model, once, and hands it on. Where the parameters give
/// no model it answers with the bad-request error.
pub fn model_handler<M: RouteModel, H: ModelRouteHandler<M>>(handler: H) -> (wrapper:
    ModelHandlerWrapper<M, H>)
    ensures
        wrapper.inner() == handler,
{
    ModelHandlerWrapper { handler, _model: PhantomData }
}

} // verus!
