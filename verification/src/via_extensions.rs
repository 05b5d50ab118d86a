//! Extractors that are configured via request extensions.
//!
//! Each payload kind pairs an extractor with a configuration type. The
//! configuration optionally carries a rejection handler; installed into a
//! request's store by a configuration layer (see [`crate::config`]), it
//! decides how that kind's decode failures are answered. With no handler,
//! or no carrier installed at all, the failure is answered by its default
//! response.

use vstd::prelude::*;

use crate::extensions::Extensions;
use crate::extract::ResolveRejection;
use crate::extract::extract_with_config;
use crate::response::Rejection;
use crate::response::Response;
use crate::response::default_response;
use crate::response::default_response_spec;

verus! {

/// Extractor that wraps a structured-body decode and supports runtime
/// configuration through [`JsonConfig`].
#[derive(Clone, Copy, Debug)]
pub struct Json<T>(pub T);

/// Config type for [`Json`]: an optional rejection handler.
#[derive(Clone, Copy)]
pub struct JsonConfig<F> {
    rejection_handler: Option<F>,
}

impl<F: Fn(Rejection) -> Response> JsonConfig<F> {
    /// The configured handler, if one was set.
    pub closed spec fn spec_handler(&self) -> Option<F> {
        self.rejection_handler
    }

    /// Create a new `JsonConfig` with no handler: decode failures get their
    /// default response, as if no layer were configured at all.
    pub fn new() -> (config: Self)
        ensures
            config.spec_handler() is None,
    {
        JsonConfig { rejection_handler: None }
    }

    /// Set the rejection handler function.
    pub fn rejection_handler(self, handler: F) -> (config: Self)
        ensures
            config.spec_handler() == Some(handler),
    {
        JsonConfig { rejection_handler: Some(handler) }
    }
}

impl<F: Fn(Rejection) -> Response> Default for JsonConfig<F> {
    /// The default config carries no handler.
    fn default() -> (config: Self)
        ensures
            config.spec_handler() is None,
    {
        JsonConfig { rejection_handler: None }
    }
}

impl<F: Fn(Rejection) -> Response + Copy> ResolveRejection for JsonConfig<F> {
    open spec fn can_resolve(&self, rejection: Rejection) -> bool {
        self.spec_handler() matches Some(handler) ==> call_requires(handler, (rejection,))
    }

    open spec fn resolves(&self, rejection: Rejection, resp: Response) -> bool {
        match self.spec_handler() {
            Some(handler) => call_ensures(handler, (rejection,), resp),
            None => resp@ == default_response_spec(rejection@),
        }
    }

    fn resolve(&self, rejection: Rejection) -> (resp: Response) {
        match &self.rejection_handler {
            Some(handler) => {
                let f = *handler;
                f(rejection)
            },
            None => default_response(rejection),
        }
    }
}

/// Bind a structured-body decode outcome against the request's store: a
/// decoded value is wrapped; a rejection is answered by the handler of the
/// [`JsonConfig`] installed under `key`, or by its default response.
pub fn json_from_request<T, F: Fn(Rejection) -> Response + Copy>(
    decoded: Result<T, Rejection>,
    store: &Extensions<JsonConfig<F>>,
    key: u64,
) -> (r: Result<Json<T>, Response>)
    requires
        store.well_formed(),
        decoded matches Err(rejection) ==> store@.contains_key(key)
            ==> (store@[key].spec_handler() matches Some(handler) ==> call_requires(
            handler,
            (rejection,),
        )),
    ensures
        decoded matches Ok(value) ==> r matches Ok(wrapped) && wrapped.0 == value,
        decoded matches Err(rejection) ==> r matches Err(resp) && (if store@.contains_key(key) {
            match store@[key].spec_handler() {
                Some(handler) => call_ensures(handler, (rejection,), resp),
                None => resp@ == default_response_spec(rejection@),
            }
        } else {
            resp@ == default_response_spec(rejection@)
        }),
{
    match extract_with_config(decoded, store, key) {
        Ok(value) => Ok(Json(value)),
        Err(resp) => Err(resp),
    }
}

/// Extractor that wraps a query-string decode and supports runtime
/// configuration through [`QueryConfig`].
#[derive(Clone, Copy, Debug)]
pub struct Query<T>(pub T);

/// Config type for [`Query`]: an optional rejection handler.
#[derive(Clone, Copy)]
pub struct QueryConfig<F> {
    rejection_handler: Option<F>,
}

impl<F: Fn(Rejection) -> Response> QueryConfig<F> {
    /// The configured handler, if one was set.
    pub closed spec fn spec_handler(&self) -> Option<F> {
        self.rejection_handler
    }

    /// Create a new `QueryConfig` with no handler: decode failures get
    /// their default response, as if no layer were configured at all.
    pub fn new() -> (config: Self)
        ensures
            config.spec_handler() is None,
    {
        QueryConfig { rejection_handler: None }
    }

    /// Set the rejection handler function.
    pub fn rejection_handler(self, handler: F) -> (config: Self)
        ensures
            config.spec_handler() == Some(handler),
    {
        QueryConfig { rejection_handler: Some(handler) }
    }
}

impl<F: Fn(Rejection) -> Response> Default for QueryConfig<F> {
    /// The default config carries no handler.
    fn default() -> (config: Self)
        ensures
            config.spec_handler() is None,
    {
        QueryConfig { rejection_handler: None }
    }
}

impl<F: Fn(Rejection) -> Response + Copy> ResolveRejection for QueryConfig<F> {
    open spec fn can_resolve(&self, rejection: Rejection) -> bool {
        self.spec_handler() matches Some(handler) ==> call_requires(handler, (rejection,))
    }

    open spec fn resolves(&self, rejection: Rejection, resp: Response) -> bool {
        match self.spec_handler() {
            Some(handler) => call_ensures(handler, (rejection,), resp),
            None => resp@ == default_response_spec(rejection@),
        }
    }

    fn resolve(&self, rejection: Rejection) -> (resp: Response) {
        match &self.rejection_handler {
            Some(handler) => {
                let f = *handler;
                f(rejection)
            },
            None => default_response(rejection),
        }
    }
}

/// Bind a query-string decode outcome against the request's store: a
/// decoded value is wrapped; a rejection is answered by the handler of the
/// [`QueryConfig`] installed under `key`, or by its default response.
pub fn query_from_request<T, F: Fn(Rejection) -> Response + Copy>(
    decoded: Result<T, Rejection>,
    store: &Extensions<QueryConfig<F>>,
    key: u64,
) -> (r: Result<Query<T>, Response>)
    requires
        store.well_formed(),
        decoded matches Err(rejection) ==> store@.contains_key(key)
            ==> (store@[key].spec_handler() matches Some(handler) ==> call_requires(
            handler,
            (rejection,),
        )),
    ensures
        decoded matches Ok(value) ==> r matches Ok(wrapped) && wrapped.0 == value,
        decoded matches Err(rejection) ==> r matches Err(resp) && (if store@.contains_key(key) {
            match store@[key].spec_handler() {
                Some(handler) => call_ensures(handler, (rejection,), resp),
                None => resp@ == default_response_spec(rejection@),
            }
        } else {
            resp@ == default_response_spec(rejection@)
        }),
{
    match extract_with_config(decoded, store, key) {
        Ok(value) => Ok(Query(value)),
        Err(resp) => Err(resp),
    }
}

/// Extractor that wraps a form-body decode and supports runtime
/// configuration through [`FormConfig`].
#[derive(Clone, Copy, Debug)]
pub struct Form<T>(pub T);

/// Config type for [`Form`]: an optional rejection handler.
#[derive(Clone, Copy)]
pub struct FormConfig<F> {
    rejection_handler: Option<F>,
}

impl<F: Fn(Rejection) -> Response> FormConfig<F> {
    /// The configured handler, if one was set.
    pub closed spec fn spec_handler(&self) -> Option<F> {
        self.rejection_handler
    }

    /// Create a new `FormConfig` with no handler: decode failures get their
    /// default response, as if no layer were configured at all.
    pub fn new() -> (config: Self)
        ensures
            config.spec_handler() is None,
    {
        FormConfig { rejection_handler: None }
    }

    /// Set the rejection handler function.
    pub fn rejection_handler(self, handler: F) -> (config: Self)
        ensures
            config.spec_handler() == Some(handler),
    {
        FormConfig { rejection_handler: Some(handler) }
    }
}

impl<F: Fn(Rejection) -> Response> Default for FormConfig<F> {
    /// The default config carries no handler.
    fn default() -> (config: Self)
        ensures
            config.spec_handler() is None,
    {
        FormConfig { rejection_handler: None }
    }
}

impl<F: Fn(Rejection) -> Response + Copy> ResolveRejection for FormConfig<F> {
    open spec fn can_resolve(&self, rejection: Rejection) -> bool {
        self.spec_handler() matches Some(handler) ==> call_requires(handler, (rejection,))
    }

    open spec fn resolves(&self, rejection: Rejection, resp: Response) -> bool {
        match self.spec_handler() {
            Some(handler) => call_ensures(handler, (rejection,), resp),
            None => resp@ == default_response_spec(rejection@),
        }
    }

    fn resolve(&self, rejection: Rejection) -> (resp: Response) {
        match &self.rejection_handler {
            Some(handler) => {
                let f = *handler;
                f(rejection)
            },
            None => default_response(rejection),
        }
    }
}

/// Bind a form-body decode outcome against the request's store: a decoded
/// value is wrapped; a rejection is answered by the handler of the
/// [`FormConfig`] installed under `key`, or by its default response.
pub fn form_from_request<T, F: Fn(Rejection) -> Response + Copy>(
    decoded: Result<T, Rejection>,
    store: &Extensions<FormConfig<F>>,
    key: u64,
) -> (r: Result<Form<T>, Response>)
    requires
        store.well_formed(),
        decoded matches Err(rejection) ==> store@.contains_key(key)
            ==> (store@[key].spec_handler() matches Some(handler) ==> call_requires(
            handler,
            (rejection,),
        )),
    ensures
        decoded matches Ok(value) ==> r matches Ok(wrapped) && wrapped.0 == value,
        decoded matches Err(rejection) ==> r matches Err(resp) && (if store@.contains_key(key) {
            match store@[key].spec_handler() {
                Some(handler) => call_ensures(handler, (rejection,), resp),
                None => resp@ == default_response_spec(rejection@),
            }
        } else {
            resp@ == default_response_spec(rejection@)
        }),
{
    match extract_with_config(decoded, store, key) {
        Ok(value) => Ok(Form(value)),
        Err(resp) => Err(resp),
    }
}

/// A configured handler decides the failure response alone: a [`JsonConfig`]
/// carrying `handler` resolves a rejection into exactly the responses that
/// invoking `handler` on that rejection can produce.
pub proof fn lemma_custom_handler_decides<F: Fn(Rejection) -> Response + Copy>(
    config: JsonConfig<F>,
    handler: F,
    rejection: Rejection,
    resp: Response,
)
    requires
        config.spec_handler() == Some(handler),
    ensures
        config.resolves(rejection, resp) <==> call_ensures(handler, (rejection,), resp),
{
}

/// A carrier with no handler behaves as if no layer were configured at all:
/// it resolves a rejection into exactly its default response.
pub proof fn lemma_no_handler_defaults<F: Fn(Rejection) -> Response + Copy>(
    config: JsonConfig<F>,
    rejection: Rejection,
    resp: Response,
)
    requires
        config.spec_handler() is None,
    ensures
        config.resolves(rejection, resp) <==> resp@ == default_response_spec(rejection@),
{
}

} // verus!
