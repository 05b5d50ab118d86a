//! Extractors that are configured via types.
//!
//! The recovery step of these extractors is fixed by a type parameter `C`
//! bound to [`IntoResponseFromRejection`], instead of a value installed at
//! runtime: the binding stands in the handler's declared signature, no store
//! lookup happens, and the duplicate-installation failure of the runtime
//! family cannot occur.

use core::marker::PhantomData;
use vstd::prelude::*;

use crate::extract::extract_with_types;
use crate::response::Rejection;
use crate::response::Response;
use crate::response::default_response;
use crate::response::default_response_spec;

verus! {

/// Trait for converting rejections into custom responses.
///
/// An implementation must behave as a pure function of the rejection:
/// `resolves` is all that callers learn of the outcome, and `can_resolve`
/// is all an implementation may ask of them.
pub trait IntoResponseFromRejection {
    /// On which rejections this conversion is allowed to run.
    spec fn can_resolve(rejection: Rejection) -> bool;

    /// Which responses the conversion can produce for a rejection.
    spec fn resolves(rejection: Rejection, resp: Response) -> bool;

    /// Create the response from a rejection.
    fn into_response_from_rejection(rejection: Rejection) -> (resp: Response)
        requires
            Self::can_resolve(rejection),
        ensures
            Self::resolves(rejection, resp),
    ;
}

/// The trivial conversion, with the rejection type standing for itself: the
/// rejection is its own minimal response, here its default response.
impl IntoResponseFromRejection for Rejection {
    open spec fn can_resolve(rejection: Rejection) -> bool {
        true
    }

    open spec fn resolves(rejection: Rejection, resp: Response) -> bool {
        resp@ == default_response_spec(rejection@)
    }

    fn into_response_from_rejection(rejection: Rejection) -> (resp: Response) {
        default_response(rejection)
    }
}

/// Structured-body extractor with compile-time-configured rejection
/// handling.
#[derive(Debug)]
pub struct Json<T, C>(pub T, pub PhantomData<C>);

impl<T> Json<T, Rejection> {
    /// Create a new `Json` around an already-built value, as a handler does
    /// when it returns one.
    pub fn new(value: T) -> (wrapped: Self)
        ensures
            wrapped.0 == value,
    {
        Json(value, PhantomData)
    }
}

/// Bind a structured-body decode outcome: a decoded value is wrapped, a
/// rejection is resolved by `C`.
pub fn json_from_request<T, C: IntoResponseFromRejection>(decoded: Result<T, Rejection>) -> (r:
    Result<Json<T, C>, Response>)
    requires
        decoded matches Err(rejection) ==> C::can_resolve(rejection),
    ensures
        decoded matches Ok(value) ==> r matches Ok(wrapped) && wrapped.0 == value,
        decoded matches Err(rejection) ==> r matches Err(resp) && C::resolves(rejection, resp),
{
    match extract_with_types::<T, C>(decoded) {
        Ok(value) => Ok(Json(value, PhantomData)),
        Err(resp) => Err(resp),
    }
}

/// Query-string extractor with compile-time-configured rejection handling.
#[derive(Debug)]
pub struct Query<T, C>(pub T, pub PhantomData<C>);

/// Bind a query-string decode outcome: a decoded value is wrapped, a
/// rejection is resolved by `C`.
pub fn query_from_request<T, C: IntoResponseFromRejection>(decoded: Result<T, Rejection>) -> (r:
    Result<Query<T, C>, Response>)
    requires
        decoded matches Err(rejection) ==> C::can_resolve(rejection),
    ensures
        decoded matches Ok(value) ==> r matches Ok(wrapped) && wrapped.0 == value,
        decoded matches Err(rejection) ==> r matches Err(resp) && C::resolves(rejection, resp),
{
    match extract_with_types::<T, C>(decoded) {
        Ok(value) => Ok(Query(value, PhantomData)),
        Err(resp) => Err(resp),
    }
}

/// Form-body extractor with compile-time-configured rejection handling.
#[derive(Debug)]
pub struct Form<T, C>(pub T, pub PhantomData<C>);

impl<T> Form<T, Rejection> {
    /// Create a new `Form` around an already-built value, as a handler does
    /// when it returns one.
    pub fn new(value: T) -> (wrapped: Self)
        ensures
            wrapped.0 == value,
    {
        Form(value, PhantomData)
    }
}

/// Bind a form-body decode outcome: a decoded value is wrapped, a rejection
/// is resolved by `C`.
pub fn form_from_request<T, C: IntoResponseFromRejection>(decoded: Result<T, Rejection>) -> (r:
    Result<Form<T, C>, Response>)
    requires
        decoded matches Err(rejection) ==> C::can_resolve(rejection),
    ensures
        decoded matches Ok(value) ==> r matches Ok(wrapped) && wrapped.0 == value,
        decoded matches Err(rejection) ==> r matches Err(resp) && C::resolves(rejection, resp),
{
    match extract_with_types::<T, C>(decoded) {
        Ok(value) => Ok(Form(value, PhantomData)),
        Err(resp) => Err(resp),
    }
}

} // verus!
