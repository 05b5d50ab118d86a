//! The shared decode-then-resolve core of every extractor.
//!
//! Each payload kind decodes its request into a target value or a
//! [`Rejection`]; that outcome is handed in here. A successful decode passes
//! through unchanged. A failure is resolved into a response: by the
//! configuration carrier installed in the request's store if one is there,
//! and by the decoding library's default conversion if none is.
//!
//! The resolution capability itself is one contract, [`ResolveRejection`],
//! whatever supplies it: the runtime-configured extractors read an
//! implementing value out of the store, the statically configured ones bind
//! an implementation by type (see [`crate::via_types`]).

use vstd::prelude::*;

use crate::extensions::Extensions;
use crate::response::Rejection;
use crate::response::Response;
use crate::response::default_response;
use crate::response::default_response_spec;

verus! {

/// The capability of a configuration value to convert a decode failure into
/// a response. An implementation must behave as a pure function of the
/// value and the rejection: `resolves` is all that callers learn of the
/// outcome, and `can_resolve` is all an implementation may ask of them.
/// The in-flight request a host hands its handlers stays outside this
/// model: here a resolution reads the rejection alone.
pub trait ResolveRejection: Sized {
    /// On which rejections this value's resolution is allowed to run.
    spec fn can_resolve(&self, rejection: Rejection) -> bool;

    /// Which responses the resolution can produce for a rejection.
    spec fn resolves(&self, rejection: Rejection, resp: Response) -> bool;

    /// Convert the rejection into the response.
    fn resolve(&self, rejection: Rejection) -> (resp: Response)
        requires
            self.can_resolve(rejection),
        ensures
            self.resolves(rejection, resp),
    ;
}

/// Resolve a decode outcome against the request's store: a decoded value
/// passes through unchanged; a rejection becomes the response of the
/// carrier installed under `key`, or its default response when no carrier
/// is installed.
pub fn extract_with_config<T, C: ResolveRejection>(
    decoded: Result<T, Rejection>,
    store: &Extensions<C>,
    key: u64,
) -> (extracted: Result<T, Response>)
    requires
        store.well_formed(),
        decoded matches Err(rejection) ==> store@.contains_key(key) ==> store@[key].can_resolve(
            rejection,
        ),
    ensures
        decoded matches Ok(value) ==> extracted == Result::<T, Response>::Ok(value),
        decoded matches Err(rejection) ==> extracted matches Err(resp) && (if store@.contains_key(
            key,
        ) {
            store@[key].resolves(rejection, resp)
        } else {
            resp@ == default_response_spec(rejection@)
        }),
{
    match decoded {
        Ok(value) => Ok(value),
        Err(rejection) => match store.get(key) {
            Some(config) => Err(config.resolve(rejection)),
            None => Err(default_response(rejection)),
        },
    }
}

/// Resolve a decode outcome through a statically chosen resolution `C`: a
/// decoded value passes through unchanged; a rejection becomes whatever
/// response `C` resolves it into. No store is consulted, so the duplicate
/// installation of a runtime carrier has no counterpart here.
pub fn extract_with_types<T, C: crate::via_types::IntoResponseFromRejection>(
    decoded: Result<T, Rejection>,
) -> (extracted: Result<T, Response>)
    requires
        decoded matches Err(rejection) ==> C::can_resolve(rejection),
    ensures
        decoded matches Ok(value) ==> extracted == Result::<T, Response>::Ok(value),
        decoded matches Err(rejection) ==> extracted matches Err(resp) && C::resolves(
            rejection,
            resp,
        ),
{
    match decoded {
        Ok(value) => Ok(value),
        Err(rejection) => Err(C::into_response_from_rejection(rejection)),
    }
}

} // verus!
