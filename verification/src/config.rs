//! The configuration carrier and the pipeline layer that installs it.
//!
//! A [`Config`] owns one caller-chosen configuration value. Turning it into
//! a layer yields an [`AddConfig`], which on each request installs the value
//! into the request's [`Extensions`] store under the carrier's identifier
//! token, and short-circuits with a fixed internal-error response when a
//! carrier with that token is already installed. That duplicate wiring is a
//! caller error that would reproduce on every request of the pipeline, so it
//! is refused rather than overwritten.

use vstd::prelude::*;
use vstd::string::StringExecFns;

use crate::extensions::Extensions;
use crate::response::Response;
use crate::response::ResponseData;
use crate::response::text_plain_content_type;

verus! {

/// Configuration carrier: owns the value that a layer installs per request.
#[derive(Clone, Copy, Debug)]
pub struct Config<T> {
    config: T,
}

impl<T> Config<T> {
    /// The carried configuration value.
    pub closed spec fn spec_inner(&self) -> T {
        self.config
    }

    /// Create a new `Config`.
    pub fn new(config: T) -> (carrier: Self)
        ensures
            carrier.spec_inner() == config,
    {
        Config { config }
    }

    /// Consume the config and get the inner value.
    pub fn into_inner(self) -> (config: T)
        ensures
            config == self.spec_inner(),
    {
        self.config
    }
}

impl<T: Copy> Config<T> {
    /// Wrap a downstream handler: the result installs this carrier's value
    /// under `key` before the handler runs. `config_name` names the carried
    /// configuration type in the duplicate-wiring error body.
    pub fn layer<S>(&self, inner: S, key: u64, config_name: String) -> (layered: AddConfig<S, T>)
        ensures
            layered.spec_config() == self.spec_inner(),
            layered.spec_key() == key,
            layered.spec_config_name() == config_name@,
            layered.spec_inner() == inner,
    {
        AddConfig { inner, config: self.config, key, config_name }
    }

    /// Read the carrier installed under `key` back out of a request's store,
    /// as an extractor does.
    pub fn from_request(store: &Extensions<T>, key: u64) -> (carrier: Option<Config<T>>)
        requires
            store.well_formed(),
        ensures
            match carrier {
                Some(c) => store@.contains_key(key) && c.spec_inner() == store@[key],
                None => !store@.contains_key(key),
            },
    {
        match store.get(key) {
            Some(value) => Some(Config { config: *value }),
            None => None,
        }
    }
}

/// The body of the duplicate-wiring error, naming the duplicated type.
pub open spec fn duplicate_config_message(config_name: Seq<char>) -> Seq<char> {
    "Config of type \""@ + config_name + "\" was already added. Configs can you be added once"@
}

/// The fixed error response for a duplicated configuration layer: internal
/// server error, plain text, body naming the duplicated type.
pub open spec fn duplicate_config_response_spec(config_name: Seq<char>) -> ResponseData {
    ResponseData {
        status: 500,
        content_type: text_plain_content_type(),
        body: duplicate_config_message(config_name),
    }
}

/// Build the duplicate-wiring error response.
pub fn duplicate_config_response(config_name: &str) -> (resp: Response)
    ensures
        resp@ == duplicate_config_response_spec(config_name@),
{
    let mut body = String::from_str("Config of type \"");
    body.append(config_name);
    body.append("\" was already added. Configs can you be added once");
    Response { status: 500, content_type: String::from_str("text/plain; charset=utf-8"), body }
}

/// What one invocation of the layer decides: pass the request on to the
/// downstream handler, or answer it directly without invoking the handler.
pub enum LayerStep {
    /// The store already held a carrier under the layer's token: the
    /// response answers the request and the downstream handler never runs.
    ShortCircuit(Response),
    /// The carrier is now installed; the downstream handler runs next, and
    /// its response passes back through unchanged.
    Proceed,
}

/// One invocation of the layer, on the store's mathematical value: the store
/// it leaves behind, and the short-circuit response if there was one.
pub open spec fn layer_step_spec<C>(store: Map<u64, C>, key: u64, config_name: Seq<char>, config: C) -> (
    Map<u64, C>,
    Option<ResponseData>,
) {
    if store.contains_key(key) {
        (store, Some(duplicate_config_response_spec(config_name)))
    } else {
        (store.insert(key, config), None)
    }
}

/// A layered handler: the downstream handler together with the
/// configuration value to install in front of it.
#[derive(Clone, Debug)]
pub struct AddConfig<S, T> {
    inner: S,
    config: T,
    key: u64,
    config_name: String,
}

impl<S, T> AddConfig<S, T> {
    /// The downstream handler.
    pub closed spec fn spec_inner(&self) -> S {
        self.inner
    }

    /// The configuration value installed per request.
    pub closed spec fn spec_config(&self) -> T {
        self.config
    }

    /// The identifier token the value is installed under.
    pub closed spec fn spec_key(&self) -> u64 {
        self.key
    }

    /// The name of the configuration type, for the duplicate-wiring error.
    pub closed spec fn spec_config_name(&self) -> Seq<char> {
        self.config_name@
    }

    /// Borrow the downstream handler, to invoke it after a `Proceed`.
    pub fn inner_ref(&self) -> (inner: &S)
        ensures
            *inner == self.spec_inner(),
    {
        &self.inner
    }
}

impl<S, T: Copy> AddConfig<S, T> {
    /// Handle one request: install the carrier, or short-circuit with the
    /// duplicate-wiring error while leaving the store untouched.
    pub fn call(&self, store: &mut Extensions<T>) -> (step: LayerStep)
        requires
            old(store).well_formed(),
        ensures
            final(store).well_formed(),
            ({
                let (left_behind, short_circuit) = layer_step_spec(
                    old(store)@,
                    self.spec_key(),
                    self.spec_config_name(),
                    self.spec_config(),
                );
                final(store)@ == left_behind && match step {
                    LayerStep::ShortCircuit(resp) => short_circuit == Some(resp@),
                    LayerStep::Proceed => short_circuit is None,
                }
            }),
    {
        if store.contains_key(self.key) {
            LayerStep::ShortCircuit(duplicate_config_response(self.config_name.as_str()))
        } else {
            let _ = store.insert(self.key, self.config);
            LayerStep::Proceed
        }
    }
}

/// A layer that proceeds leaves exactly its configuration value behind: the
/// carrier an extractor later reads under the token is the one the layer
/// installed.
pub proof fn lemma_installed_carrier_visible<C>(
    store: Map<u64, C>,
    key: u64,
    config_name: Seq<char>,
    config: C,
)
    requires
        !store.contains_key(key),
    ensures
        ({
            let (left_behind, short_circuit) = layer_step_spec(store, key, config_name, config);
            short_circuit is None && left_behind.contains_key(key) && left_behind[key] == config
        }),
{
}

/// Stacking two configuration layers with one identifier token on one
/// pipeline always answers with the duplicate-wiring error: whichever of the
/// two steps finds the token already present short-circuits with exactly
/// that response, and the downstream handler behind both layers is never
/// reached, whatever the request's store held to begin with.
pub proof fn lemma_duplicate_layer_short_circuits<C>(
    store: Map<u64, C>,
    key: u64,
    config_name: Seq<char>,
    outer_config: C,
    inner_config: C,
)
    ensures
        ({
            let (after_outer, outer_stop) = layer_step_spec(store, key, config_name, outer_config);
            let (_, inner_stop) = layer_step_spec(after_outer, key, config_name, inner_config);
            &&& outer_stop is Some || inner_stop is Some
            &&& outer_stop matches Some(resp) ==> resp == duplicate_config_response_spec(config_name)
            &&& inner_stop matches Some(resp) ==> resp == duplicate_config_response_spec(config_name)
        }),
{
}

} // verus!
