//! Request-argument extractors with configurable rejection handling.
//!
//! The crate models the configuration machinery of a web-request pipeline:
//! a per-request, token-keyed store of configuration carriers, a pipeline
//! layer that installs a carrier at most once per request, and extractors
//! that resolve a payload-decoding failure into a response, either through a
//! runtime-installed handler or through a statically chosen one.

pub mod config;
pub mod extensions;
pub mod extract;
pub mod response;
pub mod via_extensions;
pub mod via_types;

pub use config::AddConfig;
pub use config::Config;

pub use response::RejectionKind;
pub use response::Rejection;
pub use response::Response;

pub use via_extensions::Form;
pub use via_extensions::FormConfig;
pub use via_extensions::Json;
pub use via_extensions::JsonConfig;
pub use via_extensions::Query;
pub use via_extensions::QueryConfig;
