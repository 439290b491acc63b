//! A middleware-composition core for request/response pipelines.
//!
//! The crate models a generic service abstraction together with a set of
//! composable cross-cutting layers (timeouts, response mapping, byte
//! accounting), a coordinator for graceful shutdown of long-running tasks,
//! and a TLS server-configuration selection step driven by the parsed
//! client hello.
//!
//! Asynchrony is modelled discretely: every service call reports the time
//! at which it would resolve (in milliseconds) and the ordered sequence of
//! observable effects it performed, so that racing, draining and layering
//! behaviour can be stated and proved as contracts.

use vstd::prelude::*;

pub mod builder;
pub mod context;
pub mod error;
pub mod listener;
pub mod map_response;
pub mod marker;
pub mod service;
pub mod shutdown;
pub mod timeout;
pub mod tls;
pub mod tracker;

verus! {

} // verus!
