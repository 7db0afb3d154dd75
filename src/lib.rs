//! Composition core of a pluggable HTTP API gateway: layered configuration,
//! route-table compilation with path-template normalization, response
//! envelopes, CORS policy selection and module composition.

pub mod config;
pub mod cors;
pub mod gateway;
pub mod infra;
pub mod method;
pub mod module;
pub mod path;
pub mod route;
pub mod system;
pub mod text;
pub mod web;

use vstd::prelude::*;

verus! {

/// Prepares the framework and returns the line to record that it is ready.
pub fn init_framework() -> (r: &'static str)
    ensures
        r@ == "framework initialized (skeleton)"@,
{
    "framework initialized (skeleton)"
}

} // verus!
