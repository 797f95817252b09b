//! Typed decoding of the SEPTA regional rail feed.
//!
//! The feed's JSON is loosely typed and inconsistently shaped. This library reads it into a
//! strongly typed model: stop and line names are resolved against a closed catalog, scalar
//! fields are decoded from their textual forms, the arrivals envelope is normalised into two
//! directions, and error envelopes are told apart from results.
use vstd::prelude::*;

pub mod catalog;
pub mod client;
pub mod deserialize;
pub mod errors;
pub mod fields;
pub mod json;
pub mod requests;
pub mod responses;
pub mod text;
pub mod types;

pub use client::Client;

verus! {

} // verus!
