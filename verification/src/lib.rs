//! Errors-as-a-service: a fault-injection library.
//!
//! Given a caller-supplied chance, the library decides whether a request
//! should fail, picks an HTTP error status from a fixed table for the
//! requested category, and formats the plain-text response body
//! `"<code> <REASON PHRASE IN UPPERCASE>"`.

use vstd::prelude::*;

pub mod body;
pub mod entropy;
pub mod service;
pub mod status;

verus! {

/// Marker for the service's API description; the HTTP shell builds the
/// machine-readable document for the routes from its own copy of this type.
pub struct ApiDoc;

} // verus!
