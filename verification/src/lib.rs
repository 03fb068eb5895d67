//! Verified core of a Redfish client library.
use vstd::prelude::*;

pub mod api;
pub mod auth;
pub mod client;
pub mod headers;
pub mod json;
pub mod method;
pub mod odata;
pub mod pairs;
pub mod redact;
pub mod retry;
pub mod text;
pub mod transport;
pub mod types;
pub mod url;
pub mod error;

verus! {

} // verus!
