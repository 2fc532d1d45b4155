//! Verified core of a flight-search HTTP service.
//!
//! The service is a thin façade over an external full-text search cluster:
//! it parses and normalizes query parameters, hands fully-formed backend
//! calls to the transport layer, and shapes every backend outcome into a
//! response. All of that decision logic lives here, on plain values, with
//! contracts; the network transport, the serializers and the cluster client
//! itself live outside the library and only carry values to and from it.

pub mod facade;
pub mod json;
pub mod models;
pub mod query;
