//! A stateless JSON-over-HTTP gateway to a data store's stored procedures.
//!
//! Every endpoint is one parameterized call into a named procedure; the store,
//! not the gateway, makes all access-control decisions on the forwarded bearer
//! token. This crate holds the gateway's decision logic: credential-header
//! extraction, procedure-call planning, pool accounting, and the translation
//! of a store outcome into an HTTP-shaped response. The HTTP listener and the
//! store driver live outside it and exchange plain values with it.

pub mod auth;
pub mod errors;
pub mod invoke;
pub mod json;
pub mod params;
pub mod pool;
pub mod routes;
