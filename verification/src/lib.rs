//! A verified core of an HTTP endpoint-combinator routing engine.
//!
//! An *endpoint* inspects an incoming request through a cursor over its path
//! segments and either declines, reports a malformed request, or matches and
//! hands back a *producer*: a deferred computation that is resolved exactly
//! once against the request's query, headers and body to yield a tuple of
//! extracted values or a typed error.

pub mod application;
pub mod combinator;
pub mod common;
pub mod cors;
pub mod endpoint;
pub mod endpoints;
pub mod error;
pub mod generic;
pub mod laws;
pub mod lookup;
pub mod output;
pub mod parse;
pub mod request;
pub mod runner;
pub mod task;
