//! A JSON-RPC 2.0 request router.
//!
//! A [`Server`] owns an ordered list of [`Service`]s. Each incoming
//! [`Request`] is offered to the services in registration order; the first
//! one that claims it decides the [`Response`]. A request that nobody claims
//! is answered with a "method not found" error, and a request without an id
//! (a notification) that was handled successfully is answered with nothing.
//!
//! - [`message`]: requests, responses and errors.
//! - [`dispatch`]: the routing decisions as plain functions, for any driver.
//! - [`server`]: the [`Service`] trait and the blocking [`Server`].
//! - [`laws`]: what holds of every dispatch.
//! - [`json`]: the JSON values that the envelopes carry.

pub mod dispatch;
pub mod json;
pub mod laws;
pub mod message;
pub mod server;

pub use message::{Error, Request, Response, RpcError};
pub use server::{Server, Service};
