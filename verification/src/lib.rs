//! A verified core for a small social-media service.
//!
//! The crate holds the pieces of the service that are pure logic: validated
//! domain values (user names, passwords, post bodies), the request and
//! response types of the HTTP endpoints, cookie and session handling, the
//! row types of the storage layer, the decision logic of the request
//! handlers, and the state kept by the browser front end. Network, database
//! and rendering code lives outside and hands this crate plain values.

pub mod clock;
pub mod components;
pub mod cookie;
pub mod crypto;
pub mod domain;
pub mod endpoint;
pub mod error;
pub mod handler;
pub mod page;
pub mod query;
pub mod session;
