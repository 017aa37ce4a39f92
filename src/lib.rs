//! Real-time event hub of a support-ticketing backend, with the bearer-token
//! identity layer that guards it.
//!
//! - `token`: issues and verifies signed, time-bounded identity tokens.
//! - `identity`: turns an `Authorization` header into a verified, live identity.
//! - `message`: the events that travel through the hub.
//! - `bus`: the fan-out bus with bounded, lossy per-subscriber delivery.
//! - `session`: the life cycle of one bidirectional connection.
//! - `requests`: request bodies and records of the ticketing endpoints, paging.
//! - `accounts`: login and registration, which hand out tokens.
//! - `email`: the notification mails sent about tickets.
pub mod token;
pub mod identity;
pub mod message;
pub mod bus;
pub mod session;
pub mod requests;
pub mod accounts;
pub mod email;
