//! A request/response relay: a correlation-keyed work queue with
//! long-poll delivery, exactly-once-per-command result routing, and a
//! second-hop forwarding mode.
//!
//! A producer admits a command and blocks on a delivery channel; a
//! consumer pulls the next command by long-polling and posts the result
//! back under the command's correlation id, which routes it to the
//! waiting producer. All queue and correlation state lives in
//! [`relay::Relay`], one unit of mutual exclusion; [`notify`] wakes
//! blocked consumers; [`laws`] proves the protocol's guarantees;
//! [`catalog`] holds the decision rules of the catalog-fetch glue that
//! surrounds the relay.

pub mod catalog;
pub mod laws;
pub mod notify;
pub mod relay;
