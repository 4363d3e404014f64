//! Verified core of a Celestia light-node client.
//!
//! The crate holds the decisions of a client that follows a node's header
//! feed and asks, for each new header, for the blobs of one namespace at that
//! height. Connections, subscriptions and printing are left to the caller:
//! the library is handed what arrived and answers with what to log and what
//! to do next.

pub mod blob;
pub mod config;
pub mod driver;
pub mod error;
pub mod feed;
pub mod namespace;
pub mod submit;
pub mod text;
