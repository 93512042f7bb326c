//! Client-side logic for a remote package-build service.
//!
//! The crate holds the decisions of a command-line client and none of its
//! input or output: how credentials are resolved, which requests are issued,
//! how responses are judged, and how a running build is followed until every
//! job has reached a terminal state. Callers perform the requests and hand
//! the results back.

pub mod auth;
pub mod api;
pub mod commands;
pub mod config;
pub mod error;
pub mod http_status;
pub mod report;
pub mod text;
