//! Verified core of a REST gateway to an upstream time-tracking API.
//!
//! The library holds the logic of the gateway: how requests to the upstream
//! service are built (paths, bearer authentication, JSON body fields), how
//! raw upstream responses are classified into success and failure, and how
//! the outcome of each upstream exchange is translated into a local result
//! or a local error. Everything here is pure: the transport that actually
//! performs the HTTP calls lives outside the library and hands the outcomes
//! in as plain values, which keeps the whole translation layer verifiable
//! and testable against a substituted transport.

pub mod config;
pub mod data;
pub mod external;
pub mod handlers;
