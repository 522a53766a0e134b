//! A bounded health-check engine for a list of URLs: each URL is probed with
//! retry and increasing backoff, the outcomes of one batch are collected and
//! rendered as line-delimited JSON records.
//!
//! The probing itself (an HTTP GET) and the worker threads live outside this
//! library; everything the engine decides — how often to retry, how long to
//! back off, which error survives, what a batch yields, and the exact output
//! format — is defined and verified here over plain values.

pub mod batch;
pub mod config;
pub mod monitor;
pub mod outcome;
pub mod render;
pub mod retry;
pub mod util;
