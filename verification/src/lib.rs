//! Verified core of a periodic vault-monitoring service.
//!
//! On every timer tick the service fetches vault balances from a source
//! chain, reads a lending-pool yield rate, derives a daily growth figure
//! for each vault, and pushes the figures to a sink chain. This crate
//! holds the verified logic of that loop: configuration resolution,
//! growth arithmetic, the alert rule, and the cycle state machine that
//! decides which outside action comes next. The unverified shell that
//! performs timing, logging and the (mocked) chain calls lives outside.

pub mod balance;
pub mod config;
pub mod growth;
pub mod monitor;
pub mod parse;
