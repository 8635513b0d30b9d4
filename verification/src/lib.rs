//! Verified core of an on-chain event relay: typed contract events are
//! mapped to idempotent outbound HTTP request descriptors and driven
//! through a bounded, fixed-interval retry policy, with semantic log
//! events reported for every step.
//!
//! All chain access, HTTP transport, clocks and console output live
//! outside this crate; the library works on plain values and states in
//! its contracts exactly what each step computes.

pub mod abi;
pub mod config;
pub mod decode;
pub mod events;
pub mod hexfmt;
pub mod logev;
pub mod pipeline;
pub mod request;
pub mod retry;
pub mod u256;
