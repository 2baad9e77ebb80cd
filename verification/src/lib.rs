//! Verification tickets for a community gate: the age gate that decides
//! whether an account must be challenged at all, the issuer that mints a
//! short-lived ticket and its link, and the poller that drains completion
//! markers from the shared key-value store and applies each outcome.
//!
//! The library decides; the application around it performs. Every network
//! call (store, directory, role grant, audit channel) is an action that a
//! state machine of this crate hands out, and whose reply it takes back as
//! an event.

pub mod age_gate;
pub mod audit;
pub mod config;
pub mod decimal;
pub mod error;
pub mod issuer;
pub mod marker;
pub mod pass;
pub mod poller;
pub mod text;
pub mod ticket;
pub mod verification;
