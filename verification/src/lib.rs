//! A bounded-capacity minting ledger.
//!
//! An operator declares a fixed number of template slots, appends
//! `(name, uri)` template records into a single byte-packed storage
//! region, and sells claims against them.  A claim validates the
//! availability window, the redemption cap and the payment, advances the
//! redemption counter, selects a template and describes the record to be
//! issued.  The hosting runtime that stores the regions, moves the funds
//! and issues the permanent record is outside this crate: every function
//! here is a pure step from plain values to plain values, and what the
//! runtime must then perform is returned as data.

pub mod codec;
pub mod config;
pub mod errors;
pub mod ledger;
pub mod machine;
