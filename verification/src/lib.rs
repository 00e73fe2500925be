//! A binary-outcome prediction market priced by a constant-product curve, and the
//! registry of the agents whose claims such markets are about.
//!
//! The crate is a pure state-transition core. Callers hand in the current time, the
//! caller's address and the stored state as plain values, and get back the new state
//! with an event that says what is owed to whom; moving collateral and shares, storing
//! accounts and emitting events is left to the program around it.
//!
//! - [`arith`], [`fee`], [`curve`] and [`pricing`] price a trade with checked 64-bit steps.
//! - [`market`] holds the market and its four operations: create, buy, sell, resolve.
//! - [`address`] derives the addresses that a market is held against.
//! - [`redemption`] decides claims on a resolved market.
//! - [`registry`] holds agents, their bonds and the requests for proof.
//! - [`laws`] states what holds across operations.

pub mod error;
pub mod keys;
pub mod arith;
pub mod fee;
pub mod curve;
pub mod pricing;
pub mod address;
pub mod market;
pub mod redemption;
pub mod registry;
pub mod laws;
