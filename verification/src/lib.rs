//! Two-party threshold signing for transfer transactions: key aggregation,
//! a two-round nonce protocol, partial-signature combination, and the
//! fixed-layout byte formats that carry protocol state between rounds.
//!
//! The signing engine is stateless: round-to-round state travels through the
//! caller as a serialized secret bundle, so no session store exists and the
//! caller alone must enforce that each bundle is used once and discarded.

pub mod api;
pub mod curve;
pub mod encoding;
pub mod keyagg;
pub mod keys;
pub mod serialization;
pub mod transaction;
pub mod tss;
mod util;
