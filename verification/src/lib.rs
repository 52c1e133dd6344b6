//! A compliance-gated exchange ledger: a custodian converts a reserve asset
//! into vouchers at a fixed rate, vouchers move only from registered clients to
//! registered merchants, and merchants redeem vouchers for the reserve asset.
//!
//! The crate decides and accounts; it moves no asset itself. Each operation
//! takes the records that the caller resolved for it, checks the rules, updates
//! the records and answers with the asset movements that the caller must carry
//! out.

pub mod address;
pub mod error;
pub mod role;
pub mod vault;
pub mod token;
pub mod gate;
pub mod exchange;
pub mod registry;
pub mod laws;
