//! Validator liveness tracking and the penalty for unresponsive validators.
//!
//! During each session the library records which validators proved that they
//! are online (a signed heartbeat, an authored block or an uncle). When the
//! session ends, every validator without such a record is an offender, and
//! the share of offenders in the set decides the slash fraction.
pub mod perbill;
pub mod offence;
pub mod ledger;
pub mod pallet;
