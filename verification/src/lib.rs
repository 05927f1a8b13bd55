//! An augmented bonding-curve commons engine.
//!
//! A community hatches a token against a reserve asset through a phased sale
//! (Hatch, then Open, then Closed), prices issuance and redemption with a
//! bonding curve (constant, linear or square-root spot price), gates Hatch
//! participation through a priority-ordered allowlist, and accrues entry and
//! exit fees into a funding pool.
//!
//! The engine is pure: every operation is a function from the contract state
//! and the incoming message to the next state and the outgoing token
//! instructions. The host that persists state, moves coins and queries other
//! contracts stays outside.

pub mod abc;
pub mod allowlist;
pub mod commands;
pub mod contract;
pub mod curve;
pub mod decimal;
pub mod error;
pub mod msg;
pub mod queries;
pub mod state;

pub use crate::error::ContractError;
