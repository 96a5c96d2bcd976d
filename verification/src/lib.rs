//! An on-chain authority that intercepts deposits into a stake pool: a
//! depositor's stake account passes through this program's delegated
//! signer instead of depositing directly, so that a configurable,
//! time-decaying fee can be levied before the pool tokens are released.
//!
//! The crate holds the protocol core: the account model for the
//! delegated authority and its per-deposit receipts ([`state`]), the
//! deterministic address derivation everything is checked against
//! ([`pda`]), the linear fee-decay policy ([`fees`]), the instruction
//! codec and builders ([`instruction`]), the instruction-processing
//! state machine ([`processor`]), and the off-chain instruction
//! assembly that must match the on-chain validation ([`query`]).

pub mod address;
pub mod error;
pub mod fees;
pub mod instruction;
pub mod pda;
pub mod processor;
pub mod query;
pub mod state;
