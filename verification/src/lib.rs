//! Administrative creation of the fee configuration record for an AMM
//! exchange: deterministic address derivation from a namespace tag and a
//! 16-bit index, validation of the fee rates, and the atomic create
//! operation that either commits a fully valid record or leaves no trace.

pub mod create;
pub mod error;
pub mod identity;
pub mod pda;
pub mod states;
