use vstd::prelude::*;

verus! {

/// Errors surfaced by config creation and by the rate validator.
///
/// The three rate variants let a caller tell apart which of the three
/// rate inequalities a rejected configuration violated.
#[derive(Clone, Copy, Debug, PartialEq, Eq)]
pub enum GammaError {
    /// The caller is not the designated protocol administrator.
    InvalidOwner,
    /// A record already occupies the address derived for this index.
    AddressAlreadyInitialized,
    /// `trade_fee_rate + protocol_fee_rate` exceeds the rate denominator.
    TradeAndProtocolFeeTooHigh,
    /// `protocol_fee_rate + fund_fee_rate` exceeds the rate denominator.
    ProtocolAndFundFeeTooHigh,
    /// One of the three fee rates is not strictly below the denominator.
    FeeRateNotBelowDenominator,
    /// The derivation search found no valid disambiguator (practically
    /// unreachable address-space exhaustion).
    AddressSpaceExhausted,
}

} // verus!
