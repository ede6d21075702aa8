use vstd::prelude::*;
use crate::error::GammaError;
use crate::identity::Identity;

verus! {

/// Denominator of all fractional fee rates: rates are expressed in parts
/// per million.
pub const FEE_RATE_DENOMINATOR_VALUE: u64 = 1_000_000;

/// The protocol-wide fee configuration record. One durable record exists
/// per index; every pool governed by the configuration reads its fee
/// parameters from here.
#[derive(Clone, Copy, Debug)]
pub struct AmmConfig {
    /// Disambiguator ("bump") from the address derivation, stored for
    /// later address re-verification.
    pub bump: u8,
    /// Whether creating new pools under this config is disabled.
    pub disable_create_pool: bool,
    /// Caller-chosen identifier; determines the record's address.
    pub index: u16,
    /// Fee taken on a trade, in parts per million.
    pub trade_fee_rate: u64,
    /// Share of the trade fee routed to the protocol, in parts per million.
    pub protocol_fee_rate: u64,
    /// Share of the trade fee routed to the fund, in parts per million.
    pub fund_fee_rate: u64,
    /// Flat fee charged when a pool adopts this configuration.
    pub create_pool_fee: u64,
    /// Owner allowed to administer the config.
    pub protocol_owner: Identity,
    /// Beneficiary of the fund share of fees.
    pub fund_owner: Identity,
    /// Referral project identity; the null identity when unset.
    pub referral_project: Identity,
    /// Bound on how long a dependent pool may remain open.
    pub max_open_time: u64,
}

/// The three rate inequalities that every durable record must satisfy.
pub open spec fn spec_rates_valid(trade_fee_rate: u64, protocol_fee_rate: u64, fund_fee_rate: u64) -> bool {
    &&& trade_fee_rate + protocol_fee_rate <= FEE_RATE_DENOMINATOR_VALUE
    &&& protocol_fee_rate + fund_fee_rate <= FEE_RATE_DENOMINATOR_VALUE
    &&& trade_fee_rate < FEE_RATE_DENOMINATOR_VALUE
    &&& protocol_fee_rate < FEE_RATE_DENOMINATOR_VALUE
    &&& fund_fee_rate < FEE_RATE_DENOMINATOR_VALUE
}

/// Exact outcome of rate validation: the checks run in a fixed order and
/// the first violated inequality names the error.
pub open spec fn spec_validate_rates(trade_fee_rate: u64, protocol_fee_rate: u64, fund_fee_rate: u64) -> Result<(), GammaError> {
    if trade_fee_rate + protocol_fee_rate > FEE_RATE_DENOMINATOR_VALUE {
        Err(GammaError::TradeAndProtocolFeeTooHigh)
    } else if protocol_fee_rate + fund_fee_rate > FEE_RATE_DENOMINATOR_VALUE {
        Err(GammaError::ProtocolAndFundFeeTooHigh)
    } else if !(trade_fee_rate < FEE_RATE_DENOMINATOR_VALUE && protocol_fee_rate
        < FEE_RATE_DENOMINATOR_VALUE && fund_fee_rate < FEE_RATE_DENOMINATOR_VALUE) {
        Err(GammaError::FeeRateNotBelowDenominator)
    } else {
        Ok(())
    }
}

/// Outcome of rate validation for a populated record.
pub open spec fn spec_validate_config_rates(c: AmmConfig) -> Result<(), GammaError> {
    spec_validate_rates(c.trade_fee_rate, c.protocol_fee_rate, c.fund_fee_rate)
}

/// A record's rates are valid exactly when they satisfy the three
/// inequalities.
pub open spec fn config_rates_valid(c: AmmConfig) -> bool {
    spec_rates_valid(c.trade_fee_rate, c.protocol_fee_rate, c.fund_fee_rate)
}

/// Checks the three rate invariants of a candidate record, in order:
/// the protocol fee must fit inside the trade fee, the protocol and fund
/// fees together must not exceed the whole, and each rate alone must be
/// strictly below the denominator. Pure: the record is not modified.
pub fn validate_config_rates(config: &AmmConfig) -> (r: Result<(), GammaError>)
    ensures
        r == spec_validate_config_rates(*config),
        r is Ok <==> config_rates_valid(*config),
{
    let trade = config.trade_fee_rate;
    let protocol = config.protocol_fee_rate;
    let fund = config.fund_fee_rate;
    if trade > FEE_RATE_DENOMINATOR_VALUE || protocol > FEE_RATE_DENOMINATOR_VALUE - trade {
        Err(GammaError::TradeAndProtocolFeeTooHigh)
    } else if protocol > FEE_RATE_DENOMINATOR_VALUE || fund > FEE_RATE_DENOMINATOR_VALUE - protocol {
        Err(GammaError::ProtocolAndFundFeeTooHigh)
    } else if !(trade < FEE_RATE_DENOMINATOR_VALUE && protocol < FEE_RATE_DENOMINATOR_VALUE && fund
        < FEE_RATE_DENOMINATOR_VALUE) {
        Err(GammaError::FeeRateNotBelowDenominator)
    } else {
        Ok(())
    }
}

} // verus!
