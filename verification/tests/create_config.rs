use gamma::create::{create_amm_config, ConfigStore, CreateAmmConfig};
use gamma::error::GammaError;
use gamma::identity::{identity_eq, null_identity, Identity};
use gamma::pda::{amm_config_seed, derive_config_address};
use gamma::states::{validate_config_rates, AmmConfig, FEE_RATE_DENOMINATOR_VALUE};

fn ident(tag: u8) -> Identity {
    let mut bytes = [0u8; 32];
    bytes[0] = tag;
    bytes[31] = tag;
    Identity { bytes }
}

fn sample_config(trade: u64, protocol: u64, fund: u64) -> AmmConfig {
    AmmConfig {
        bump: 0,
        disable_create_pool: false,
        index: 0,
        trade_fee_rate: trade,
        protocol_fee_rate: protocol,
        fund_fee_rate: fund,
        create_pool_fee: 0,
        protocol_owner: null_identity(),
        fund_owner: null_identity(),
        referral_project: null_identity(),
        max_open_time: 0,
    }
}

#[test]
fn validator_accepts_documented_example() {
    // 2500 + 120000 = 122500 <= 1_000_000 and 120000 + 40000 = 160000 <= 1_000_000
    let config = sample_config(2500, 120000, 40000);
    assert_eq!(validate_config_rates(&config), Ok(()));
}

#[test]
fn validator_rejects_trade_plus_protocol_above_denominator() {
    // 900000 + 200000 = 1_100_000 > 1_000_000
    let config = sample_config(900000, 200000, 0);
    assert_eq!(
        validate_config_rates(&config),
        Err(GammaError::TradeAndProtocolFeeTooHigh)
    );
}

#[test]
fn validator_rejects_protocol_plus_fund_above_denominator() {
    let config = sample_config(0, 500000, 500001);
    assert_eq!(
        validate_config_rates(&config),
        Err(GammaError::ProtocolAndFundFeeTooHigh)
    );
}

#[test]
fn validator_rejects_rate_equal_to_denominator() {
    // Both sums stay within the denominator, but one rate is not
    // strictly below it.
    let config = sample_config(0, 0, FEE_RATE_DENOMINATOR_VALUE);
    assert_eq!(
        validate_config_rates(&config),
        Err(GammaError::FeeRateNotBelowDenominator)
    );
}

#[test]
fn validator_accepts_sums_at_denominator() {
    let config = sample_config(500000, 500000, 500000);
    assert_eq!(validate_config_rates(&config), Ok(()));
}

#[test]
fn seed_is_ascii_amm_config() {
    assert_eq!(amm_config_seed(), b"amm_config".to_vec());
}

#[test]
fn derivation_is_idempotent() {
    let program = ident(7);
    let first = derive_config_address(&program, 42).unwrap();
    let second = derive_config_address(&program, 42).unwrap();
    assert_eq!(first.0.bytes, second.0.bytes);
    assert_eq!(first.1, second.1);
}

#[test]
fn derivation_distinguishes_indices() {
    let program = ident(7);
    let a0 = derive_config_address(&program, 0).unwrap();
    let a1 = derive_config_address(&program, 1).unwrap();
    assert_ne!(a0.0.bytes, a1.0.bytes);
    // The derived address is not the program id handed in.
    assert_ne!(a0.0.bytes, program.bytes);
}

#[test]
fn create_succeeds_and_echoes_inputs() {
    let admin = ident(3);
    let program = ident(9);
    let mut store = ConfigStore::new(admin, program);
    let ctx = CreateAmmConfig { owner: ident(3) };
    let r = create_amm_config(&mut store, &ctx, 0, 2500, 120000, 40000, 150000000, 0);
    assert_eq!(r, Ok(()));
    let record = store.get_config(0).expect("record must be durable");
    assert_eq!(record.index, 0);
    assert_eq!(record.trade_fee_rate, 2500);
    assert_eq!(record.protocol_fee_rate, 120000);
    assert_eq!(record.fund_fee_rate, 40000);
    assert_eq!(record.create_pool_fee, 150000000);
    assert_eq!(record.max_open_time, 0);
    assert!(!record.disable_create_pool);
    assert!(identity_eq(&record.protocol_owner, &admin));
    assert!(identity_eq(&record.fund_owner, &admin));
    assert!(identity_eq(&record.referral_project, &null_identity()));
    // The stored disambiguator is the one the derivation returns.
    let derived = derive_config_address(&program, 0).unwrap();
    assert_eq!(record.bump, derived.1);
}

#[test]
fn create_rejects_invalid_rates_and_leaves_no_record() {
    let admin = ident(3);
    let mut store = ConfigStore::new(admin, ident(9));
    let ctx = CreateAmmConfig { owner: ident(3) };
    let r = create_amm_config(&mut store, &ctx, 5, 900000, 200000, 0, 0, 0);
    assert_eq!(r, Err(GammaError::TradeAndProtocolFeeTooHigh));
    assert!(store.get_config(5).is_none());
}

#[test]
fn create_rejects_fund_rate_pair_and_leaves_no_record() {
    let admin = ident(3);
    let mut store = ConfigStore::new(admin, ident(9));
    let ctx = CreateAmmConfig { owner: ident(3) };
    let r = create_amm_config(&mut store, &ctx, 5, 0, 600000, 500000, 0, 0);
    assert_eq!(r, Err(GammaError::ProtocolAndFundFeeTooHigh));
    assert!(store.get_config(5).is_none());
}

#[test]
fn create_rejects_foreign_caller_despite_valid_inputs() {
    let admin = ident(3);
    let mut store = ConfigStore::new(admin, ident(9));
    let intruder = CreateAmmConfig { owner: ident(4) };
    let r = create_amm_config(&mut store, &intruder, 0, 2500, 120000, 40000, 0, 0);
    assert_eq!(r, Err(GammaError::InvalidOwner));
    assert!(store.get_config(0).is_none());
}

#[test]
fn create_twice_keeps_the_first_record() {
    let admin = ident(3);
    let mut store = ConfigStore::new(admin, ident(9));
    let ctx = CreateAmmConfig { owner: ident(3) };
    let first = create_amm_config(&mut store, &ctx, 2, 2500, 120000, 40000, 77, 11);
    assert_eq!(first, Ok(()));
    let second = create_amm_config(&mut store, &ctx, 2, 100, 200, 300, 1, 1);
    assert_eq!(second, Err(GammaError::AddressAlreadyInitialized));
    let record = store.get_config(2).expect("first record must survive");
    assert_eq!(record.trade_fee_rate, 2500);
    assert_eq!(record.protocol_fee_rate, 120000);
    assert_eq!(record.fund_fee_rate, 40000);
    assert_eq!(record.create_pool_fee, 77);
    assert_eq!(record.max_open_time, 11);
}

#[test]
fn create_keeps_independent_indices_apart() {
    let admin = ident(3);
    let mut store = ConfigStore::new(admin, ident(9));
    let ctx = CreateAmmConfig { owner: ident(3) };
    assert_eq!(
        create_amm_config(&mut store, &ctx, 0, 100, 200, 300, 0, 0),
        Ok(())
    );
    assert_eq!(
        create_amm_config(&mut store, &ctx, 1, 400, 500, 600, 0, 0),
        Ok(())
    );
    assert_eq!(store.get_config(0).unwrap().trade_fee_rate, 100);
    assert_eq!(store.get_config(1).unwrap().trade_fee_rate, 400);
    assert!(store.get_config(2).is_none());
}
