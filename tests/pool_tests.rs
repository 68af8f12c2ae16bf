use meteora_fee_router::claiming::{check_claim_allowed, initialize_treasury, TreasuryState};
use meteora_fee_router::errors::FeeRouterError;
use meteora_fee_router::meteora::{
    add_liquidity_data, claim_position_fee_data, create_position_data, identify_quote_mint,
    preflight_validation, validate_quote_only_pool, validate_quote_side, validate_token_order,
    AddLiquidityParameters, CollectFeeMode, Pool, PoolFeesStruct, QuoteSide,
};
use meteora_fee_router::position::PositionMetadata;
use meteora_fee_router::runtime::Pubkey;

fn key(n: u8) -> Pubkey {
    Pubkey::new_from_array([n; 32])
}

fn pool(collect_fee_mode: u8, pool_status: u8) -> Pool {
    Pool {
        pool_fees: PoolFeesStruct { trade_fee_bps: 25, protocol_trade_fee_bps: 5, fund_trade_fee_bps: 0 },
        token_a_mint: key(1),
        token_b_mint: key(2),
        token_a_vault: key(3),
        token_b_vault: key(4),
        whitelisted_vault: key(5),
        partner: key(6),
        liquidity: 0,
        _padding: 0,
        protocol_a_fee: 0,
        protocol_b_fee: 0,
        partner_a_fee: 0,
        partner_b_fee: 0,
        sqrt_min_price: 0,
        sqrt_max_price: 0,
        sqrt_price: 0,
        activation_point: 0,
        activation_type: 0,
        pool_status,
        token_a_flag: 0,
        token_b_flag: 0,
        collect_fee_mode,
        pool_type: 0,
        _padding_0: [0; 2],
        fee_a_per_liquidity: [0; 32],
        fee_b_per_liquidity: [0; 32],
        _padding_rest: [0; 256],
    }
}

#[test]
fn fee_mode_decodes() {
    assert_eq!(CollectFeeMode::from_u8(0), Some(CollectFeeMode::Both));
    assert_eq!(CollectFeeMode::from_u8(1), Some(CollectFeeMode::OnlyTokenA));
    assert_eq!(CollectFeeMode::from_u8(2), Some(CollectFeeMode::OnlyTokenB));
    assert_eq!(CollectFeeMode::from_u8(3), None);
    let p = pool(2, 0);
    assert!(p.is_token_b_only() && !p.is_token_a_only() && !p.is_both_tokens() && p.is_enabled());
}

#[test]
fn quote_only_pool_checks() {
    assert!(validate_quote_only_pool(&pool(2, 0), &key(2)).is_ok());
    assert!(validate_quote_only_pool(&pool(1, 0), &key(1)).is_ok());
    assert_eq!(validate_quote_only_pool(&pool(2, 1), &key(2)).unwrap_err(), FeeRouterError::InvalidPoolConfig);
    assert_eq!(validate_quote_only_pool(&pool(9, 0), &key(2)).unwrap_err(), FeeRouterError::InvalidPoolConfig);
    assert_eq!(validate_quote_only_pool(&pool(0, 0), &key(2)).unwrap_err(), FeeRouterError::BaseFeeDetected);
    assert_eq!(validate_quote_only_pool(&pool(1, 0), &key(2)).unwrap_err(), FeeRouterError::BaseFeeDetected);
    assert_eq!(validate_quote_only_pool(&pool(2, 0), &key(7)).unwrap_err(), FeeRouterError::QuoteMintMismatch);
}

#[test]
fn configured_quote_side_checks() {
    assert!(validate_quote_side(&pool(2, 0), QuoteSide::QuoteIsSecond, &key(2)).is_ok());
    assert_eq!(
        validate_quote_side(&pool(2, 0), QuoteSide::QuoteIsFirst, &key(2)).unwrap_err(),
        FeeRouterError::QuoteMintMismatch
    );
    assert_eq!(
        validate_quote_side(&pool(1, 0), QuoteSide::QuoteIsSecond, &key(2)).unwrap_err(),
        FeeRouterError::BaseFeeDetected
    );
}

#[test]
fn quote_mint_identification_and_token_order() {
    assert_eq!(identify_quote_mint(&pool(1, 0)).unwrap(), key(1));
    assert_eq!(identify_quote_mint(&pool(2, 0)).unwrap(), key(2));
    assert_eq!(identify_quote_mint(&pool(0, 0)).unwrap_err(), FeeRouterError::InvalidPoolConfig);
    assert!(validate_token_order(&pool(2, 0), &key(1), &key(2)).is_ok());
    assert_eq!(validate_token_order(&pool(2, 0), &key(9), &key(2)).unwrap_err(), FeeRouterError::InvalidTokenOrder);
    assert_eq!(validate_token_order(&pool(2, 0), &key(1), &key(9)).unwrap_err(), FeeRouterError::QuoteMintMismatch);
    assert_eq!(validate_token_order(&pool(2, 0), &key(2), &key(2)).unwrap_err(), FeeRouterError::InvalidTokenOrder);
    assert!(preflight_validation(&pool(2, 0), &key(1), &key(2)).is_ok());
    assert_eq!(preflight_validation(&pool(2, 1), &key(1), &key(2)).unwrap_err(), FeeRouterError::InvalidPoolConfig);
}

#[test]
fn instruction_data_layout() {
    assert_eq!(create_position_data(), vec![48, 215, 197, 153, 96, 203, 180, 133]);
    assert_eq!(claim_position_fee_data(), vec![180, 38, 154, 17, 133, 33, 162, 211]);
    let params = AddLiquidityParameters::minimal_quote_only(1000);
    let data = add_liquidity_data(&params);
    let mut expected = vec![181u8, 157, 89, 67, 143, 182, 52, 72];
    expected.extend_from_slice(&1_000_000u128.to_le_bytes());
    expected.extend_from_slice(&1000u64.to_le_bytes());
    expected.extend_from_slice(&1000u64.to_le_bytes());
    assert_eq!(data, expected);
}

#[test]
fn claim_preconditions_and_confirmation() {
    let mint = key(1);
    let mut treasury: TreasuryState = initialize_treasury(mint, mint, key(5), key(6)).unwrap();
    let metadata = PositionMetadata {
        position: key(10),
        pool: key(11),
        quote_mint: mint,
        base_mint: key(12),
        created_at: 100,
        position_owner_bump: 255,
        reserved: [0; 64],
    };
    assert!(metadata.is_quote_only());
    assert_eq!(metadata.age_seconds(160), 60);
    assert_eq!(metadata.age_seconds(i64::MIN), i64::MIN);
    assert!(check_claim_allowed(&treasury, &metadata, key(10), key(11), mint, 3600).is_ok());
    assert_eq!(
        check_claim_allowed(&treasury, &metadata, key(10), key(99), mint, 3600).unwrap_err(),
        FeeRouterError::PositionMetadataMismatch
    );
    assert_eq!(
        check_claim_allowed(&treasury, &metadata, key(10), key(11), mint, 3599).unwrap_err(),
        FeeRouterError::ClaimIntervalNotElapsed
    );
    assert_eq!(
        treasury.confirm_claim(100, 149, 50, 4000).unwrap_err(),
        FeeRouterError::TreasuryBalanceMismatch
    );
    assert_eq!(treasury.claim_count, 0);
    treasury.confirm_claim(100, 150, 50, 4000).unwrap();
    assert_eq!(treasury.total_fees_claimed, 50);
    assert_eq!(treasury.claim_count, 1);
    assert_eq!(treasury.last_claim_timestamp, 4000);
    assert!(!treasury.can_claim(4000 + 3599, 3600));
    assert!(treasury.can_claim(4000 + 3600, 3600));
    assert!(!treasury.can_claim(i64::MAX, i64::MAX));
    assert_eq!(
        initialize_treasury(mint, key(2), key(5), key(6)).unwrap_err(),
        FeeRouterError::QuoteMintMismatch
    );
}
