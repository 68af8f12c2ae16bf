use meteora_fee_router::distribution::{DailyDistributionState, GlobalDistributionState, PolicyState};
use meteora_fee_router::errors::FeeRouterError;
use meteora_fee_router::runtime::Pubkey;
use meteora_fee_router::vesting::StreamflowStream;

fn key(n: u8) -> Pubkey {
    Pubkey::new_from_array([n; 32])
}

fn create_test_daily_state() -> DailyDistributionState {
    DailyDistributionState {
        distribution_day: 1672531200,
        quote_mint: key(1),
        treasury_ata: key(2),
        total_amount_to_distribute: 100_000,
        amount_distributed: 0,
        current_cursor: 0,
        total_investors: 50,
        investors_processed: 0,
        is_complete: false,
        started_at: 1672531200,
        completed_at: 0,
        dust_carried_over: 0,
        daily_cap_total: 1_000_000,
        daily_cap_remaining: 1_000_000,
        min_payout_threshold: 1000,
        initial_total_deposit: 2_000_000,
        investor_fee_share_bps: 5000,
        last_page_hash: [0; 32],
        pages_processed: 0,
        failed_payouts_count: 0,
        reserved: [0; 20],
    }
}

#[test]
fn test_daily_distribution_state_initialization() {
    let quote_mint = key(1);
    let treasury_ata = key(2);
    let distribution_day = 1672531200i64;
    let state = DailyDistributionState {
        distribution_day,
        quote_mint,
        treasury_ata,
        total_amount_to_distribute: 100_000,
        amount_distributed: 0,
        current_cursor: 0,
        total_investors: 50,
        investors_processed: 0,
        is_complete: false,
        started_at: distribution_day,
        completed_at: 0,
        dust_carried_over: 0,
        daily_cap_total: 1_000_000,
        daily_cap_remaining: 1_000_000,
        min_payout_threshold: 1000,
        initial_total_deposit: 2_000_000,
        investor_fee_share_bps: 5000,
        last_page_hash: [0; 32],
        pages_processed: 0,
        failed_payouts_count: 0,
        reserved: [0; 20],
    };
    assert!(!state.is_complete);
    assert_eq!(state.amount_distributed, 0);
    assert_eq!(state.current_cursor, 0);
    assert_eq!(state.investors_processed, 0);
    assert!(state.has_more_investors());
    assert_eq!(state.remaining_amount(), 100_000);
}

#[test]
fn test_distribution_progress_updates() {
    let mut state = create_test_daily_state();
    let page_hash = [1u8; 32];
    state.update_page_state(page_hash, 10, 5_000);
    assert_eq!(state.investors_processed, 10);
    assert_eq!(state.amount_distributed, 5_000);
    assert_eq!(state.current_cursor, 10);
    assert_eq!(state.pages_processed, 1);
    assert_eq!(state.last_page_hash, page_hash);
    assert_eq!(state.remaining_amount(), 95_000);

    let page_hash2 = [2u8; 32];
    state.update_page_state(page_hash2, 15, 7_500);
    assert_eq!(state.investors_processed, 25);
    assert_eq!(state.amount_distributed, 12_500);
    assert_eq!(state.current_cursor, 25);
    assert_eq!(state.pages_processed, 2);
    assert_eq!(state.last_page_hash, page_hash2);
}

#[test]
fn test_daily_cap_management() {
    let mut state = create_test_daily_state();
    assert!(state.can_distribute(500_000));
    assert!(!state.can_distribute(1_500_000));
    state.update_daily_cap(300_000);
    assert_eq!(state.daily_cap_remaining, 700_000);
    state.update_daily_cap(700_000);
    assert_eq!(state.daily_cap_remaining, 0);
    assert!(!state.can_distribute(1));
}

#[test]
fn test_dust_management() {
    let mut state = create_test_daily_state();
    state.add_dust(150);
    assert_eq!(state.dust_carried_over, 150);
    state.add_dust(75);
    assert_eq!(state.dust_carried_over, 225);
    let effective = state.get_effective_distribution_amount();
    assert_eq!(effective, 100_000 + 225);
}

#[test]
fn test_failed_payout_tracking() {
    let mut state = create_test_daily_state();
    assert!(!state.has_failed_payouts());
    state.add_failed_payouts(3);
    assert!(state.has_failed_payouts());
    assert_eq!(state.failed_payouts_count, 3);
    state.add_failed_payouts(2);
    assert_eq!(state.failed_payouts_count, 5);
}

#[test]
fn test_completion_state_transitions() {
    let mut state = create_test_daily_state();
    let completion_time = 1672617600i64;
    state.update_page_state([1u8; 32], 50, 50_000);
    assert!(!state.has_more_investors());
    state.mark_complete(completion_time);
    assert!(state.is_complete);
    assert_eq!(state.completed_at, completion_time);
}

#[test]
fn test_idempotency_page_validation() {
    let state = create_test_daily_state();
    let investor_accounts = vec![key(10), key(11), key(12)];
    let hash1 = DailyDistributionState::calculate_page_hash(&investor_accounts);
    let hash2 = DailyDistributionState::calculate_page_hash(&investor_accounts);
    assert_eq!(hash1, hash2);

    let different_accounts = vec![key(13), key(14)];
    let hash3 = DailyDistributionState::calculate_page_hash(&different_accounts);
    assert_ne!(hash1, hash3);

    assert!(!state.is_page_already_processed(&hash1));
    assert!(state.validate_page_for_retry(&investor_accounts).is_ok());
}

#[test]
fn test_policy_state_validation() {
    let mut policy = PolicyState {
        quote_mint: key(1),
        investor_fee_share_bps: 5000,
        daily_cap_lamports: 1_000_000,
        min_payout_lamports: 1000,
        y0_total_allocation: 2_000_000,
        policy_authority: key(2),
        reserved: [0; 64],
    };
    assert!(policy.validate().is_ok());
    policy.investor_fee_share_bps = 15000;
    assert!(policy.validate().is_err());
    policy.investor_fee_share_bps = 5000;
    policy.y0_total_allocation = 0;
    assert!(policy.validate().is_err());
}

#[test]
fn test_streamflow_stream_calculations() {
    let current_time = 1672531200u64;
    let stream = StreamflowStream {
        magic: 0,
        version: 1,
        created_at: current_time - 86400,
        start_time: current_time - 3600,
        end_time: current_time + 86400,
        deposited_amount: 100_000,
        withdrawn_amount: 0,
        recipient: key(1),
        sender: key(2),
        mint: key(3),
        escrow_tokens: key(4),
        name: [0; 64],
        can_cancel: true,
        can_transfer: false,
        cancelled: false,
        metadata: [0; 128],
    };
    let unlocked = stream.unlocked_amount(current_time);
    assert_eq!(unlocked, 4000);
    let locked = stream.locked_amount(current_time);
    assert_eq!(locked, 96_000);
    let withdrawable = stream.withdrawable_amount(current_time);
    assert_eq!(withdrawable, 4000);
    assert!(stream.is_active(current_time));
    assert!(!stream.is_fully_vested(current_time));

    let future_time = current_time + 90000;
    assert_eq!(stream.unlocked_amount(future_time), 100_000);
    assert_eq!(stream.locked_amount(future_time), 0);
    assert!(stream.is_fully_vested(future_time));
}

#[test]
fn day_start_rounds_down_including_before_the_epoch() {
    assert_eq!(DailyDistributionState::get_day_start(1672531200 + 5000), 1672531200);
    assert_eq!(DailyDistributionState::get_day_start(1672531200), 1672531200);
    assert_eq!(DailyDistributionState::get_day_start(-1), -86400);
    assert_eq!(DailyDistributionState::get_day_start(-86400), -86400);
    assert!(DailyDistributionState::can_start_new_distribution(1672531200 - 86400, 1672531200));
    assert!(!DailyDistributionState::can_start_new_distribution(1672531200, 1672531200 + 86399));
    assert!(!DailyDistributionState::can_start_new_distribution(0, i64::MIN));
}

#[test]
fn progress_counters_saturate() {
    let mut state = create_test_daily_state();
    state.amount_distributed = u64::MAX - 1;
    state.current_cursor = u32::MAX - 1;
    state.update_page_state([3u8; 32], 5, 10);
    assert_eq!(state.amount_distributed, u64::MAX);
    assert_eq!(state.current_cursor, u32::MAX);
    assert_eq!(state.remaining_amount(), 0);
    state.update_progress(1, 1, 7);
    assert_eq!(state.current_cursor, 7);
}

#[test]
fn global_history_rolls_up_a_day() {
    let mut global = GlobalDistributionState {
        quote_mint: key(1),
        last_distribution_day: 0,
        total_distributions: 2,
        total_amount_distributed: 500,
        distribution_in_progress: true,
        reserved: [0; 64],
    };
    global.update_after_distribution(1672531200, 250);
    assert_eq!(global.last_distribution_day, 1672531200);
    assert_eq!(global.total_distributions, 3);
    assert_eq!(global.total_amount_distributed, 750);
}

#[test]
fn policy_errors_are_typed() {
    let mut policy = PolicyState {
        quote_mint: key(1),
        investor_fee_share_bps: 10001,
        daily_cap_lamports: 0,
        min_payout_lamports: 0,
        y0_total_allocation: 1,
        policy_authority: key(2),
        reserved: [0; 64],
    };
    assert_eq!(policy.validate().unwrap_err(), FeeRouterError::InvalidFeeShareBps);
    policy.investor_fee_share_bps = 10000;
    policy.y0_total_allocation = 0;
    assert_eq!(policy.validate().unwrap_err(), FeeRouterError::InvalidTotalAllocation);
}

#[test]
fn page_hash_is_sha256_of_concatenated_keys() {
    let zero = Pubkey::new_from_array([0u8; 32]);
    let h = DailyDistributionState::calculate_page_hash(&[zero]);
    let expected: [u8; 32] = [
        0x66, 0x68, 0x7a, 0xad, 0xf8, 0x62, 0xbd, 0x77, 0x6c, 0x8f, 0xc1, 0x8b, 0x8e, 0x9f, 0x8e,
        0x20, 0x08, 0x97, 0x14, 0x85, 0x6e, 0xe2, 0x33, 0xb3, 0x90, 0x2a, 0x59, 0x1d, 0x0d, 0x5f,
        0x29, 0x25,
    ];
    assert_eq!(h, expected);
    let h2 = DailyDistributionState::calculate_page_hash(&[key(1), key(2)]);
    assert_eq!(h2[0], 0xf8);
    assert_eq!(h2[31], 0x4d);
}
