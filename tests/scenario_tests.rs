use meteora_fee_router::claiming::{claimed_quote_amount, initialize_treasury};
use meteora_fee_router::constants::MAX_INVESTORS_PER_PAGE;
use meteora_fee_router::distribution::{
    abort_daily_distribution, complete_daily_distribution, initialize_global_distribution, initialize_policy,
    process_investor_page, start_daily_distribution, DailyDistributionState,
    GlobalDistributionState, PolicyState,
};
use meteora_fee_router::errors::FeeRouterError;
use meteora_fee_router::runtime::Pubkey;
use meteora_fee_router::vesting::{StreamRead, StreamflowStream};

const DAY: i64 = 1672531200;
const NOW: i64 = DAY + 3600;

fn key(n: u8) -> Pubkey {
    Pubkey::new_from_array([n; 32])
}

/// A stream that starts later, so its whole deposit is still locked.
fn locked_read(n: u8, locked: u64) -> StreamRead {
    let now = NOW as u64;
    StreamRead {
        stream_account: key(n),
        stream: Some(StreamflowStream {
            magic: 0,
            version: 1,
            created_at: 0,
            start_time: now + 1000,
            end_time: now + 2000,
            deposited_amount: locked,
            withdrawn_amount: 0,
            recipient: key(n.wrapping_add(100)),
            sender: key(250),
            mint: key(251),
            escrow_tokens: key(252),
            name: [0; 64],
            can_cancel: false,
            can_transfer: false,
            cancelled: false,
            metadata: [0; 128],
        }),
        payout_account: Some(key(n.wrapping_add(200))),
    }
}

/// A stream that ended exactly now: nothing locked.
fn vested_read(n: u8, deposit: u64) -> StreamRead {
    let mut r = locked_read(n, deposit);
    if let Some(s) = r.stream.as_mut() {
        s.start_time = 0;
        s.end_time = NOW as u64;
    }
    r
}

fn setup(
    share_bps: u64,
    daily_cap: u64,
    min_payout: u64,
    y0: u64,
    balance: u64,
    investors: u32,
) -> (GlobalDistributionState, PolicyState, DailyDistributionState) {
    let mint = key(1);
    let mut global = initialize_global_distribution(mint, mint).unwrap();
    let policy = initialize_policy(mint, key(2), share_bps, daily_cap, min_payout, y0).unwrap();
    let day =
        start_daily_distribution(&mut global, &policy, mint, key(3), DAY, NOW, balance, investors)
            .unwrap();
    (global, policy, day)
}

#[test]
fn test_scenario_1_partial_locks() {
    let (mut global, _policy, mut day) = setup(5000, 0, 100, 2_000_000, 10_000, 3);
    let page = vec![locked_read(10, 300_000), locked_read(11, 500_000), locked_read(12, 200_000)];
    let outcome = process_investor_page(&mut day, &page, NOW as u64, MAX_INVESTORS_PER_PAGE).unwrap();
    assert_eq!(outcome.calculation.investor_fee_quote, 5000);
    let amounts: Vec<u64> = outcome.calculation.investor_payouts.iter().map(|p| p.payout_amount).collect();
    assert_eq!(amounts, vec![1500, 2500, 1000]);
    assert_eq!(outcome.calculation.investor_payouts[0].investor_ata, key(210));
    assert_eq!(outcome.calculation.creator_remainder, 5000);
    assert_eq!(outcome.amount_distributed, 5000);
    let paid: Vec<u64> = outcome.transfers.iter().map(|p| p.payout_amount).collect();
    assert_eq!(paid, vec![1500, 2500, 1000]);
    assert_eq!(day.amount_distributed, 5000);
    let creator = complete_daily_distribution(&mut day, &mut global, NOW + 60).unwrap();
    assert_eq!(creator, 5000);
    assert_eq!(global.total_amount_distributed, 10_000);
}

#[test]
fn test_scenario_2_all_unlocked() {
    let (mut global, _policy, mut day) = setup(5000, 0, 100, 1_000_000, 10_000, 2);
    let page = vec![vested_read(10, 400_000), vested_read(11, 600_000)];
    let outcome = process_investor_page(&mut day, &page, NOW as u64, MAX_INVESTORS_PER_PAGE).unwrap();
    assert_eq!(outcome.calculation.investor_fee_quote, 0);
    assert!(outcome.calculation.investor_payouts.is_empty());
    assert_eq!(outcome.calculation.creator_remainder, 10_000);
    assert_eq!(day.amount_distributed, 0);
    assert!(outcome.stream_errors.is_empty());
    let creator = complete_daily_distribution(&mut day, &mut global, NOW).unwrap();
    assert_eq!(creator, 10_000);
}

#[test]
fn test_scenario_3_dust_handling() {
    let (_global, _policy, mut day) = setup(10000, 0, 1, 1_000_000, 100, 3);
    let page = vec![locked_read(10, 333_333), locked_read(11, 333_333), locked_read(12, 333_334)];
    let outcome = process_investor_page(&mut day, &page, NOW as u64, MAX_INVESTORS_PER_PAGE).unwrap();
    let amounts: Vec<u64> = outcome.calculation.investor_payouts.iter().map(|p| p.payout_amount).collect();
    assert_eq!(amounts, vec![33, 33, 33]);
    assert_eq!(outcome.calculation.dust_amount, 1);
    assert_eq!(day.dust_carried_over, 1);
    assert_eq!(outcome.transfers.len(), 3);
    assert_eq!(day.get_effective_distribution_amount(), 101);
}

#[test]
fn test_scenario_4_daily_cap() {
    let (_global, _policy, mut day) = setup(5000, 1000, 1, 1_000_000, 3000, 3);
    assert_eq!(day.daily_cap_remaining, 1000);
    let page = vec![locked_read(10, 300_000), locked_read(11, 500_000), locked_read(12, 200_000)];
    let outcome = process_investor_page(&mut day, &page, NOW as u64, MAX_INVESTORS_PER_PAGE).unwrap();
    let amounts: Vec<u64> = outcome.calculation.investor_payouts.iter().map(|p| p.payout_amount).collect();
    assert_eq!(amounts, vec![299, 499, 199]);
    assert!(outcome.calculation.total_distributed <= 1000);
    assert_eq!(outcome.calculation.dust_amount, 3);
    assert_eq!(day.daily_cap_remaining, 3);
    assert_eq!(day.amount_distributed, 997);
}

#[test]
fn test_scenario_5_base_fee_detection() {
    let mint = key(1);
    let treasury = initialize_treasury(mint, mint, key(5), key(6)).unwrap();
    let before = format!("{:?}", treasury);
    let r = claimed_quote_amount(1_000, 1_500, 200, 201);
    assert_eq!(r.unwrap_err(), FeeRouterError::BaseFeesClaimedError);
    assert_eq!(format!("{:?}", treasury), before);
    assert_eq!(treasury.total_fees_claimed, 0);
    assert_eq!(treasury.claim_count, 0);
    assert_eq!(claimed_quote_amount(1_000, 1_500, 200, 200).unwrap(), 500);
    assert_eq!(claimed_quote_amount(1_000, 1_000, 200, 200).unwrap_err(), FeeRouterError::NoFeesToClaim);
}

#[test]
fn test_multi_page_distribution() {
    let (mut global, _policy, mut day) = setup(5000, 0, 1, 2_000_000, 10_000, 4);
    let page1 = vec![locked_read(10, 300_000), locked_read(11, 500_000)];
    let o1 = process_investor_page(&mut day, &page1, NOW as u64, 2).unwrap();
    assert_eq!(day.current_cursor, 2);
    assert_eq!(day.investors_processed, 2);
    assert_eq!(day.pages_processed, 1);
    assert_eq!(o1.calculation.investor_fee_quote, 4000);
    let page2 = vec![locked_read(12, 200_000), locked_read(13, 1_000_000)];
    let o2 = process_investor_page(&mut day, &page2, NOW as u64, 2).unwrap();
    assert_eq!(day.current_cursor, 4);
    assert_eq!(day.investors_processed, 4);
    assert_eq!(day.pages_processed, 2);
    assert_eq!(day.amount_distributed, o1.amount_distributed + o2.amount_distributed);
    assert!(!day.has_more_investors());
    let extra = vec![locked_read(14, 1)];
    assert_eq!(
        process_investor_page(&mut day, &extra, NOW as u64, 2).unwrap_err(),
        FeeRouterError::DistributionNotStarted
    );
    let creator = complete_daily_distribution(&mut day, &mut global, NOW).unwrap();
    assert_eq!(creator, day.get_effective_distribution_amount() - day.amount_distributed);
}

#[test]
fn test_pagination_idempotency() {
    let (_global, _policy, mut day) = setup(5000, 0, 1, 2_000_000, 10_000, 10);
    let page = vec![locked_read(10, 300_000), locked_read(11, 500_000)];
    process_investor_page(&mut day, &page, NOW as u64, MAX_INVESTORS_PER_PAGE).unwrap();
    let after_first = day;
    let again = process_investor_page(&mut day, &page, NOW as u64, MAX_INVESTORS_PER_PAGE);
    assert_eq!(again.unwrap_err(), FeeRouterError::PageAlreadyProcessed);
    assert_eq!(day.amount_distributed, after_first.amount_distributed);
    assert_eq!(day.current_cursor, after_first.current_cursor);
    assert_eq!(day.pages_processed, 1);
}

#[test]
fn test_full_lifecycle() {
    let mint = key(1);
    let mut global = initialize_global_distribution(mint, mint).unwrap();
    let policy = initialize_policy(mint, key(2), 5000, 0, 1, 2_000_000).unwrap();
    let mut day =
        start_daily_distribution(&mut global, &policy, mint, key(3), DAY, NOW, 10_000, 1).unwrap();
    assert!(global.distribution_in_progress);
    assert_eq!(day.daily_cap_remaining, u64::MAX);
    assert_eq!(
        start_daily_distribution(&mut global, &policy, mint, key(3), DAY, NOW, 10_000, 1).unwrap_err(),
        FeeRouterError::DistributionInProgress
    );
    assert_eq!(
        complete_daily_distribution(&mut day, &mut global, NOW).unwrap_err(),
        FeeRouterError::DistributionInProgress
    );
    process_investor_page(&mut day, &[locked_read(10, 1_000_000)], NOW as u64, 50).unwrap();
    let creator = complete_daily_distribution(&mut day, &mut global, NOW + 10).unwrap();
    assert_eq!(creator, 5000);
    assert!(day.is_complete);
    assert_eq!(day.completed_at, NOW + 10);
    assert_eq!(global.last_distribution_day, DAY);
    assert_eq!(global.total_distributions, 1);
    assert!(!global.distribution_in_progress);
    assert_eq!(
        complete_daily_distribution(&mut day, &mut global, NOW).unwrap_err(),
        FeeRouterError::DistributionAlreadyComplete
    );
    assert_eq!(
        start_daily_distribution(&mut global, &policy, mint, key(3), DAY, NOW, 10_000, 1).unwrap_err(),
        FeeRouterError::TooSoonToDistribute
    );
    let next = start_daily_distribution(&mut global, &policy, mint, key(3), DAY + 86400, NOW + 86400, 7, 1);
    assert_eq!(next.unwrap().total_amount_to_distribute, 7);
}

#[test]
fn start_refuses_wrong_day_and_empty_treasury() {
    let mint = key(1);
    let mut global = initialize_global_distribution(mint, mint).unwrap();
    let policy = initialize_policy(mint, key(2), 5000, 0, 1, 2_000_000).unwrap();
    assert_eq!(
        start_daily_distribution(&mut global, &policy, mint, key(3), DAY + 1, NOW, 1, 1).unwrap_err(),
        FeeRouterError::InvalidDistributionDay
    );
    assert_eq!(
        start_daily_distribution(&mut global, &policy, mint, key(3), DAY, NOW, 0, 1).unwrap_err(),
        FeeRouterError::EmptyTreasury
    );
    assert!(!global.distribution_in_progress);
    assert_eq!(
        initialize_global_distribution(mint, key(9)).unwrap_err(),
        FeeRouterError::QuoteMintMismatch
    );
    assert_eq!(
        initialize_policy(mint, key(2), 5000, 0, 1, 0).unwrap_err(),
        FeeRouterError::InvalidTotalAllocation
    );
}

#[test]
fn page_limits_are_enforced() {
    let (_global, _policy, mut day) = setup(5000, 0, 1, 2_000_000, 10_000, 2);
    let before = day;
    assert_eq!(
        process_investor_page(&mut day, &[], NOW as u64, 50).unwrap_err(),
        FeeRouterError::NoInvestors
    );
    let three = vec![locked_read(10, 1), locked_read(11, 1), locked_read(12, 1)];
    assert_eq!(
        process_investor_page(&mut day, &three, NOW as u64, 50).unwrap_err(),
        FeeRouterError::PaginationError
    );
    let two = vec![locked_read(10, 1), locked_read(11, 1)];
    assert_eq!(
        process_investor_page(&mut day, &two, NOW as u64, 1).unwrap_err(),
        FeeRouterError::PaginationError
    );
    assert_eq!(day.pages_processed, before.pages_processed);
    assert_eq!(day.last_page_hash, before.last_page_hash);
}

#[test]
fn failed_streams_are_counted_not_fatal() {
    let (_global, _policy, mut day) = setup(5000, 0, 1, 2_000_000, 10_000, 3);
    let broken = StreamRead { stream_account: key(30), stream: None, payout_account: None };
    let page = vec![locked_read(10, 1_000_000), broken];
    let outcome = process_investor_page(&mut day, &page, NOW as u64, 50).unwrap();
    assert_eq!(outcome.stream_errors.len(), 1);
    assert_eq!(day.failed_payouts_count, 1);
    assert_eq!(day.investors_processed, 2);
    assert_eq!(outcome.amount_distributed, 5000);
}

#[test]
fn abandoned_day_can_be_aborted_once_over() {
    let (mut global, policy, mut day) = setup(5000, 0, 1, 2_000_000, 10_000, 4);
    process_investor_page(&mut day, &[locked_read(10, 1_000_000)], NOW as u64, 50).unwrap();
    assert_eq!(
        abort_daily_distribution(&mut day, &mut global, NOW + 100).unwrap_err(),
        FeeRouterError::DistributionInProgress
    );
    assert_eq!(
        start_daily_distribution(&mut global, &policy, key(1), key(3), DAY + 86400, NOW + 86400, 5, 1)
            .unwrap_err(),
        FeeRouterError::DistributionInProgress
    );
    let creator = abort_daily_distribution(&mut day, &mut global, NOW + 86400).unwrap();
    assert_eq!(creator, 10_000 - 5000);
    assert!(day.is_complete);
    assert!(!global.distribution_in_progress);
    assert_eq!(global.last_distribution_day, DAY);
    assert_eq!(
        abort_daily_distribution(&mut day, &mut global, NOW + 86400).unwrap_err(),
        FeeRouterError::DistributionAlreadyComplete
    );
    let next =
        start_daily_distribution(&mut global, &policy, key(1), key(3), DAY + 86400, NOW + 86400, 5, 1);
    assert!(next.is_ok());
}
