//! The daily distribution state machine: policy, per-day and global records,
//! and the start, page and complete transitions.

use vstd::prelude::*;
use vstd::string::StringSliceAdditionalSpecFns;
use vstd::array::spec_array_fill_for_copy_type;
use crate::calculations::{
    DistributionCalculation,
    DistributionCalculationView,
    InvestorPayout,
    saturate,
    sat_add,
    sat_sub,
    sum_locked,
    spec_calculate_distribution,
    spec_apply_daily_cap,
    spec_distribution_valid,
    calculate_distribution,
    apply_daily_cap,
    validate_distribution,
};
use crate::constants::{
    POLICY_SEED,
    DAILY_DISTRIBUTION_SEED,
    GLOBAL_DISTRIBUTION_SEED,
};
use crate::errors::FeeRouterError;
use crate::runtime::{
    Pubkey,
    bytes32_eq,
    concat_key_bytes,
    key_bytes,
    sha256,
    sha256_digest,
    seed_views,
    is_program_address,
    find_program_address,
    str_seed,
    key_seed,
    decimal_seed,
    decimal_bytes,
};
use crate::vesting::{
    StreamRead,
    StreamError,
    spec_snapshots,
    spec_stream_failures,
    calculate_locked_amounts_with_errors,
};

verus! {

/// `a + b` for `u32`, or `u32::MAX` where the sum does not fit.
pub open spec fn sat_add32(a: u32, b: int) -> u32 {
    if a + b > u32::MAX {
        u32::MAX
    } else {
        (a + b) as u32
    }
}

/// Start of the day holding timestamp `t`: `floor(t / 86400) * 86400`.
pub open spec fn floor_day_start(t: int) -> int {
    (t / 86400) * 86400
}

pub open spec fn zeroed64() -> [u8; 64] {
    spec_array_fill_for_copy_type::<u8, 64>(0)
}

pub open spec fn zeroed32() -> [u8; 32] {
    spec_array_fill_for_copy_type::<u8, 32>(0)
}

pub open spec fn zeroed20() -> [u8; 20] {
    spec_array_fill_for_copy_type::<u8, 20>(0)
}

/// Distribution parameters for one quote mint, fixed once created.
#[derive(Clone, Copy, Debug)]
pub struct PolicyState {
    pub quote_mint: Pubkey,
    pub investor_fee_share_bps: u64,
    pub daily_cap_lamports: u64,
    pub min_payout_lamports: u64,
    pub y0_total_allocation: u64,
    pub policy_authority: Pubkey,
    pub reserved: [u8; 64],
}

impl PolicyState {
    pub open spec fn spec_validate(self) -> Result<(), FeeRouterError> {
        if self.investor_fee_share_bps > 10000 {
            Err(FeeRouterError::InvalidFeeShareBps)
        } else if self.y0_total_allocation == 0 {
            Err(FeeRouterError::InvalidTotalAllocation)
        } else {
            Ok(())
        }
    }

    /// A share within 10000 bps and a positive initial allocation.
    pub open spec fn wf(self) -> bool {
        self.spec_validate() is Ok
    }

    /// Program address of the policy record of `quote_mint`.
    pub fn derive_pda(quote_mint: &Pubkey, program_id: &Pubkey) -> (r: Option<(Pubkey, u8)>)
        ensures
            is_program_address(r, seq![POLICY_SEED.spec_bytes(), quote_mint.bytes@], *program_id),
    {
        let mut seeds: Vec<Vec<u8>> = Vec::new();
        seeds.push(str_seed(POLICY_SEED));
        seeds.push(key_seed(quote_mint));
        assert(seed_views(seeds@) =~= seq![POLICY_SEED.spec_bytes(), quote_mint.bytes@]);
        find_program_address(&seeds, program_id)
    }

    /// Refuses a share above 10000 bps and a zero initial allocation.
    pub fn validate(&self) -> (r: Result<(), FeeRouterError>)
        ensures
            r == self.spec_validate(),
    {
        if self.investor_fee_share_bps > 10000 {
            return Err(FeeRouterError::InvalidFeeShareBps);
        }
        if self.y0_total_allocation == 0 {
            return Err(FeeRouterError::InvalidTotalAllocation);
        }
        Ok(())
    }
}

/// Progress of one day's distribution for one quote mint.
#[derive(Clone, Copy, Debug)]
pub struct DailyDistributionState {
    pub distribution_day: i64,
    pub quote_mint: Pubkey,
    pub treasury_ata: Pubkey,
    pub total_amount_to_distribute: u64,
    pub amount_distributed: u64,
    pub current_cursor: u32,
    pub total_investors: u32,
    pub investors_processed: u32,
    pub is_complete: bool,
    pub started_at: i64,
    pub completed_at: i64,
    pub dust_carried_over: u64,
    pub daily_cap_total: u64,
    pub daily_cap_remaining: u64,
    pub min_payout_threshold: u64,
    pub initial_total_deposit: u64,
    pub investor_fee_share_bps: u64,
    pub last_page_hash: [u8; 32],
    pub pages_processed: u32,
    pub failed_payouts_count: u32,
    pub reserved: [u8; 20],
}

/// Start of the day holding `t`, computed without overflow.
fn day_start_wide(t: i64) -> (r: i128)
    ensures
        r == floor_day_start(t as int),
{
    if t >= 0 {
        let q = (t as u64) / 86400;
        assert(q * 86400 <= t) by (nonlinear_arith)
            requires
                q == t / 86400,
                t >= 0,
        ;
        (q as i128) * 86400
    } else {
        let m = (-(t as i128)) as u64;
        let q = (m + 86399) / 86400;
        assert(floor_day_start(t as int) == -(q * 86400)) by (nonlinear_arith)
            requires
                m == -t,
                m > 0,
                q == (m + 86399) / 86400,
        ;
        -((q as i128) * 86400)
    }
}

impl DailyDistributionState {
    /// Everything this day may hand out: the snapshotted balance plus carried dust.
    pub open spec fn spec_effective_amount(self) -> u64 {
        sat_add(self.total_amount_to_distribute, self.dust_carried_over)
    }

    /// No more investors processed than exist, and no more paid out than the
    /// effective amount.
    pub open spec fn wf(self) -> bool {
        &&& self.investors_processed <= self.total_investors
        &&& self.amount_distributed <= self.spec_effective_amount()
    }

    /// Program address of the record of `distribution_day` for `quote_mint`;
    /// the day enters the seeds as decimal text.
    pub fn derive_pda(distribution_day: i64, quote_mint: &Pubkey, program_id: &Pubkey) -> (r: Option<
        (Pubkey, u8),
    >)
        ensures
            is_program_address(
                r,
                seq![
                    DAILY_DISTRIBUTION_SEED.spec_bytes(),
                    decimal_bytes(distribution_day as int),
                    quote_mint.bytes@,
                ],
                *program_id,
            ),
    {
        let mut seeds: Vec<Vec<u8>> = Vec::new();
        seeds.push(str_seed(DAILY_DISTRIBUTION_SEED));
        seeds.push(decimal_seed(distribution_day));
        seeds.push(key_seed(quote_mint));
        assert(seed_views(seeds@) =~= seq![
            DAILY_DISTRIBUTION_SEED.spec_bytes(),
            decimal_bytes(distribution_day as int),
            quote_mint.bytes@,
        ]);
        find_program_address(&seeds, program_id)
    }

    /// Start of the day holding `timestamp`, rounding down.
    pub fn get_day_start(timestamp: i64) -> (r: i64)
        requires
            floor_day_start(timestamp as int) >= i64::MIN,
        ensures
            r == floor_day_start(timestamp as int),
    {
        day_start_wide(timestamp) as i64
    }

    /// Whether the day of `current_timestamp` lies after `last_distribution_day`.
    pub fn can_start_new_distribution(last_distribution_day: i64, current_timestamp: i64) -> (r: bool)
        ensures
            r == (floor_day_start(current_timestamp as int) > last_distribution_day),
    {
        day_start_wide(current_timestamp) > last_distribution_day as i128
    }

    /// Adds to the processed count and the amount paid, and moves the cursor.
    pub fn update_progress(&mut self, investors_processed: u32, amount_distributed: u64, new_cursor: u32)
        ensures
            *final(self) == (DailyDistributionState {
                investors_processed: sat_add32(old(self).investors_processed, investors_processed as int),
                amount_distributed: sat_add(old(self).amount_distributed, amount_distributed),
                current_cursor: new_cursor,
                ..*old(self)
            }),
    {
        self.investors_processed = self.investors_processed.saturating_add(investors_processed);
        self.amount_distributed = self.amount_distributed.saturating_add(amount_distributed);
        self.current_cursor = new_cursor;
    }

    /// Latches the day as complete at `timestamp`.
    pub fn mark_complete(&mut self, timestamp: i64)
        ensures
            *final(self) == (DailyDistributionState {
                is_complete: true,
                completed_at: timestamp,
                ..*old(self)
            }),
    {
        self.is_complete = true;
        self.completed_at = timestamp;
    }

    /// Snapshotted balance not yet paid out, or 0.
    pub fn remaining_amount(&self) -> (r: u64)
        ensures
            r == sat_sub(self.total_amount_to_distribute, self.amount_distributed),
    {
        self.total_amount_to_distribute.saturating_sub(self.amount_distributed)
    }

    pub fn has_more_investors(&self) -> (r: bool)
        ensures
            r == (self.investors_processed < self.total_investors),
    {
        self.investors_processed < self.total_investors
    }

    /// Lowers the remaining daily cap by `amount_distributed`, not below 0.
    pub fn update_daily_cap(&mut self, amount_distributed: u64)
        ensures
            *final(self) == (DailyDistributionState {
                daily_cap_remaining: sat_sub(old(self).daily_cap_remaining, amount_distributed),
                ..*old(self)
            }),
    {
        self.daily_cap_remaining = self.daily_cap_remaining.saturating_sub(amount_distributed);
    }

    /// Carries `dust_amount` over to later pages.
    pub fn add_dust(&mut self, dust_amount: u64)
        ensures
            *final(self) == (DailyDistributionState {
                dust_carried_over: sat_add(old(self).dust_carried_over, dust_amount),
                ..*old(self)
            }),
    {
        self.dust_carried_over = self.dust_carried_over.saturating_add(dust_amount);
    }

    pub fn can_distribute(&self, amount: u64) -> (r: bool)
        ensures
            r == (amount <= self.daily_cap_remaining),
    {
        amount <= self.daily_cap_remaining
    }

    pub fn get_effective_distribution_amount(&self) -> (r: u64)
        ensures
            r == self.spec_effective_amount(),
    {
        self.total_amount_to_distribute.saturating_add(self.dust_carried_over)
    }

    /// SHA-256 of the page's addresses, concatenated in order.
    pub fn calculate_page_hash(investor_accounts: &[Pubkey]) -> (r: [u8; 32])
        ensures
            r == spec_page_hash(investor_accounts@),
    {
        let data = concat_key_bytes(investor_accounts);
        sha256(&data)
    }

    pub fn is_page_already_processed(&self, page_hash: &[u8; 32]) -> (r: bool)
        ensures
            r == (self.last_page_hash@ == page_hash@),
    {
        bytes32_eq(&self.last_page_hash, page_hash)
    }

    /// Records a processed page: its hash, one more page, and the progress.
    pub fn update_page_state(&mut self, page_hash: [u8; 32], investors_in_page: u32, amount_distributed: u64)
        ensures
            *final(self) == (DailyDistributionState {
                last_page_hash: page_hash,
                pages_processed: sat_add32(old(self).pages_processed, 1),
                investors_processed: sat_add32(old(self).investors_processed, investors_in_page as int),
                amount_distributed: sat_add(old(self).amount_distributed, amount_distributed),
                current_cursor: sat_add32(old(self).current_cursor, investors_in_page as int),
                ..*old(self)
            }),
    {
        self.last_page_hash = page_hash;
        self.pages_processed = self.pages_processed.saturating_add(1);
        let new_cursor = self.current_cursor.saturating_add(investors_in_page);
        self.update_progress(investors_in_page, amount_distributed, new_cursor);
    }

    pub fn add_failed_payouts(&mut self, failed_count: u32)
        ensures
            *final(self) == (DailyDistributionState {
                failed_payouts_count: sat_add32(old(self).failed_payouts_count, failed_count as int),
                ..*old(self)
            }),
    {
        self.failed_payouts_count = self.failed_payouts_count.saturating_add(failed_count);
    }

    pub fn has_failed_payouts(&self) -> (r: bool)
        ensures
            r == (self.failed_payouts_count > 0),
    {
        self.failed_payouts_count > 0
    }

    /// Refuses a page whose hash equals that of the page processed last.
    pub fn validate_page_for_retry(&self, investor_accounts: &[Pubkey]) -> (r: Result<(), FeeRouterError>)
        ensures
            r == (if self.last_page_hash@ == spec_page_hash(investor_accounts@)@ {
                Err(FeeRouterError::PageAlreadyProcessed)
            } else {
                Ok::<(), FeeRouterError>(())
            }),
    {
        let page_hash = Self::calculate_page_hash(investor_accounts);
        if self.is_page_already_processed(&page_hash) {
            return Err(FeeRouterError::PageAlreadyProcessed);
        }
        Ok(())
    }
}

/// The idempotency digest of a page of addresses.
pub open spec fn spec_page_hash(keys: Seq<Pubkey>) -> [u8; 32] {
    sha256_digest(key_bytes(keys))
}

/// Distribution history of one quote mint.
#[derive(Clone, Copy, Debug)]
pub struct GlobalDistributionState {
    pub quote_mint: Pubkey,
    pub last_distribution_day: i64,
    pub total_distributions: u64,
    pub total_amount_distributed: u64,
    pub distribution_in_progress: bool,
    pub reserved: [u8; 64],
}

impl GlobalDistributionState {
    /// Program address of the global record of `quote_mint`.
    pub fn derive_pda(quote_mint: &Pubkey, program_id: &Pubkey) -> (r: Option<(Pubkey, u8)>)
        ensures
            is_program_address(
                r,
                seq![GLOBAL_DISTRIBUTION_SEED.spec_bytes(), quote_mint.bytes@],
                *program_id,
            ),
    {
        let mut seeds: Vec<Vec<u8>> = Vec::new();
        seeds.push(str_seed(GLOBAL_DISTRIBUTION_SEED));
        seeds.push(key_seed(quote_mint));
        assert(seed_views(seeds@) =~= seq![GLOBAL_DISTRIBUTION_SEED.spec_bytes(), quote_mint.bytes@]);
        find_program_address(&seeds, program_id)
    }

    /// Rolls a completed day into the history.
    pub fn update_after_distribution(&mut self, distribution_day: i64, amount_distributed: u64)
        ensures
            *final(self) == (GlobalDistributionState {
                last_distribution_day: distribution_day,
                total_distributions: sat_add(old(self).total_distributions, 1),
                total_amount_distributed: sat_add(old(self).total_amount_distributed, amount_distributed),
                ..*old(self)
            }),
    {
        self.last_distribution_day = distribution_day;
        self.total_distributions = self.total_distributions.saturating_add(1);
        self.total_amount_distributed = self.total_amount_distributed.saturating_add(amount_distributed);
    }
}

/// Creates a policy, refusing an invalid share or allocation.
pub fn initialize_policy(
    quote_mint: Pubkey,
    policy_authority: Pubkey,
    investor_fee_share_bps: u64,
    daily_cap_lamports: u64,
    min_payout_lamports: u64,
    y0_total_allocation: u64,
) -> (r: Result<PolicyState, FeeRouterError>)
    ensures
        match r {
            Ok(p) => p == (PolicyState {
                quote_mint,
                investor_fee_share_bps,
                daily_cap_lamports,
                min_payout_lamports,
                y0_total_allocation,
                policy_authority,
                reserved: zeroed64(),
            }) && p.wf(),
            Err(e) => (PolicyState {
                quote_mint,
                investor_fee_share_bps,
                daily_cap_lamports,
                min_payout_lamports,
                y0_total_allocation,
                policy_authority,
                reserved: zeroed64(),
            }).spec_validate() == Err::<(), FeeRouterError>(e),
        },
{
    let policy = PolicyState {
        quote_mint,
        investor_fee_share_bps,
        daily_cap_lamports,
        min_payout_lamports,
        y0_total_allocation,
        policy_authority,
        reserved: [0u8; 64],
    };
    match policy.validate() {
        Ok(()) => Ok(policy),
        Err(e) => Err(e),
    }
}

/// Creates the distribution history of `quote_mint`; the mint account given
/// must be that mint.
pub fn initialize_global_distribution(quote_mint: Pubkey, quote_mint_account: Pubkey) -> (r: Result<
    GlobalDistributionState,
    FeeRouterError,
>)
    ensures
        match r {
            Ok(g) => quote_mint.bytes@ == quote_mint_account.bytes@ && g == (GlobalDistributionState {
                quote_mint,
                last_distribution_day: 0,
                total_distributions: 0,
                total_amount_distributed: 0,
                distribution_in_progress: false,
                reserved: zeroed64(),
            }),
            Err(e) => quote_mint.bytes@ != quote_mint_account.bytes@ && e
                == FeeRouterError::QuoteMintMismatch,
        },
{
    if quote_mint != quote_mint_account {
        return Err(FeeRouterError::QuoteMintMismatch);
    }
    Ok(
        GlobalDistributionState {
            quote_mint,
            last_distribution_day: 0,
            total_distributions: 0,
            total_amount_distributed: 0,
            distribution_in_progress: false,
            reserved: [0u8; 64],
        },
    )
}

/// A fresh day record: the policy snapshotted, a zero daily cap read as no
/// cap, every counter at zero.
pub open spec fn fresh_daily_state(
    policy: PolicyState,
    quote_mint: Pubkey,
    treasury_ata: Pubkey,
    distribution_day: i64,
    now: i64,
    treasury_balance: u64,
    total_investors: u32,
) -> DailyDistributionState {
    DailyDistributionState {
        distribution_day,
        quote_mint,
        treasury_ata,
        total_amount_to_distribute: treasury_balance,
        amount_distributed: 0,
        current_cursor: 0,
        total_investors,
        investors_processed: 0,
        is_complete: false,
        started_at: now,
        completed_at: 0,
        dust_carried_over: 0,
        daily_cap_total: policy.daily_cap_lamports,
        daily_cap_remaining: if policy.daily_cap_lamports == 0 {
            u64::MAX
        } else {
            policy.daily_cap_lamports
        },
        min_payout_threshold: policy.min_payout_lamports,
        initial_total_deposit: policy.y0_total_allocation,
        investor_fee_share_bps: policy.investor_fee_share_bps,
        last_page_hash: zeroed32(),
        pages_processed: 0,
        failed_payouts_count: 0,
        reserved: zeroed20(),
    }
}

/// Starting a day: refused while another day is open, under an invalid
/// policy, for a day other than today, when today is not after the last
/// distribution day, or with an empty treasury. Otherwise the history is
/// marked as having a day open and a fresh day record is created.
pub open spec fn start_transition(
    global: GlobalDistributionState,
    policy: PolicyState,
    quote_mint: Pubkey,
    treasury_ata: Pubkey,
    distribution_day: i64,
    now: i64,
    treasury_balance: u64,
    total_investors: u32,
) -> Result<(GlobalDistributionState, DailyDistributionState), FeeRouterError> {
    if global.distribution_in_progress {
        Err(FeeRouterError::DistributionInProgress)
    } else if policy.spec_validate() is Err {
        Err(policy.spec_validate()->Err_0)
    } else if distribution_day != floor_day_start(now as int) {
        Err(FeeRouterError::InvalidDistributionDay)
    } else if !(floor_day_start(now as int) > global.last_distribution_day) {
        Err(FeeRouterError::TooSoonToDistribute)
    } else if treasury_balance == 0 {
        Err(FeeRouterError::EmptyTreasury)
    } else {
        Ok(
            (
                GlobalDistributionState { distribution_in_progress: true, ..global },
                fresh_daily_state(
                    policy,
                    quote_mint,
                    treasury_ata,
                    distribution_day,
                    now,
                    treasury_balance,
                    total_investors,
                ),
            ),
        )
    }
}

/// Opens the distribution of `distribution_day`, snapshotting
/// `treasury_balance` as the amount to distribute.
pub fn start_daily_distribution(
    global: &mut GlobalDistributionState,
    policy: &PolicyState,
    quote_mint: Pubkey,
    treasury_ata: Pubkey,
    distribution_day: i64,
    now: i64,
    treasury_balance: u64,
    total_investors: u32,
) -> (r: Result<DailyDistributionState, FeeRouterError>)
    ensures
        match r {
            Ok(day) => start_transition(
                *old(global),
                *policy,
                quote_mint,
                treasury_ata,
                distribution_day,
                now,
                treasury_balance,
                total_investors,
            ) == Ok::<(GlobalDistributionState, DailyDistributionState), FeeRouterError>(
                (*final(global), day),
            ) && day.wf(),
            Err(e) => start_transition(
                *old(global),
                *policy,
                quote_mint,
                treasury_ata,
                distribution_day,
                now,
                treasury_balance,
                total_investors,
            ) == Err::<(GlobalDistributionState, DailyDistributionState), FeeRouterError>(e)
                && *final(global) == *old(global),
        },
{
    if global.distribution_in_progress {
        return Err(FeeRouterError::DistributionInProgress);
    }
    match policy.validate() {
        Ok(()) => {},
        Err(e) => {
            return Err(e);
        },
    }
    let today = day_start_wide(now);
    if distribution_day as i128 != today {
        return Err(FeeRouterError::InvalidDistributionDay);
    }
    if !DailyDistributionState::can_start_new_distribution(global.last_distribution_day, now) {
        return Err(FeeRouterError::TooSoonToDistribute);
    }
    if treasury_balance == 0 {
        return Err(FeeRouterError::EmptyTreasury);
    }
    let daily_cap_remaining = if policy.daily_cap_lamports == 0 {
        u64::MAX
    } else {
        policy.daily_cap_lamports
    };
    let day = DailyDistributionState {
        distribution_day,
        quote_mint,
        treasury_ata,
        total_amount_to_distribute: treasury_balance,
        amount_distributed: 0,
        current_cursor: 0,
        total_investors,
        investors_processed: 0,
        is_complete: false,
        started_at: now,
        completed_at: 0,
        dust_carried_over: 0,
        daily_cap_total: policy.daily_cap_lamports,
        daily_cap_remaining,
        min_payout_threshold: policy.min_payout_lamports,
        initial_total_deposit: policy.y0_total_allocation,
        investor_fee_share_bps: policy.investor_fee_share_bps,
        last_page_hash: [0u8; 32],
        pages_processed: 0,
        failed_payouts_count: 0,
        reserved: [0u8; 20],
    };
    global.distribution_in_progress = true;
    Ok(day)
}

/// The addresses of a page's stream accounts, in order.
pub open spec fn spec_page_keys(reads: Seq<StreamRead>) -> Seq<Pubkey> {
    reads.map_values(|r: StreamRead| r.stream_account)
}

/// Why a page is refused before any stream is read, if it is: the day is
/// complete, no investors remain, the page is empty, larger than the page
/// limit or than the investors that remain, or repeats the page processed last.
pub open spec fn spec_page_rejection(
    s: DailyDistributionState,
    reads: Seq<StreamRead>,
    max_page_size: u32,
) -> Option<FeeRouterError> {
    if s.is_complete {
        Some(FeeRouterError::DistributionAlreadyComplete)
    } else if !(s.investors_processed < s.total_investors) {
        Some(FeeRouterError::DistributionNotStarted)
    } else if reads.len() == 0 {
        Some(FeeRouterError::NoInvestors)
    } else if reads.len() > max_page_size || reads.len() > s.total_investors - s.investors_processed {
        Some(FeeRouterError::PaginationError)
    } else if s.last_page_hash@ == spec_page_hash(spec_page_keys(reads))@ {
        Some(FeeRouterError::PageAlreadyProcessed)
    } else {
        None
    }
}

/// The capped and validated distribution of a page: the day's effective
/// amount split over the page's snapshots, held to the remaining daily cap.
pub open spec fn spec_page_calculation(
    s: DailyDistributionState,
    reads: Seq<StreamRead>,
    now: u64,
) -> Result<DistributionCalculationView, FeeRouterError> {
    let ds = spec_snapshots(reads, now);
    match spec_calculate_distribution(
        s.spec_effective_amount(),
        ds,
        saturate(sum_locked(ds)) as u64,
        s.initial_total_deposit,
        s.investor_fee_share_bps,
        s.min_payout_threshold,
    ) {
        Err(e) => Err(e),
        Ok(c) => {
            let capped = spec_apply_daily_cap(c, s.daily_cap_remaining);
            if spec_distribution_valid(capped, s.spec_effective_amount()) {
                Ok(capped)
            } else {
                Err(FeeRouterError::InvalidDistribution)
            }
        },
    }
}

/// What a line pays out: its amount where positive and above the minimum.
pub open spec fn paid_amount(p: InvestorPayout) -> int {
    if p.payout_amount > 0 && p.meets_minimum {
        p.payout_amount as int
    } else {
        0
    }
}

/// The lines that pay out, in order.
pub open spec fn paid_lines(ps: Seq<InvestorPayout>) -> Seq<InvestorPayout>
    decreases ps.len(),
{
    if ps.len() == 0 {
        Seq::empty()
    } else if paid_amount(ps.last()) > 0 {
        paid_lines(ps.drop_last()).push(ps.last())
    } else {
        paid_lines(ps.drop_last())
    }
}

pub open spec fn sum_paid(ps: Seq<InvestorPayout>) -> int
    decreases ps.len(),
{
    if ps.len() == 0 {
        0
    } else {
        sum_paid(ps.drop_last()) + paid_amount(ps.last())
    }
}

/// Processing one page. After the checks of `spec_page_rejection` and
/// `spec_page_calculation`, a page that would pay out more than the day's
/// effective amount is refused. Otherwise the page's hash is recorded, the
/// cursor and the processed count advance by the page's size, the paid
/// amount is added to what was distributed and taken from the daily cap, the
/// dust is carried over, and the failed streams are counted.
pub open spec fn page_transition(
    s: DailyDistributionState,
    reads: Seq<StreamRead>,
    now: u64,
    max_page_size: u32,
) -> Result<DailyDistributionState, FeeRouterError> {
    match spec_page_rejection(s, reads, max_page_size) {
        Some(e) => Err(e),
        None => match spec_page_calculation(s, reads, now) {
            Err(e) => Err(e),
            Ok(c) => {
                let paid = saturate(sum_paid(c.investor_payouts)) as u64;
                let n = reads.len() as int;
                let dust = sat_add(s.dust_carried_over, c.dust_amount);
                let distributed = sat_add(s.amount_distributed, paid);
                if distributed > sat_add(s.total_amount_to_distribute, dust) {
                    Err(FeeRouterError::InvalidDistribution)
                } else {
                    Ok(
                        DailyDistributionState {
                            last_page_hash: spec_page_hash(spec_page_keys(reads)),
                            pages_processed: sat_add32(s.pages_processed, 1),
                            investors_processed: sat_add32(s.investors_processed, n),
                            amount_distributed: distributed,
                            current_cursor: sat_add32(s.current_cursor, n),
                            daily_cap_remaining: sat_sub(s.daily_cap_remaining, paid),
                            dust_carried_over: dust,
                            failed_payouts_count: sat_add32(
                                s.failed_payouts_count,
                                spec_stream_failures(reads, now).len() as int,
                            ),
                            ..s
                        },
                    )
                }
            },
        },
    }
}

/// The result of a processed page: its capped distribution (the lines to pay
/// are those with a positive amount that meet the minimum), the amount they
/// pay in all, and the streams that could not be used.
#[derive(Debug)]
pub struct PageOutcome {
    pub calculation: DistributionCalculation,
    pub transfers: Vec<InvestorPayout>,
    pub amount_distributed: u64,
    pub stream_errors: Vec<StreamError>,
}

/// Processes one page of vesting streams for the open day. A refused page
/// leaves the day record as it was.
pub fn process_investor_page(
    state: &mut DailyDistributionState,
    stream_reads: &[StreamRead],
    current_timestamp: u64,
    max_page_size: u32,
) -> (r: Result<PageOutcome, FeeRouterError>)
    ensures
        match r {
            Ok(o) => {
                &&& page_transition(*old(state), stream_reads@, current_timestamp, max_page_size)
                    == Ok::<DailyDistributionState, FeeRouterError>(*final(state))
                &&& spec_page_calculation(*old(state), stream_reads@, current_timestamp) == Ok::<
                    DistributionCalculationView,
                    FeeRouterError,
                >(o.calculation@)
                &&& o.amount_distributed == saturate(sum_paid(o.calculation@.investor_payouts))
                &&& o.transfers@ == paid_lines(o.calculation@.investor_payouts)
                &&& o.stream_errors@.len() == spec_stream_failures(
                    stream_reads@,
                    current_timestamp,
                ).len()
                &&& forall|i: int|
                    0 <= i < o.stream_errors@.len() ==> (#[trigger] o.stream_errors@[i]).failure()
                        == spec_stream_failures(stream_reads@, current_timestamp)[i]
            },
            Err(e) => page_transition(*old(state), stream_reads@, current_timestamp, max_page_size)
                == Err::<DailyDistributionState, FeeRouterError>(e) && *final(state) == *old(state),
        },
        old(state).wf() ==> final(state).wf(),
{
    if state.is_complete {
        return Err(FeeRouterError::DistributionAlreadyComplete);
    }
    if !state.has_more_investors() {
        return Err(FeeRouterError::DistributionNotStarted);
    }
    let n = stream_reads.len();
    if n == 0 {
        return Err(FeeRouterError::NoInvestors);
    }
    let remaining = state.total_investors - state.investors_processed;
    if n > max_page_size as usize || n > remaining as usize {
        return Err(FeeRouterError::PaginationError);
    }
    let mut keys: Vec<Pubkey> = Vec::new();
    let mut i: usize = 0;
    while i < n
        invariant
            n == stream_reads@.len(),
            0 <= i <= n,
            keys@ == spec_page_keys(stream_reads@.subrange(0, i as int)),
        decreases n - i,
    {
        keys.push(stream_reads[i].stream_account);
        assert(spec_page_keys(stream_reads@.subrange(0, i + 1)) =~= spec_page_keys(
            stream_reads@.subrange(0, i as int),
        ).push(stream_reads@[i as int].stream_account));
        i = i + 1;
    }
    assert(stream_reads@.subrange(0, n as int) == stream_reads@);
    let page_hash = DailyDistributionState::calculate_page_hash(keys.as_slice());
    if state.is_page_already_processed(&page_hash) {
        return Err(FeeRouterError::PageAlreadyProcessed);
    }
    let (investor_data, total_locked, stream_errors) = calculate_locked_amounts_with_errors(
        stream_reads,
        current_timestamp,
    );
    let effective = state.get_effective_distribution_amount();
    let calculation = match calculate_distribution(
        effective,
        investor_data.as_slice(),
        total_locked,
        state.initial_total_deposit,
        state.investor_fee_share_bps,
        state.min_payout_threshold,
    ) {
        Ok(c) => c,
        Err(e) => {
            return Err(e);
        },
    };
    let capped = apply_daily_cap(calculation, state.daily_cap_remaining);
    match validate_distribution(&capped, effective) {
        Ok(()) => {},
        Err(e) => {
            return Err(e);
        },
    }
    let m = capped.investor_payouts.len();
    let mut paid: u64 = 0;
    let mut transfers: Vec<InvestorPayout> = Vec::new();
    let mut j: usize = 0;
    while j < m
        invariant
            m == capped.investor_payouts@.len(),
            0 <= j <= m,
            paid == saturate(sum_paid(capped.investor_payouts@.subrange(0, j as int))),
            transfers@ == paid_lines(capped.investor_payouts@.subrange(0, j as int)),
        decreases m - j,
    {
        let p = capped.investor_payouts[j];
        proof {
            let pre = capped.investor_payouts@.subrange(0, j as int);
            let next = capped.investor_payouts@.subrange(0, j + 1);
            assert(next.drop_last() == pre);
            lemma_sum_paid_nonneg(pre);
        }
        if p.payout_amount > 0 && p.meets_minimum {
            paid = paid.saturating_add(p.payout_amount);
            transfers.push(p);
        }
        j = j + 1;
    }
    assert(capped.investor_payouts@.subrange(0, m as int) == capped.investor_payouts@);
    let dust_after = state.dust_carried_over.saturating_add(capped.dust_amount);
    let distributed_after = state.amount_distributed.saturating_add(paid);
    if distributed_after > state.total_amount_to_distribute.saturating_add(dust_after) {
        return Err(FeeRouterError::InvalidDistribution);
    }
    let failed: u32 = if stream_errors.len() > u32::MAX as usize {
        u32::MAX
    } else {
        stream_errors.len() as u32
    };
    state.update_page_state(page_hash, n as u32, paid);
    state.update_daily_cap(paid);
    state.add_dust(capped.dust_amount);
    state.add_failed_payouts(failed);
    Ok(PageOutcome { calculation: capped, transfers, amount_distributed: paid, stream_errors })
}

pub proof fn lemma_sum_paid_nonneg(ps: Seq<InvestorPayout>)
    ensures
        sum_paid(ps) >= 0,
    decreases ps.len(),
{
    if ps.len() > 0 {
        lemma_sum_paid_nonneg(ps.drop_last());
    }
}

/// Closing a day at `now`: it is latched complete, the creator receives the
/// effective amount less what investors were paid, and the history records
/// the day, one more distribution and the effective amount.
pub open spec fn close_day(
    s: DailyDistributionState,
    global: GlobalDistributionState,
    now: i64,
) -> (DailyDistributionState, GlobalDistributionState, u64) {
    let effective = s.spec_effective_amount();
    (
        DailyDistributionState { is_complete: true, completed_at: now, ..s },
        GlobalDistributionState {
            last_distribution_day: s.distribution_day,
            total_distributions: sat_add(global.total_distributions, 1),
            total_amount_distributed: sat_add(global.total_amount_distributed, effective),
            distribution_in_progress: false,
            ..global
        },
        sat_sub(effective, s.amount_distributed),
    )
}

/// Completing a day: refused when already complete or while investors
/// remain; otherwise the day is closed.
pub open spec fn complete_transition(
    s: DailyDistributionState,
    global: GlobalDistributionState,
    now: i64,
) -> Result<(DailyDistributionState, GlobalDistributionState, u64), FeeRouterError> {
    if s.is_complete {
        Err(FeeRouterError::DistributionAlreadyComplete)
    } else if s.investors_processed < s.total_investors {
        Err(FeeRouterError::DistributionInProgress)
    } else {
        Ok(close_day(s, global, now))
    }
}

/// Aborting a day: refused when already complete or while its calendar day
/// has not yet passed; otherwise the day is closed as it stands, investors
/// not yet processed receiving nothing for it.
pub open spec fn abort_transition(
    s: DailyDistributionState,
    global: GlobalDistributionState,
    now: i64,
) -> Result<(DailyDistributionState, GlobalDistributionState, u64), FeeRouterError> {
    if s.is_complete {
        Err(FeeRouterError::DistributionAlreadyComplete)
    } else if !(floor_day_start(now as int) > s.distribution_day) {
        Err(FeeRouterError::DistributionInProgress)
    } else {
        Ok(close_day(s, global, now))
    }
}

fn close_day_in_place(
    state: &mut DailyDistributionState,
    global: &mut GlobalDistributionState,
    now: i64,
) -> (r: u64)
    ensures
        (*final(state), *final(global), r) == close_day(*old(state), *old(global), now),
{
    let effective = state.get_effective_distribution_amount();
    let creator_remainder = effective.saturating_sub(state.amount_distributed);
    state.mark_complete(now);
    global.update_after_distribution(state.distribution_day, effective);
    global.distribution_in_progress = false;
    creator_remainder
}

/// Closes a day left open after its calendar day has passed, so that the
/// next day can start; returns the creator's remainder. A refused call
/// changes neither record.
pub fn abort_daily_distribution(
    state: &mut DailyDistributionState,
    global: &mut GlobalDistributionState,
    now: i64,
) -> (r: Result<u64, FeeRouterError>)
    ensures
        match r {
            Ok(creator_remainder) => abort_transition(*old(state), *old(global), now) == Ok::<
                (DailyDistributionState, GlobalDistributionState, u64),
                FeeRouterError,
            >((*final(state), *final(global), creator_remainder)),
            Err(e) => abort_transition(*old(state), *old(global), now) == Err::<
                (DailyDistributionState, GlobalDistributionState, u64),
                FeeRouterError,
            >(e) && *final(state) == *old(state) && *final(global) == *old(global),
        },
        old(state).wf() ==> final(state).wf(),
{
    if state.is_complete {
        return Err(FeeRouterError::DistributionAlreadyComplete);
    }
    if day_start_wide(now) <= state.distribution_day as i128 {
        return Err(FeeRouterError::DistributionInProgress);
    }
    Ok(close_day_in_place(state, global, now))
}

/// Closes the day once every investor is processed; returns the creator's
/// remainder. A refused call changes neither record.
pub fn complete_daily_distribution(
    state: &mut DailyDistributionState,
    global: &mut GlobalDistributionState,
    now: i64,
) -> (r: Result<u64, FeeRouterError>)
    ensures
        match r {
            Ok(creator_remainder) => complete_transition(*old(state), *old(global), now) == Ok::<
                (DailyDistributionState, GlobalDistributionState, u64),
                FeeRouterError,
            >((*final(state), *final(global), creator_remainder)),
            Err(e) => complete_transition(*old(state), *old(global), now) == Err::<
                (DailyDistributionState, GlobalDistributionState, u64),
                FeeRouterError,
            >(e) && *final(state) == *old(state) && *final(global) == *old(global),
        },
        old(state).wf() ==> final(state).wf(),
{
    if state.is_complete {
        return Err(FeeRouterError::DistributionAlreadyComplete);
    }
    if state.has_more_investors() {
        return Err(FeeRouterError::DistributionInProgress);
    }
    Ok(close_day_in_place(state, global, now))
}

/// Submitting the same page again, right after it was processed, is refused,
/// whatever the streams then read: its hash is now the last page's hash.
pub proof fn lemma_repeated_page_rejected(
    s: DailyDistributionState,
    reads: Seq<StreamRead>,
    now: u64,
    max_page_size: u32,
    repeated: Seq<StreamRead>,
    later: u64,
    later_max_page_size: u32,
)
    requires
        page_transition(s, reads, now, max_page_size) is Ok,
        spec_page_keys(repeated) == spec_page_keys(reads),
    ensures
        page_transition(
            page_transition(s, reads, now, max_page_size)->Ok_0,
            repeated,
            later,
            later_max_page_size,
        ) is Err,
{
    let s1 = page_transition(s, reads, now, max_page_size)->Ok_0;
    assert(s1.last_page_hash == spec_page_hash(spec_page_keys(repeated)));
    assert(spec_page_rejection(s1, repeated, later_max_page_size) is Some);
}

/// The counters that only grow: processed investors, pages, amount paid and
/// cursor; and completion, once set, stays set.
pub open spec fn progress_le(a: DailyDistributionState, b: DailyDistributionState) -> bool {
    &&& a.investors_processed <= b.investors_processed
    &&& a.pages_processed <= b.pages_processed
    &&& a.amount_distributed <= b.amount_distributed
    &&& a.current_cursor <= b.current_cursor
    &&& a.is_complete ==> b.is_complete
}

/// A processed page never moves the progress counters back.
pub proof fn lemma_page_progress_monotone(
    s: DailyDistributionState,
    reads: Seq<StreamRead>,
    now: u64,
    max_page_size: u32,
)
    requires
        page_transition(s, reads, now, max_page_size) is Ok,
    ensures
        progress_le(s, page_transition(s, reads, now, max_page_size)->Ok_0),
{
}

/// Completing a day never moves the progress counters back.
pub proof fn lemma_complete_progress_monotone(
    s: DailyDistributionState,
    global: GlobalDistributionState,
    now: i64,
)
    requires
        complete_transition(s, global, now) is Ok,
    ensures
        progress_le(s, complete_transition(s, global, now)->Ok_0.0),
{
}

/// Aborting a day never moves the progress counters back.
pub proof fn lemma_abort_progress_monotone(
    s: DailyDistributionState,
    global: GlobalDistributionState,
    now: i64,
)
    requires
        abort_transition(s, global, now) is Ok,
    ensures
        progress_le(s, abort_transition(s, global, now)->Ok_0.0),
{
}

/// One call on a day record: a page, completion or abort.
pub enum DayCall {
    Page { reads: Seq<StreamRead>, now: u64, max_page_size: u32 },
    Complete { global: GlobalDistributionState, now: i64 },
    Abort { global: GlobalDistributionState, now: i64 },
}

/// The day record after a sequence of calls, each on the result of the one
/// before; the first refusal ends the sequence.
pub open spec fn run_day_calls(s: DailyDistributionState, calls: Seq<DayCall>) -> Result<
    DailyDistributionState,
    FeeRouterError,
>
    decreases calls.len(),
{
    if calls.len() == 0 {
        Ok(s)
    } else {
        match run_day_calls(s, calls.drop_last()) {
            Err(e) => Err(e),
            Ok(m) => match calls.last() {
                DayCall::Page { reads, now, max_page_size } => page_transition(m, reads, now, max_page_size),
                DayCall::Complete { global, now } => match complete_transition(m, global, now) {
                    Ok(t) => Ok(t.0),
                    Err(e) => Err(e),
                },
                DayCall::Abort { global, now } => match abort_transition(m, global, now) {
                    Ok(t) => Ok(t.0),
                    Err(e) => Err(e),
                },
            },
        }
    }
}

/// Across any sequence of successful calls the processed count, the page
/// count, the amount paid and the cursor never decrease.
pub proof fn lemma_day_progress_monotone(s: DailyDistributionState, calls: Seq<DayCall>)
    requires
        run_day_calls(s, calls) is Ok,
    ensures
        progress_le(s, run_day_calls(s, calls)->Ok_0),
    decreases calls.len(),
{
    if calls.len() > 0 {
        lemma_day_progress_monotone(s, calls.drop_last());
        let m = run_day_calls(s, calls.drop_last())->Ok_0;
        match calls.last() {
            DayCall::Page { reads, now, max_page_size } => {
                lemma_page_progress_monotone(m, reads, now, max_page_size);
            },
            DayCall::Complete { global, now } => {
                lemma_complete_progress_monotone(m, global, now);
            },
            DayCall::Abort { global, now } => {
                lemma_abort_progress_monotone(m, global, now);
            },
        }
    }
}

/// Every successful call keeps the day record well formed.
pub proof fn lemma_day_calls_preserve_wf(s: DailyDistributionState, calls: Seq<DayCall>)
    requires
        s.wf(),
        run_day_calls(s, calls) is Ok,
    ensures
        run_day_calls(s, calls)->Ok_0.wf(),
    decreases calls.len(),
{
    if calls.len() > 0 {
        lemma_day_calls_preserve_wf(s, calls.drop_last());
    }
}

} // verus!
