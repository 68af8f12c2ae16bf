//! Basis-point arithmetic and the pro-rata distribution calculator.

use vstd::prelude::*;
use vstd::arithmetic::div_mod::{
    lemma_multiply_divide_le,
    lemma_div_pos_is_pos,
    lemma_fundamental_div_mod,
    lemma_mod_pos_bound,
};
use vstd::arithmetic::mul::lemma_mul_inequality;
use crate::errors::FeeRouterError;
use crate::runtime::Pubkey;
use crate::vesting::InvestorStreamData;

verus! {

/// `x` clamped to the range of `u64`.
pub open spec fn saturate(x: int) -> int {
    if x > u64::MAX {
        u64::MAX as int
    } else {
        x
    }
}

/// The product of two 64-bit amounts fits in 128 bits.
pub proof fn lemma_wide_product(a: u64, b: u64)
    ensures
        0 <= a * b <= u128::MAX,
{
    assert(0 <= a * b <= u64::MAX * u64::MAX) by (nonlinear_arith)
        requires
            0 <= a <= u64::MAX,
            0 <= b <= u64::MAX,
    ;
}

/// For `0 <= part <= whole` the scaled share `part * amount / whole` lies in `[0, amount]`.
pub proof fn lemma_share_within_whole(part: int, whole: int, amount: int)
    requires
        0 <= part <= whole,
        0 < whole,
        0 <= amount,
    ensures
        0 <= part * amount / whole <= amount,
        0 <= amount * part / whole <= amount,
{
    lemma_mul_inequality(part, whole, amount);
    assert(part * amount == amount * part) by (nonlinear_arith);
    assert(whole * amount == amount * whole) by (nonlinear_arith);
    assert(0 <= part * amount) by (nonlinear_arith)
        requires
            0 <= part,
            0 <= amount,
    ;
    lemma_multiply_divide_le(part * amount, whole, amount);
    lemma_div_pos_is_pos(part * amount, whole);
}

/// `a + b`, or `u64::MAX` where the sum does not fit.
pub open spec fn sat_add(a: u64, b: u64) -> u64 {
    saturate(a + b) as u64
}

/// `a - b`, or 0 where `b` is larger.
pub open spec fn sat_sub(a: u64, b: u64) -> u64 {
    if a >= b {
        (a - b) as u64
    } else {
        0
    }
}

pub open spec fn min_u64(a: u64, b: u64) -> u64 {
    if a <= b {
        a
    } else {
        b
    }
}

/// Locked fraction in basis points: `floor(locked_total * 10000 / y0)`, 0 when
/// `y0` is 0, saturated at `u64::MAX`.
pub open spec fn spec_locked_fraction(locked_total: u64, initial_total_deposit: u64) -> u64 {
    if initial_total_deposit == 0 {
        0
    } else {
        saturate(locked_total * 10000 / (initial_total_deposit as int)) as u64
    }
}

/// `floor(claimed_quote * share_bps / 10000)`, saturated at `u64::MAX`.
pub open spec fn spec_investor_fee_amount(claimed_quote: u64, share_bps: u64) -> u64 {
    saturate(claimed_quote * share_bps / 10000) as u64
}

/// The investors' part of `claimed_quote`: the policy share, lowered to the
/// locked fraction where that is smaller.
pub open spec fn spec_investor_fee_quote(
    claimed_quote: u64,
    total_locked: u64,
    initial_total_deposit: u64,
    investor_fee_share_bps: u64,
) -> u64 {
    spec_investor_fee_amount(
        claimed_quote,
        min_u64(investor_fee_share_bps, spec_locked_fraction(total_locked, initial_total_deposit)),
    )
}

/// Locked fraction of the initial allocation, in basis points.
pub fn calculate_locked_fraction(locked_total: u64, initial_total_deposit: u64) -> (r: u64)
    ensures
        r == spec_locked_fraction(locked_total, initial_total_deposit),
        initial_total_deposit == 0 ==> r == 0,
        initial_total_deposit > 0 && locked_total * 10000 / (initial_total_deposit as int) <= u64::MAX
            ==> r == locked_total * 10000 / (initial_total_deposit as int),
        locked_total <= initial_total_deposit ==> r <= 10000,
{
    if initial_total_deposit == 0 {
        return 0;
    }
    let f = (locked_total as u128 * 10000u128) / initial_total_deposit as u128;
    proof {
        if locked_total <= initial_total_deposit {
            lemma_share_within_whole(locked_total as int, initial_total_deposit as int, 10000);
        }
    }
    if f > u64::MAX as u128 {
        u64::MAX
    } else {
        f as u64
    }
}

/// The smaller of the policy share and the locked fraction.
pub fn calculate_eligible_investor_share(investor_fee_share_bps: u64, locked_fraction_bps: u64) -> (r: u64)
    ensures
        r == min_u64(investor_fee_share_bps, locked_fraction_bps),
{
    if investor_fee_share_bps <= locked_fraction_bps {
        investor_fee_share_bps
    } else {
        locked_fraction_bps
    }
}

/// `floor(claimed_quote * eligible_investor_share_bps / 10000)`.
pub fn calculate_investor_fee_amount(claimed_quote: u64, eligible_investor_share_bps: u64) -> (r: u64)
    ensures
        r == spec_investor_fee_amount(claimed_quote, eligible_investor_share_bps),
        eligible_investor_share_bps <= 10000 ==> r <= claimed_quote,
{
    proof {
        lemma_wide_product(claimed_quote, eligible_investor_share_bps);
        if eligible_investor_share_bps <= 10000 {
            lemma_share_within_whole(eligible_investor_share_bps as int, 10000, claimed_quote as int);
        }
    }
    let a = (claimed_quote as u128 * eligible_investor_share_bps as u128) / 10000u128;
    if a > u64::MAX as u128 {
        u64::MAX
    } else {
        a as u64
    }
}

/// One investor's line of a distribution.
#[derive(Clone, Copy, Debug)]
pub struct InvestorPayout {
    pub investor: Pubkey,
    pub investor_ata: Pubkey,
    pub payout_amount: u64,
    pub weight_bps: u64,
    pub meets_minimum: bool,
}

/// The split of one amount between investors, dust and the creator.
#[derive(Clone, Debug)]
pub struct DistributionCalculation {
    pub investor_fee_quote: u64,
    pub investor_payouts: Vec<InvestorPayout>,
    pub total_distributed: u64,
    pub dust_amount: u64,
    pub creator_remainder: u64,
}

/// A distribution with its payouts as a sequence.
pub struct DistributionCalculationView {
    pub investor_fee_quote: u64,
    pub investor_payouts: Seq<InvestorPayout>,
    pub total_distributed: u64,
    pub dust_amount: u64,
    pub creator_remainder: u64,
}

impl View for DistributionCalculation {
    type V = DistributionCalculationView;

    open spec fn view(&self) -> DistributionCalculationView {
        DistributionCalculationView {
            investor_fee_quote: self.investor_fee_quote,
            investor_payouts: self.investor_payouts@,
            total_distributed: self.total_distributed,
            dust_amount: self.dust_amount,
            creator_remainder: self.creator_remainder,
        }
    }
}

/// Sum of the payout amounts.
pub open spec fn sum_payouts(ps: Seq<InvestorPayout>) -> int
    decreases ps.len(),
{
    if ps.len() == 0 {
        0
    } else {
        sum_payouts(ps.drop_last()) + ps.last().payout_amount
    }
}

/// Sum of the locked amounts.
pub open spec fn sum_locked(ds: Seq<InvestorStreamData>) -> int
    decreases ds.len(),
{
    if ds.len() == 0 {
        0
    } else {
        sum_locked(ds.drop_last()) + ds.last().locked_amount
    }
}

/// Whether no snapshot claims more than `total_locked`.
pub open spec fn locked_within_total(ds: Seq<InvestorStreamData>, total_locked: u64) -> bool {
    forall|i: int| 0 <= i < ds.len() ==> #[trigger] ds[i].locked_amount <= total_locked
}

/// The payout line of one snapshot: a payout under `min_payout` is recorded
/// with amount 0 and `meets_minimum` false, its weight still reported.
pub open spec fn payout_entry(
    d: InvestorStreamData,
    total_locked: u64,
    investor_fee_quote: u64,
    min_payout: u64,
) -> InvestorPayout {
    let raw = d.spec_payout(total_locked, investor_fee_quote);
    InvestorPayout {
        investor: d.investor,
        investor_ata: d.investor_ata,
        payout_amount: if raw >= min_payout {
            raw as u64
        } else {
            0
        },
        weight_bps: d.spec_weight(total_locked) as u64,
        meets_minimum: raw >= min_payout,
    }
}

pub open spec fn payouts_for(
    ds: Seq<InvestorStreamData>,
    total_locked: u64,
    investor_fee_quote: u64,
    min_payout: u64,
) -> Seq<InvestorPayout> {
    Seq::new(ds.len(), |i: int| payout_entry(ds[i], total_locked, investor_fee_quote, min_payout))
}

/// The distribution of `claimed_quote` over the snapshots `ds`.
/// A share above 10000 bps, or a snapshot locking more than `total_locked`,
/// is refused. Where nothing is locked or the investors' part rounds to 0,
/// everything goes to the creator.
pub open spec fn spec_calculate_distribution(
    claimed_quote: u64,
    ds: Seq<InvestorStreamData>,
    total_locked: u64,
    initial_total_deposit: u64,
    investor_fee_share_bps: u64,
    min_payout: u64,
) -> Result<DistributionCalculationView, FeeRouterError> {
    if investor_fee_share_bps > 10000 {
        Err(FeeRouterError::InvalidFeeShareBps)
    } else if !locked_within_total(ds, total_locked) {
        Err(FeeRouterError::LockedAmountError)
    } else {
        let ifq = spec_investor_fee_quote(
            claimed_quote,
            total_locked,
            initial_total_deposit,
            investor_fee_share_bps,
        );
        if total_locked == 0 || ifq == 0 {
            Ok(
                DistributionCalculationView {
                    investor_fee_quote: 0,
                    investor_payouts: Seq::empty(),
                    total_distributed: 0,
                    dust_amount: 0,
                    creator_remainder: claimed_quote,
                },
            )
        } else {
            let ps = payouts_for(ds, total_locked, ifq, min_payout);
            let total = saturate(sum_payouts(ps)) as u64;
            Ok(
                DistributionCalculationView {
                    investor_fee_quote: ifq,
                    investor_payouts: ps,
                    total_distributed: total,
                    dust_amount: sat_sub(ifq, total),
                    creator_remainder: sat_sub(claimed_quote, ifq),
                },
            )
        }
    }
}

pub open spec fn calculation_result_view(
    r: Result<DistributionCalculation, FeeRouterError>,
) -> Result<DistributionCalculationView, FeeRouterError> {
    match r {
        Ok(c) => Ok(c@),
        Err(e) => Err(e),
    }
}

/// Splits `claimed_quote` between the investors of `investor_data`, by locked
/// amount, and the creator.
pub fn calculate_distribution(
    claimed_quote: u64,
    investor_data: &[InvestorStreamData],
    total_locked: u64,
    initial_total_deposit: u64,
    investor_fee_share_bps: u64,
    min_payout_lamports: u64,
) -> (r: Result<DistributionCalculation, FeeRouterError>)
    ensures
        calculation_result_view(r) == spec_calculate_distribution(
            claimed_quote,
            investor_data@,
            total_locked,
            initial_total_deposit,
            investor_fee_share_bps,
            min_payout_lamports,
        ),
        r matches Ok(c) ==> forall|i: int|
            0 <= i < c.investor_payouts@.len() ==> #[trigger] c.investor_payouts@[i].weight_bps <= 10000,
{
    if investor_fee_share_bps > 10000 {
        return Err(FeeRouterError::InvalidFeeShareBps);
    }
    let n = investor_data.len();
    let mut k: usize = 0;
    while k < n
        invariant
            n == investor_data@.len(),
            0 <= k <= n,
            investor_fee_share_bps <= 10000,
            forall|j: int| 0 <= j < k ==> #[trigger] investor_data@[j].locked_amount <= total_locked,
        decreases n - k,
    {
        if investor_data[k].locked_amount > total_locked {
            assert(!locked_within_total(investor_data@, total_locked));
            return Err(FeeRouterError::LockedAmountError);
        }
        k = k + 1;
    }
    let locked_fraction_bps = calculate_locked_fraction(total_locked, initial_total_deposit);
    let eligible = calculate_eligible_investor_share(investor_fee_share_bps, locked_fraction_bps);
    let investor_fee_quote = calculate_investor_fee_amount(claimed_quote, eligible);
    if total_locked == 0 || investor_fee_quote == 0 {
        let r = DistributionCalculation {
            investor_fee_quote: 0,
            investor_payouts: Vec::new(),
            total_distributed: 0,
            dust_amount: 0,
            creator_remainder: claimed_quote,
        };
        assert(r@.investor_payouts =~= Seq::<InvestorPayout>::empty());
        return Ok(r);
    }
    let mut investor_payouts: Vec<InvestorPayout> = Vec::new();
    let mut total_distributed: u64 = 0;
    let mut i: usize = 0;
    while i < n
        invariant
            n == investor_data@.len(),
            0 <= i <= n,
            total_locked > 0,
            investor_fee_quote > 0,
            locked_within_total(investor_data@, total_locked),
            investor_payouts@.len() == i,
            forall|j: int|
                0 <= j < i ==> #[trigger] investor_payouts@[j] == payout_entry(
                    investor_data@[j],
                    total_locked,
                    investor_fee_quote,
                    min_payout_lamports,
                ),
            forall|j: int| 0 <= j < i ==> #[trigger] investor_payouts@[j].weight_bps <= 10000,
            total_distributed == saturate(sum_payouts(investor_payouts@)),
        decreases n - i,
    {
        let investor = investor_data[i];
        assert(investor.locked_amount <= total_locked);
        let weight_bps = investor.calculate_weight(total_locked);
        let payout_amount = investor.calculate_payout(total_locked, investor_fee_quote);
        let meets_minimum = payout_amount >= min_payout_lamports;
        let final_payout = if meets_minimum {
            payout_amount
        } else {
            0
        };
        let line = InvestorPayout {
            investor: investor.investor,
            investor_ata: investor.investor_ata,
            payout_amount: final_payout,
            weight_bps,
            meets_minimum,
        };
        proof {
            lemma_sum_payouts_nonneg(investor_payouts@);
            assert(investor_payouts@.push(line).drop_last() =~= investor_payouts@);
        }
        investor_payouts.push(line);
        total_distributed = total_distributed.saturating_add(final_payout);
        i = i + 1;
    }
    let dust_amount = investor_fee_quote.saturating_sub(total_distributed);
    let creator_remainder = claimed_quote.saturating_sub(investor_fee_quote);
    let r = DistributionCalculation {
        investor_fee_quote,
        investor_payouts,
        total_distributed,
        dust_amount,
        creator_remainder,
    };
    assert(r@.investor_payouts =~= payouts_for(
        investor_data@,
        total_locked,
        investor_fee_quote,
        min_payout_lamports,
    ));
    Ok(r)
}

pub proof fn lemma_sum_payouts_nonneg(ps: Seq<InvestorPayout>)
    ensures
        sum_payouts(ps) >= 0,
    decreases ps.len(),
{
    if ps.len() > 0 {
        lemma_sum_payouts_nonneg(ps.drop_last());
    }
}

/// A payout line scaled by `scale_bps`, rounded down; a zero line stays as it is.
pub open spec fn scale_payout(p: InvestorPayout, scale_bps: u64) -> InvestorPayout {
    if p.payout_amount > 0 {
        InvestorPayout { payout_amount: (p.payout_amount * scale_bps / 10000) as u64, ..p }
    } else {
        p
    }
}

pub open spec fn scale_payouts(ps: Seq<InvestorPayout>, scale_bps: u64) -> Seq<InvestorPayout> {
    Seq::new(ps.len(), |i: int| scale_payout(ps[i], scale_bps))
}

/// A distribution held to `daily_cap_remaining`: where its total exceeds the
/// cap, every payout is scaled by `floor(cap * 10000 / total)` bps, the total
/// recomputed, and the dust becomes what the scaled payouts leave of the cap.
/// The minimum-payout test is not applied again.
pub open spec fn spec_apply_daily_cap(
    c: DistributionCalculationView,
    daily_cap_remaining: u64,
) -> DistributionCalculationView {
    if c.total_distributed <= daily_cap_remaining {
        c
    } else {
        let scale = (daily_cap_remaining * 10000 / (c.total_distributed as int)) as u64;
        let ps = scale_payouts(c.investor_payouts, scale);
        let total = saturate(sum_payouts(ps)) as u64;
        DistributionCalculationView {
            investor_fee_quote: c.investor_fee_quote,
            investor_payouts: ps,
            total_distributed: total,
            dust_amount: sat_sub(daily_cap_remaining, total),
            creator_remainder: c.creator_remainder,
        }
    }
}

/// Holds `calculation` to the remaining daily cap, scaling its payouts down
/// proportionally where it exceeds the cap.
pub fn apply_daily_cap(calculation: DistributionCalculation, daily_cap_remaining: u64) -> (r:
    DistributionCalculation)
    ensures
        r@ == spec_apply_daily_cap(calculation@, daily_cap_remaining),
        r@.investor_payouts.len() == calculation@.investor_payouts.len(),
        forall|i: int|
            0 <= i < r@.investor_payouts.len() ==> {
                &&& (#[trigger] r@.investor_payouts[i]).weight_bps
                    == calculation@.investor_payouts[i].weight_bps
                &&& r@.investor_payouts[i].payout_amount
                    <= calculation@.investor_payouts[i].payout_amount
            },
{
    if calculation.total_distributed <= daily_cap_remaining {
        return calculation;
    }
    proof {
        lemma_share_within_whole(
            daily_cap_remaining as int,
            calculation.total_distributed as int,
            10000,
        );
    }
    let scale_factor = ((daily_cap_remaining as u128 * 10000u128)
        / calculation.total_distributed as u128) as u64;
    let n = calculation.investor_payouts.len();
    let mut scaled: Vec<InvestorPayout> = Vec::new();
    let mut new_total_distributed: u64 = 0;
    let mut i: usize = 0;
    while i < n
        invariant
            n == calculation.investor_payouts@.len(),
            0 <= i <= n,
            scale_factor <= 10000,
            scaled@.len() == i,
            forall|j: int|
                0 <= j < i ==> #[trigger] scaled@[j] == scale_payout(
                    calculation.investor_payouts@[j],
                    scale_factor,
                ),
            new_total_distributed == saturate(sum_payouts(scaled@)),
        decreases n - i,
    {
        let p = calculation.investor_payouts[i];
        let line = if p.payout_amount > 0 {
            proof {
                lemma_share_within_whole(scale_factor as int, 10000, p.payout_amount as int);
            }
            let scaled_amount = ((p.payout_amount as u128 * scale_factor as u128) / 10000u128) as u64;
            InvestorPayout { payout_amount: scaled_amount, ..p }
        } else {
            p
        };
        proof {
            lemma_sum_payouts_nonneg(scaled@);
            assert(scaled@.push(line).drop_last() =~= scaled@);
        }
        scaled.push(line);
        new_total_distributed = new_total_distributed.saturating_add(line.payout_amount);
        i = i + 1;
    }
    let dust_amount = daily_cap_remaining.saturating_sub(new_total_distributed);
    let r = DistributionCalculation {
        investor_fee_quote: calculation.investor_fee_quote,
        investor_payouts: scaled,
        total_distributed: new_total_distributed,
        dust_amount,
        creator_remainder: calculation.creator_remainder,
    };
    assert(r@.investor_payouts =~= scale_payouts(calculation@.investor_payouts, scale_factor));
    assert forall|i: int| 0 <= i < r@.investor_payouts.len() implies
        (#[trigger] r@.investor_payouts[i]).payout_amount
            <= calculation@.investor_payouts[i].payout_amount by {
        let a = calculation@.investor_payouts[i].payout_amount;
        if a > 0 {
            lemma_share_within_whole(scale_factor as int, 10000, a as int);
        }
    }
    r
}

/// Whether a distribution accounts for no more than `claimed_quote`, the
/// amounts summed exactly, and every weight is within 10000 bps.
pub open spec fn spec_distribution_valid(c: DistributionCalculationView, claimed_quote: u64) -> bool {
    &&& c.total_distributed + c.dust_amount + c.creator_remainder <= claimed_quote
    &&& forall|i: int|
        0 <= i < c.investor_payouts.len() ==> #[trigger] c.investor_payouts[i].weight_bps <= 10000
}

/// Checks a distribution after the fact: `InvalidDistribution` unless it
/// accounts for at most `claimed_quote` and all weights are within 10000 bps.
pub fn validate_distribution(calculation: &DistributionCalculation, claimed_quote: u64) -> (r: Result<
    (),
    FeeRouterError,
>)
    ensures
        r == (if spec_distribution_valid(calculation@, claimed_quote) {
            Ok::<(), FeeRouterError>(())
        } else {
            Err(FeeRouterError::InvalidDistribution)
        }),
{
    let total_accounted = calculation.total_distributed as u128 + calculation.dust_amount as u128
        + calculation.creator_remainder as u128;
    if total_accounted > claimed_quote as u128 {
        return Err(FeeRouterError::InvalidDistribution);
    }
    let n = calculation.investor_payouts.len();
    let mut i: usize = 0;
    while i < n
        invariant
            n == calculation.investor_payouts@.len(),
            0 <= i <= n,
            forall|j: int| 0 <= j < i ==> #[trigger] calculation.investor_payouts@[j].weight_bps <= 10000,
        decreases n - i,
    {
        if calculation.investor_payouts[i].weight_bps > 10000 {
            assert(calculation@.investor_payouts[i as int].weight_bps > 10000);
            return Err(FeeRouterError::InvalidDistribution);
        }
        i = i + 1;
    }
    Ok(())
}

/// `floor(x / d) * d <= x`.
pub proof fn lemma_floor_times_divisor(x: int, d: int)
    requires
        0 <= x,
        0 < d,
    ensures
        0 <= (x / d) * d <= x,
{
    lemma_fundamental_div_mod(x, d);
    lemma_mod_pos_bound(x, d);
    lemma_div_pos_is_pos(x, d);
    assert((x / d) * d == d * (x / d)) by (nonlinear_arith);
    assert(0 <= (x / d) * d) by (nonlinear_arith)
        requires
            0 <= x / d,
            0 < d,
    ;
}

pub proof fn lemma_sum_locked_nonneg(ds: Seq<InvestorStreamData>)
    ensures
        sum_locked(ds) >= 0,
    decreases ds.len(),
{
    if ds.len() > 0 {
        lemma_sum_locked_nonneg(ds.drop_last());
    }
}

/// No snapshot locks more than the sum of all of them.
pub proof fn lemma_locked_within_sum(ds: Seq<InvestorStreamData>, total_locked: u64)
    requires
        sum_locked(ds) <= total_locked,
    ensures
        locked_within_total(ds, total_locked),
    decreases ds.len(),
{
    if ds.len() > 0 {
        lemma_sum_locked_nonneg(ds.drop_last());
        lemma_locked_within_sum(ds.drop_last(), total_locked);
        assert forall|i: int| 0 <= i < ds.len() implies #[trigger] ds[i].locked_amount
            <= total_locked by {
            if i < ds.len() - 1 {
                assert(ds.drop_last()[i] == ds[i]);
            }
        }
    }
}

/// Rounded-down pro-rata payouts never exceed their exact share:
/// `sum(payouts) * total_locked <= investor_fee_quote * sum(locked)`.
proof fn lemma_payouts_within_share(
    ds: Seq<InvestorStreamData>,
    total_locked: u64,
    investor_fee_quote: u64,
    min_payout: u64,
)
    requires
        total_locked > 0,
        locked_within_total(ds, total_locked),
    ensures
        sum_payouts(payouts_for(ds, total_locked, investor_fee_quote, min_payout)) * total_locked
            <= investor_fee_quote * sum_locked(ds),
    decreases ds.len(),
{
    let ps = payouts_for(ds, total_locked, investor_fee_quote, min_payout);
    if ds.len() == 0 {
        assert(sum_payouts(ps) == 0);
    } else {
        let prefix = ds.drop_last();
        assert(locked_within_total(prefix, total_locked)) by {
            assert forall|i: int| 0 <= i < prefix.len() implies #[trigger] prefix[i].locked_amount
                <= total_locked by {
                assert(prefix[i] == ds[i]);
            }
        }
        lemma_payouts_within_share(prefix, total_locked, investor_fee_quote, min_payout);
        assert(ps.drop_last() =~= payouts_for(prefix, total_locked, investor_fee_quote, min_payout));
        let d = ds.last();
        assert(d.locked_amount <= total_locked) by {
            assert(ds[ds.len() - 1] == d);
        }
        let a = ps.last().payout_amount as int;
        let l = d.locked_amount as int;
        let t = total_locked as int;
        let q = investor_fee_quote as int;
        assert(a * t <= q * l) by {
            if a > 0 {
                lemma_wide_product(investor_fee_quote, d.locked_amount);
                lemma_share_within_whole(l, t, q);
                assert(a == q * l / t);
                lemma_floor_times_divisor(q * l, t);
            } else {
                assert(0 <= q * l) by (nonlinear_arith)
                    requires
                        0 <= q,
                        0 <= l,
                ;
            }
        }
        let s = sum_payouts(ps.drop_last());
        let sl = sum_locked(prefix);
        assert((s + a) * t == s * t + a * t) by (nonlinear_arith);
        assert(q * (sl + l) == q * sl + q * l) by (nonlinear_arith);
    }
}

/// Scaled payouts stay within the scaled total:
/// `sum(scaled) * 10000 <= scale_bps * sum(ps)`.
proof fn lemma_scaled_within_scale(ps: Seq<InvestorPayout>, scale_bps: u64)
    requires
        scale_bps <= 10000,
    ensures
        sum_payouts(scale_payouts(ps, scale_bps)) * 10000 <= scale_bps * sum_payouts(ps),
    decreases ps.len(),
{
    let qs = scale_payouts(ps, scale_bps);
    if ps.len() > 0 {
        lemma_scaled_within_scale(ps.drop_last(), scale_bps);
        assert(qs.drop_last() =~= scale_payouts(ps.drop_last(), scale_bps));
        let a = ps.last().payout_amount as int;
        let b = qs.last().payout_amount as int;
        let s = scale_bps as int;
        assert(b * 10000 <= s * a) by {
            assert(qs.last() == scale_payout(ps.last(), scale_bps));
            if a > 0 {
                assert(0 <= a * s) by (nonlinear_arith)
                    requires
                        0 <= a,
                        0 <= s,
                ;
                lemma_wide_product(ps.last().payout_amount, scale_bps);
                lemma_share_within_whole(s, 10000, a);
                lemma_floor_times_divisor(a * s, 10000);
                assert(a * s == s * a) by (nonlinear_arith);
                assert(b == a * s / 10000);
            }
        }
        let x = sum_payouts(qs.drop_last());
        let y = sum_payouts(ps.drop_last());
        assert(s * (y + a) == s * y + s * a) by (nonlinear_arith);
        assert((x + b) * 10000 == x * 10000 + b * 10000);
    }
}

/// Under a valid share, snapshots that lock no more than `total_locked` are
/// distributed, and every line's weight is `floor(locked * 10000 / total_locked)`,
/// within 10000 bps, reported even where the payout is zeroed.
pub proof fn lemma_weights_within_bps(
    claimed_quote: u64,
    ds: Seq<InvestorStreamData>,
    total_locked: u64,
    initial_total_deposit: u64,
    investor_fee_share_bps: u64,
    min_payout: u64,
)
    requires
        investor_fee_share_bps <= 10000,
        locked_within_total(ds, total_locked),
    ensures
        spec_calculate_distribution(
            claimed_quote,
            ds,
            total_locked,
            initial_total_deposit,
            investor_fee_share_bps,
            min_payout,
        ) matches Ok(c) && forall|i: int|
            0 <= i < c.investor_payouts.len() ==> {
                &&& c.investor_payouts.len() == ds.len()
                &&& (#[trigger] c.investor_payouts[i]).weight_bps == ds[i].locked_amount * 10000
                    / (total_locked as int)
                &&& 0 <= c.investor_payouts[i].weight_bps <= 10000
            },
{
    let c = spec_calculate_distribution(
        claimed_quote,
        ds,
        total_locked,
        initial_total_deposit,
        investor_fee_share_bps,
        min_payout,
    )->Ok_0;
    assert forall|i: int| 0 <= i < c.investor_payouts.len() implies {
        &&& c.investor_payouts.len() == ds.len()
        &&& (#[trigger] c.investor_payouts[i]).weight_bps == ds[i].locked_amount * 10000
            / (total_locked as int)
        &&& 0 <= c.investor_payouts[i].weight_bps <= 10000
    } by {
        assert(ds[i].locked_amount <= total_locked);
        lemma_share_within_whole(ds[i].locked_amount as int, total_locked as int, 10000);
    }
}

/// Under a valid share, where nothing is locked or the investors' part
/// rounds to 0, the whole claimed amount goes to the creator.
pub proof fn lemma_all_to_creator(
    claimed_quote: u64,
    ds: Seq<InvestorStreamData>,
    total_locked: u64,
    initial_total_deposit: u64,
    investor_fee_share_bps: u64,
    min_payout: u64,
)
    requires
        investor_fee_share_bps <= 10000,
        locked_within_total(ds, total_locked),
        total_locked == 0 || spec_investor_fee_quote(
            claimed_quote,
            total_locked,
            initial_total_deposit,
            investor_fee_share_bps,
        ) == 0,
    ensures
        spec_calculate_distribution(
            claimed_quote,
            ds,
            total_locked,
            initial_total_deposit,
            investor_fee_share_bps,
            min_payout,
        ) matches Ok(c) && {
            &&& c.investor_fee_quote == 0
            &&& c.investor_payouts.len() == 0
            &&& c.total_distributed == 0
            &&& c.dust_amount == 0
            &&& c.creator_remainder == claimed_quote
        },
{
}

/// A distribution computed from consistent snapshots (their locked amounts
/// summing to at most `total_locked`) under a valid share accounts for the
/// claimed amount exactly: payouts plus dust plus creator remainder.
pub proof fn lemma_distribution_accounts_for_claimed(
    claimed_quote: u64,
    ds: Seq<InvestorStreamData>,
    total_locked: u64,
    initial_total_deposit: u64,
    investor_fee_share_bps: u64,
    min_payout: u64,
)
    requires
        investor_fee_share_bps <= 10000,
        sum_locked(ds) <= total_locked,
    ensures
        spec_calculate_distribution(
            claimed_quote,
            ds,
            total_locked,
            initial_total_deposit,
            investor_fee_share_bps,
            min_payout,
        ) matches Ok(c) && {
            &&& c.total_distributed == sum_payouts(c.investor_payouts)
            &&& sum_payouts(c.investor_payouts) + c.dust_amount + c.creator_remainder == claimed_quote
            &&& c.investor_fee_quote <= claimed_quote
        },
{
    lemma_locked_within_sum(ds, total_locked);
    lemma_sum_locked_nonneg(ds);
    let e = min_u64(investor_fee_share_bps, spec_locked_fraction(total_locked, initial_total_deposit));
    lemma_wide_product(claimed_quote, e);
    lemma_share_within_whole(e as int, 10000, claimed_quote as int);
    let ifq = spec_investor_fee_quote(
        claimed_quote,
        total_locked,
        initial_total_deposit,
        investor_fee_share_bps,
    );
    assert(ifq <= claimed_quote);
    if total_locked == 0 || ifq == 0 {
        assert(sum_payouts(Seq::<InvestorPayout>::empty()) == 0);
    } else {
        let ps = payouts_for(ds, total_locked, ifq, min_payout);
        lemma_payouts_within_share(ds, total_locked, ifq, min_payout);
        lemma_sum_payouts_nonneg(ps);
        let s = sum_payouts(ps);
        let t = total_locked as int;
        let q = ifq as int;
        lemma_mul_inequality(sum_locked(ds), t, q);
        assert(sum_locked(ds) * q == q * sum_locked(ds)) by (nonlinear_arith);
        assert(t * q == q * t) by (nonlinear_arith);
        assert(s <= q) by (nonlinear_arith)
            requires
                s * t <= q * t,
                t > 0,
        ;
    }
}

/// The same accounting once the daily cap is applied: without capping the
/// claimed amount is accounted for exactly; with capping, payouts plus dust
/// come to the cap, and with the creator remainder stay within the claimed amount.
pub proof fn lemma_capped_distribution_within_claimed(
    claimed_quote: u64,
    ds: Seq<InvestorStreamData>,
    total_locked: u64,
    initial_total_deposit: u64,
    investor_fee_share_bps: u64,
    min_payout: u64,
    daily_cap_remaining: u64,
)
    requires
        investor_fee_share_bps <= 10000,
        sum_locked(ds) <= total_locked,
    ensures
        spec_calculate_distribution(
            claimed_quote,
            ds,
            total_locked,
            initial_total_deposit,
            investor_fee_share_bps,
            min_payout,
        ) matches Ok(c) && ({
            let c2 = spec_apply_daily_cap(c, daily_cap_remaining);
            &&& c2.total_distributed == sum_payouts(c2.investor_payouts)
            &&& sum_payouts(c2.investor_payouts) + c2.dust_amount + c2.creator_remainder == (if c.total_distributed
                <= daily_cap_remaining {
                claimed_quote as int
            } else {
                daily_cap_remaining + c.creator_remainder
            })
            &&& sum_payouts(c2.investor_payouts) + c2.dust_amount + c2.creator_remainder <= claimed_quote
        }),
{
    lemma_distribution_accounts_for_claimed(
        claimed_quote,
        ds,
        total_locked,
        initial_total_deposit,
        investor_fee_share_bps,
        min_payout,
    );
    let c = spec_calculate_distribution(
        claimed_quote,
        ds,
        total_locked,
        initial_total_deposit,
        investor_fee_share_bps,
        min_payout,
    )->Ok_0;
    let cap = daily_cap_remaining;
    if c.total_distributed > cap {
        let total = c.total_distributed as int;
        let scale = (cap * 10000 / total) as u64;
        lemma_share_within_whole(cap as int, total, 10000);
        lemma_floor_times_divisor(cap * 10000, total);
        lemma_scaled_within_scale(c.investor_payouts, scale);
        let qs = scale_payouts(c.investor_payouts, scale);
        lemma_sum_payouts_nonneg(qs);
        assert(scale * total == (cap * 10000 / total) * total) by (nonlinear_arith)
            requires
                scale == cap * 10000 / total,
        ;
        assert(sum_payouts(qs) <= cap);
    }
}

} // verus!
