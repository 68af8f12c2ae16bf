//! Treasury bookkeeping for fees claimed from the position.

use vstd::prelude::*;
use vstd::string::StringSliceAdditionalSpecFns;
use crate::calculations::{sat_add, sat_sub};
use crate::constants::{TREASURY_STATE_SEED, MIN_CLAIM_INTERVAL_SECONDS};
use crate::errors::FeeRouterError;
use crate::position::PositionMetadata;
use crate::runtime::{Pubkey, seed_views, is_program_address, find_program_address, str_seed, key_seed};

verus! {

/// Running totals of the fees claimed into the treasury.
#[derive(Clone, Copy, Debug)]
pub struct TreasuryState {
    pub quote_mint: Pubkey,
    pub treasury_ata: Pubkey,
    pub total_fees_claimed: u64,
    pub last_claim_timestamp: i64,
    pub claim_count: u64,
    pub claim_authority: Pubkey,
    pub reserved: [u8; 64],
}

impl TreasuryState {
    /// Program address of the treasury record of `quote_mint`.
    pub fn derive_pda(quote_mint: &Pubkey, program_id: &Pubkey) -> (r: Option<(Pubkey, u8)>)
        ensures
            is_program_address(r, seq![TREASURY_STATE_SEED.spec_bytes(), quote_mint.bytes@], *program_id),
    {
        let mut seeds: Vec<Vec<u8>> = Vec::new();
        seeds.push(str_seed(TREASURY_STATE_SEED));
        seeds.push(key_seed(quote_mint));
        assert(seed_views(seeds@) =~= seq![TREASURY_STATE_SEED.spec_bytes(), quote_mint.bytes@]);
        find_program_address(&seeds, program_id)
    }

    /// Adds a successful claim of `amount_claimed` at `timestamp`.
    pub fn record_claim(&mut self, amount_claimed: u64, timestamp: i64)
        ensures
            *final(self) == (TreasuryState {
                total_fees_claimed: sat_add(old(self).total_fees_claimed, amount_claimed),
                last_claim_timestamp: timestamp,
                claim_count: sat_add(old(self).claim_count, 1),
                ..*old(self)
            }),
    {
        self.total_fees_claimed = self.total_fees_claimed.saturating_add(amount_claimed);
        self.last_claim_timestamp = timestamp;
        self.claim_count = self.claim_count.saturating_add(1);
    }

    /// Whether at least `min_interval_seconds` have passed since the last claim.
    pub fn can_claim(&self, current_timestamp: i64, min_interval_seconds: i64) -> (r: bool)
        ensures
            r == (current_timestamp >= self.last_claim_timestamp + min_interval_seconds),
    {
        current_timestamp as i128 >= self.last_claim_timestamp as i128 + min_interval_seconds as i128
    }

    /// Records a claim once the treasury balance shows it arrived in full;
    /// otherwise `TreasuryBalanceMismatch` and nothing changes.
    pub fn confirm_claim(
        &mut self,
        treasury_balance_before: u64,
        treasury_balance_after: u64,
        amount_claimed: u64,
        timestamp: i64,
    ) -> (r: Result<(), FeeRouterError>)
        ensures
            r is Ok <==> treasury_balance_after == sat_add(treasury_balance_before, amount_claimed),
            r is Ok ==> *final(self) == (TreasuryState {
                total_fees_claimed: sat_add(old(self).total_fees_claimed, amount_claimed),
                last_claim_timestamp: timestamp,
                claim_count: sat_add(old(self).claim_count, 1),
                ..*old(self)
            }),
            r matches Err(e) ==> e == FeeRouterError::TreasuryBalanceMismatch && *final(self) == *old(self),
    {
        let expected = treasury_balance_before.saturating_add(amount_claimed);
        if treasury_balance_after != expected {
            return Err(FeeRouterError::TreasuryBalanceMismatch);
        }
        self.record_claim(amount_claimed, timestamp);
        Ok(())
    }
}

/// Creates the treasury record of `quote_mint`; the mint account given must
/// be that mint.
pub fn initialize_treasury(
    quote_mint: Pubkey,
    quote_mint_account: Pubkey,
    treasury_ata: Pubkey,
    claim_authority: Pubkey,
) -> (r: Result<TreasuryState, FeeRouterError>)
    ensures
        match r {
            Ok(t) => quote_mint.bytes@ == quote_mint_account.bytes@ && t.quote_mint == quote_mint
                && t.treasury_ata == treasury_ata && t.claim_authority == claim_authority
                && t.total_fees_claimed == 0 && t.last_claim_timestamp == 0 && t.claim_count == 0,
            Err(e) => quote_mint.bytes@ != quote_mint_account.bytes@ && e
                == FeeRouterError::QuoteMintMismatch,
        },
{
    if quote_mint != quote_mint_account {
        return Err(FeeRouterError::QuoteMintMismatch);
    }
    Ok(
        TreasuryState {
            quote_mint,
            treasury_ata,
            total_fees_claimed: 0,
            last_claim_timestamp: 0,
            claim_count: 0,
            claim_authority,
            reserved: [0u8; 64],
        },
    )
}

/// Why a claim may not start, if it may not: the accounts given are not the
/// recorded position, pool and quote mint, or the last claim is too recent.
pub open spec fn spec_claim_refusal(
    treasury: TreasuryState,
    metadata: PositionMetadata,
    position: Pubkey,
    pool: Pubkey,
    quote_mint: Pubkey,
    now: i64,
) -> Option<FeeRouterError> {
    if metadata.position.bytes@ != position.bytes@ || metadata.pool.bytes@ != pool.bytes@
        || metadata.quote_mint.bytes@ != quote_mint.bytes@ {
        Some(FeeRouterError::PositionMetadataMismatch)
    } else if !(now >= treasury.last_claim_timestamp + MIN_CLAIM_INTERVAL_SECONDS) {
        Some(FeeRouterError::ClaimIntervalNotElapsed)
    } else {
        None
    }
}

/// Checks that a claim may start; see `spec_claim_refusal`.
pub fn check_claim_allowed(
    treasury: &TreasuryState,
    metadata: &PositionMetadata,
    position: Pubkey,
    pool: Pubkey,
    quote_mint: Pubkey,
    now: i64,
) -> (r: Result<(), FeeRouterError>)
    ensures
        r == (match spec_claim_refusal(*treasury, *metadata, position, pool, quote_mint, now) {
            Some(e) => Err(e),
            None => Ok::<(), FeeRouterError>(()),
        }),
{
    if metadata.position != position || metadata.pool != pool || metadata.quote_mint != quote_mint {
        return Err(FeeRouterError::PositionMetadataMismatch);
    }
    if !treasury.can_claim(now, MIN_CLAIM_INTERVAL_SECONDS) {
        return Err(FeeRouterError::ClaimIntervalNotElapsed);
    }
    Ok(())
}

/// The outcome of a claim from the owner's balances before and after it.
pub open spec fn spec_claimed_quote_amount(
    quote_balance_before: u64,
    quote_balance_after: u64,
    base_balance_before: u64,
    base_balance_after: u64,
) -> Result<u64, FeeRouterError> {
    if sat_sub(base_balance_after, base_balance_before) != 0 {
        Err(FeeRouterError::BaseFeesClaimedError)
    } else if sat_sub(quote_balance_after, quote_balance_before) == 0 {
        Err(FeeRouterError::NoFeesToClaim)
    } else {
        Ok(sat_sub(quote_balance_after, quote_balance_before))
    }
}

/// A claim that yields any base token is rejected, whatever quote it
/// yielded; the treasury is then never confirmed, so its record is unchanged.
pub proof fn lemma_base_fee_claim_rejected(
    quote_balance_before: u64,
    quote_balance_after: u64,
    base_balance_before: u64,
    base_balance_after: u64,
)
    requires
        base_balance_after > base_balance_before,
    ensures
        spec_claimed_quote_amount(
            quote_balance_before,
            quote_balance_after,
            base_balance_before,
            base_balance_after,
        ) == Err::<u64, FeeRouterError>(FeeRouterError::BaseFeesClaimedError),
{
}

/// What a claim call yielded, from the owner's balances before and after it:
/// any base-token gain rejects the claim (the position must earn quote fees
/// only), and a claim that yielded no quote is rejected too.
pub fn claimed_quote_amount(
    quote_balance_before: u64,
    quote_balance_after: u64,
    base_balance_before: u64,
    base_balance_after: u64,
) -> (r: Result<u64, FeeRouterError>)
    ensures
        r == spec_claimed_quote_amount(
            quote_balance_before,
            quote_balance_after,
            base_balance_before,
            base_balance_after,
        ),
{
    let quote_amount_claimed = quote_balance_after.saturating_sub(quote_balance_before);
    let base_amount_claimed = base_balance_after.saturating_sub(base_balance_before);
    if base_amount_claimed != 0 {
        return Err(FeeRouterError::BaseFeesClaimedError);
    }
    if quote_amount_claimed == 0 {
        return Err(FeeRouterError::NoFeesToClaim);
    }
    Ok(quote_amount_claimed)
}

} // verus!
