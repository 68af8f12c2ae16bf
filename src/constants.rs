//! Seeds, limits and defaults shared across the program.

use vstd::prelude::*;

verus! {

pub const VAULT_SEED: &'static str = "vault";

pub const POSITION_OWNER_SEED: &'static str = "position_owner";

pub const POLICY_SEED: &'static str = "policy";

pub const TREASURY_SEED: &'static str = "treasury";

pub const TREASURY_STATE_SEED: &'static str = "treasury_state";

pub const TREASURY_AUTHORITY_SEED: &'static str = "treasury_authority";

pub const DAILY_DISTRIBUTION_SEED: &'static str = "daily_distribution";

pub const GLOBAL_DISTRIBUTION_SEED: &'static str = "global_distribution";

pub const POSITION_METADATA_SEED: &'static str = "position_metadata";

/// Largest number of vesting streams that one page may carry.
pub const MAX_INVESTORS_PER_PAGE: u32 = 50;

pub const DEFAULT_MIN_PAYOUT_LAMPORTS: u64 = 1000;

pub const DEFAULT_DAILY_CAP_LAMPORTS: u64 = 1_000_000_000;

pub const DEFAULT_INVESTOR_FEE_SHARE_BPS: u64 = 5000;

pub const MAX_BASIS_POINTS: u64 = 10000;

pub const SECONDS_PER_DAY: i64 = 86400;

/// Basis-point denominator: 10000 is the whole.
pub const BPS_DENOMINATOR: u64 = 10_000;

pub const MIN_PAYOUT_LAMPORTS: u64 = 1_000;

/// Shortest time, in seconds, between two fee claims.
pub const MIN_CLAIM_INTERVAL_SECONDS: i64 = 3600;

} // verus!
