//! The record kept for the fee position.

use vstd::prelude::*;
use vstd::string::StringSliceAdditionalSpecFns;
use crate::constants::POSITION_METADATA_SEED;
use crate::runtime::{Pubkey, seed_views, is_program_address, find_program_address, str_seed, key_seed};

verus! {

/// What the program records about the liquidity position it owns.
#[derive(Clone, Copy, Debug)]
pub struct PositionMetadata {
    pub position: Pubkey,
    pub pool: Pubkey,
    pub quote_mint: Pubkey,
    pub base_mint: Pubkey,
    pub created_at: i64,
    pub position_owner_bump: u8,
    pub reserved: [u8; 64],
}

/// `x` clamped to the range of `i64`.
pub open spec fn saturate_i64(x: int) -> i64 {
    if x > i64::MAX {
        i64::MAX
    } else if x < i64::MIN {
        i64::MIN
    } else {
        x as i64
    }
}

impl PositionMetadata {
    /// Program address of the record of the position minted as `position_nft_mint`.
    pub fn derive_pda(position_nft_mint: &Pubkey, program_id: &Pubkey) -> (r: Option<(Pubkey, u8)>)
        ensures
            is_program_address(
                r,
                seq![POSITION_METADATA_SEED.spec_bytes(), position_nft_mint.bytes@],
                *program_id,
            ),
    {
        let mut seeds: Vec<Vec<u8>> = Vec::new();
        seeds.push(str_seed(POSITION_METADATA_SEED));
        seeds.push(key_seed(position_nft_mint));
        assert(seed_views(seeds@) =~= seq![POSITION_METADATA_SEED.spec_bytes(), position_nft_mint.bytes@]);
        find_program_address(&seeds, program_id)
    }

    /// Every recorded position was validated as quote-only when created.
    pub fn is_quote_only(&self) -> (r: bool)
        ensures
            r,
    {
        true
    }

    /// Seconds since creation, saturated to the range of `i64`.
    pub fn age_seconds(&self, current_timestamp: i64) -> (r: i64)
        ensures
            r == saturate_i64(current_timestamp - self.created_at),
    {
        let d = current_timestamp as i128 - self.created_at as i128;
        if d > i64::MAX as i128 {
            i64::MAX
        } else if d < i64::MIN as i128 {
            i64::MIN
        } else {
            d as i64
        }
    }
}

} // verus!
