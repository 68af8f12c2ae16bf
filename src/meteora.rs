//! The constant-product AMM: its pool record, the checks that a pool pays
//! fees in the quote token only, and the data of the instructions sent to it.

use vstd::prelude::*;
use vstd::string::StringSliceAdditionalSpecFns;
use crate::errors::FeeRouterError;
use crate::runtime::{Pubkey, seed_views, find_program_address, str_seed, key_seed};

verus! {

pub const POSITION_SEED: &'static str = "position";

pub const POSITION_NFT_ACCOUNT_SEED: &'static str = "position_nft_account";

pub const EVENT_AUTHORITY_SEED: &'static str = "__event_authority";

/// In which tokens a pool collects fees.
#[derive(Clone, Copy, Debug, PartialEq, Eq, Structural)]
pub enum CollectFeeMode {
    Both,
    OnlyTokenA,
    OnlyTokenB,
}

pub open spec fn spec_collect_fee_mode(value: u8) -> Option<CollectFeeMode> {
    if value == 0 {
        Some(CollectFeeMode::Both)
    } else if value == 1 {
        Some(CollectFeeMode::OnlyTokenA)
    } else if value == 2 {
        Some(CollectFeeMode::OnlyTokenB)
    } else {
        None
    }
}

impl CollectFeeMode {
    /// Decodes the pool's fee mode byte: 0 both, 1 token A only, 2 token B only.
    pub fn from_u8(value: u8) -> (r: Option<CollectFeeMode>)
        ensures
            r == spec_collect_fee_mode(value),
    {
        match value {
            0 => Some(CollectFeeMode::Both),
            1 => Some(CollectFeeMode::OnlyTokenA),
            2 => Some(CollectFeeMode::OnlyTokenB),
            _ => None,
        }
    }
}

/// Whether a pool accepts trades: status byte 0 enabled, 1 disabled.
#[derive(Clone, Copy, Debug, PartialEq, Eq, Structural)]
pub enum PoolStatus {
    Enabled,
    Disabled,
}

#[derive(Clone, Copy, Debug)]
pub struct PoolFeesStruct {
    pub trade_fee_bps: u64,
    pub protocol_trade_fee_bps: u64,
    pub fund_trade_fee_bps: u64,
}

/// A pool record of the AMM.
#[derive(Clone, Copy, Debug)]
pub struct Pool {
    pub pool_fees: PoolFeesStruct,
    pub token_a_mint: Pubkey,
    pub token_b_mint: Pubkey,
    pub token_a_vault: Pubkey,
    pub token_b_vault: Pubkey,
    pub whitelisted_vault: Pubkey,
    pub partner: Pubkey,
    pub liquidity: u128,
    pub _padding: u128,
    pub protocol_a_fee: u64,
    pub protocol_b_fee: u64,
    pub partner_a_fee: u64,
    pub partner_b_fee: u64,
    pub sqrt_min_price: u128,
    pub sqrt_max_price: u128,
    pub sqrt_price: u128,
    pub activation_point: u64,
    pub activation_type: u8,
    pub pool_status: u8,
    pub token_a_flag: u8,
    pub token_b_flag: u8,
    pub collect_fee_mode: u8,
    pub pool_type: u8,
    pub _padding_0: [u8; 2],
    pub fee_a_per_liquidity: [u8; 32],
    pub fee_b_per_liquidity: [u8; 32],
    pub _padding_rest: [u8; 256],
}

/// A placeholder for the AMM's position account, which is only referenced.
#[derive(Debug)]
pub struct Position;

impl Pool {
    pub fn get_collect_fee_mode(&self) -> (r: Option<CollectFeeMode>)
        ensures
            r == spec_collect_fee_mode(self.collect_fee_mode),
    {
        CollectFeeMode::from_u8(self.collect_fee_mode)
    }

    pub fn is_token_a_only(&self) -> (r: bool)
        ensures
            r == (self.collect_fee_mode == 1),
    {
        self.collect_fee_mode == 1
    }

    pub fn is_token_b_only(&self) -> (r: bool)
        ensures
            r == (self.collect_fee_mode == 2),
    {
        self.collect_fee_mode == 2
    }

    pub fn is_both_tokens(&self) -> (r: bool)
        ensures
            r == (self.collect_fee_mode == 0),
    {
        self.collect_fee_mode == 0
    }

    pub fn is_enabled(&self) -> (r: bool)
        ensures
            r == (self.pool_status == 0),
    {
        self.pool_status == 0
    }
}

/// Why a pool cannot host a quote-only position for `quote_mint`, if it
/// cannot: it is disabled, its fee mode is unknown or collects both tokens,
/// the quote mint is neither of its tokens, or it collects fees in the
/// other token.
pub open spec fn spec_quote_only_refusal(pool: Pool, quote_mint: Pubkey) -> Option<FeeRouterError> {
    if pool.pool_status != 0 {
        Some(FeeRouterError::InvalidPoolConfig)
    } else if spec_collect_fee_mode(pool.collect_fee_mode) is None {
        Some(FeeRouterError::InvalidPoolConfig)
    } else if pool.collect_fee_mode == 0 {
        Some(FeeRouterError::BaseFeeDetected)
    } else if pool.token_a_mint.bytes@ != quote_mint.bytes@ && pool.token_b_mint.bytes@
        != quote_mint.bytes@ {
        Some(FeeRouterError::QuoteMintMismatch)
    } else if pool.token_a_mint.bytes@ == quote_mint.bytes@ {
        if pool.collect_fee_mode == 1 {
            None
        } else {
            Some(FeeRouterError::BaseFeeDetected)
        }
    } else if pool.collect_fee_mode == 2 {
        None
    } else {
        Some(FeeRouterError::BaseFeeDetected)
    }
}

pub open spec fn refusal_result(e: Option<FeeRouterError>) -> Result<(), FeeRouterError> {
    match e {
        Some(e) => Err(e),
        None => Ok(()),
    }
}

/// Checks that `pool` collects fees in `quote_mint` alone.
pub fn validate_quote_only_pool(pool: &Pool, quote_mint: &Pubkey) -> (r: Result<(), FeeRouterError>)
    ensures
        r == refusal_result(spec_quote_only_refusal(*pool, *quote_mint)),
{
    if !pool.is_enabled() {
        return Err(FeeRouterError::InvalidPoolConfig);
    }
    let fee_mode = match pool.get_collect_fee_mode() {
        Some(m) => m,
        None => {
            return Err(FeeRouterError::InvalidPoolConfig);
        },
    };
    if fee_mode == CollectFeeMode::Both {
        return Err(FeeRouterError::BaseFeeDetected);
    }
    let quote_is_token_a = pool.token_a_mint == *quote_mint;
    let quote_is_token_b = pool.token_b_mint == *quote_mint;
    if !quote_is_token_a && !quote_is_token_b {
        return Err(FeeRouterError::QuoteMintMismatch);
    }
    if quote_is_token_a {
        if fee_mode != CollectFeeMode::OnlyTokenA {
            return Err(FeeRouterError::BaseFeeDetected);
        }
    } else {
        if fee_mode != CollectFeeMode::OnlyTokenB {
            return Err(FeeRouterError::BaseFeeDetected);
        }
    }
    Ok(())
}

/// Which of a pool's two tokens is the quote token.
#[derive(Clone, Copy, Debug, PartialEq, Eq, Structural)]
pub enum QuoteSide {
    QuoteIsFirst,
    QuoteIsSecond,
}

/// Why `pool` does not pay fees in its `side` token alone, which must be
/// `quote_mint`, if it does not.
pub open spec fn spec_quote_side_refusal(pool: Pool, side: QuoteSide, quote_mint: Pubkey) -> Option<
    FeeRouterError,
> {
    let (mint, mode) = match side {
        QuoteSide::QuoteIsFirst => (pool.token_a_mint, 1u8),
        QuoteSide::QuoteIsSecond => (pool.token_b_mint, 2u8),
    };
    if pool.pool_status != 0 {
        Some(FeeRouterError::InvalidPoolConfig)
    } else if spec_collect_fee_mode(pool.collect_fee_mode) is None {
        Some(FeeRouterError::InvalidPoolConfig)
    } else if mint.bytes@ != quote_mint.bytes@ {
        Some(FeeRouterError::QuoteMintMismatch)
    } else if pool.collect_fee_mode != mode {
        Some(FeeRouterError::BaseFeeDetected)
    } else {
        None
    }
}

/// Checks a configured quote side against the pool: the token on that side
/// must be `quote_mint` and the pool must collect fees in it alone.
pub fn validate_quote_side(pool: &Pool, side: QuoteSide, quote_mint: &Pubkey) -> (r: Result<
    (),
    FeeRouterError,
>)
    ensures
        r == refusal_result(spec_quote_side_refusal(*pool, side, *quote_mint)),
{
    let (mint, mode) = match side {
        QuoteSide::QuoteIsFirst => (pool.token_a_mint, 1u8),
        QuoteSide::QuoteIsSecond => (pool.token_b_mint, 2u8),
    };
    if !pool.is_enabled() {
        return Err(FeeRouterError::InvalidPoolConfig);
    }
    if pool.get_collect_fee_mode().is_none() {
        return Err(FeeRouterError::InvalidPoolConfig);
    }
    if mint != *quote_mint {
        return Err(FeeRouterError::QuoteMintMismatch);
    }
    if pool.collect_fee_mode != mode {
        return Err(FeeRouterError::BaseFeeDetected);
    }
    Ok(())
}

/// The mint of the token a single-token fee pool collects in.
pub fn identify_quote_mint(pool: &Pool) -> (r: Result<Pubkey, FeeRouterError>)
    ensures
        r == (if pool.collect_fee_mode == 1 {
            Ok(pool.token_a_mint)
        } else if pool.collect_fee_mode == 2 {
            Ok(pool.token_b_mint)
        } else {
            Err::<Pubkey, FeeRouterError>(FeeRouterError::InvalidPoolConfig)
        }),
{
    match pool.get_collect_fee_mode() {
        Some(CollectFeeMode::OnlyTokenA) => Ok(pool.token_a_mint),
        Some(CollectFeeMode::OnlyTokenB) => Ok(pool.token_b_mint),
        _ => Err(FeeRouterError::InvalidPoolConfig),
    }
}

pub open spec fn in_pool(pool: Pool, mint: Pubkey) -> bool {
    pool.token_a_mint.bytes@ == mint.bytes@ || pool.token_b_mint.bytes@ == mint.bytes@
}

pub open spec fn spec_token_order_refusal(pool: Pool, base_mint: Pubkey, quote_mint: Pubkey) -> Option<
    FeeRouterError,
> {
    if !in_pool(pool, base_mint) {
        Some(FeeRouterError::InvalidTokenOrder)
    } else if !in_pool(pool, quote_mint) {
        Some(FeeRouterError::QuoteMintMismatch)
    } else if base_mint.bytes@ == quote_mint.bytes@ {
        Some(FeeRouterError::InvalidTokenOrder)
    } else {
        None
    }
}

/// Checks that the base and quote mints are the pool's two distinct tokens.
pub fn validate_token_order(pool: &Pool, base_mint: &Pubkey, quote_mint: &Pubkey) -> (r: Result<
    (),
    FeeRouterError,
>)
    ensures
        r == refusal_result(spec_token_order_refusal(*pool, *base_mint, *quote_mint)),
{
    let has_base = pool.token_a_mint == *base_mint || pool.token_b_mint == *base_mint;
    let has_quote = pool.token_a_mint == *quote_mint || pool.token_b_mint == *quote_mint;
    if !has_base {
        return Err(FeeRouterError::InvalidTokenOrder);
    }
    if !has_quote {
        return Err(FeeRouterError::QuoteMintMismatch);
    }
    if *base_mint == *quote_mint {
        return Err(FeeRouterError::InvalidTokenOrder);
    }
    Ok(())
}

/// All checks before a position is created: the pool is enabled, the mints
/// are its tokens, and it collects fees in the quote token alone.
pub fn preflight_validation(pool: &Pool, base_mint: &Pubkey, quote_mint: &Pubkey) -> (r: Result<
    (),
    FeeRouterError,
>)
    ensures
        r == (if pool.pool_status != 0 {
            Err(FeeRouterError::InvalidPoolConfig)
        } else if spec_token_order_refusal(*pool, *base_mint, *quote_mint) is Some {
            refusal_result(spec_token_order_refusal(*pool, *base_mint, *quote_mint))
        } else {
            refusal_result(spec_quote_only_refusal(*pool, *quote_mint))
        }),
{
    if !pool.is_enabled() {
        return Err(FeeRouterError::InvalidPoolConfig);
    }
    match validate_token_order(pool, base_mint, quote_mint) {
        Ok(()) => {},
        Err(e) => {
            return Err(e);
        },
    }
    validate_quote_only_pool(pool, quote_mint)
}

/// Bytes of the AMM program's address (cpamdpZCGKUy5JxQXB4dcpGPiikHawvSWAd6mEn1sGG).
pub open spec fn spec_cp_amm_program_id() -> Seq<u8> {
    seq![
        0x09u8, 0x2d, 0x21, 0x35, 0x65, 0x7a, 0x15, 0x9c, 0x2b, 0x87, 0xd4, 0xb6, 0x6a, 0x70,
        0xdb, 0x8e, 0x97, 0x52, 0x38, 0x9f, 0xf7, 0x6a, 0xaf, 0x20, 0x6c, 0xed, 0x06, 0x3a,
        0x38, 0xf9, 0x5a, 0xed,
    ]
}

/// Address of the AMM program.
pub fn meteora_cp_amm_program_id() -> (r: Pubkey)
    ensures
        r.bytes@ == spec_cp_amm_program_id(),
{
    let r = Pubkey::new_from_array(
        [
            0x09, 0x2d, 0x21, 0x35, 0x65, 0x7a, 0x15, 0x9c, 0x2b, 0x87, 0xd4, 0xb6, 0x6a, 0x70,
            0xdb, 0x8e, 0x97, 0x52, 0x38, 0x9f, 0xf7, 0x6a, 0xaf, 0x20, 0x6c, 0xed, 0x06, 0x3a,
            0x38, 0xf9, 0x5a, 0xed,
        ],
    );
    assert(r.bytes@ =~= spec_cp_amm_program_id());
    r
}

/// The AMM's address for the position minted as `position_nft_mint`.
pub fn derive_position_pda(position_nft_mint: &Pubkey) -> (r: Option<(Pubkey, u8)>)
    ensures
        r matches Some((k, b)) ==> crate::runtime::program_address(
            seq![POSITION_SEED.spec_bytes(), position_nft_mint.bytes@],
            spec_cp_amm_program_id(),
        ) == Some((k.bytes, b)),
        r is None ==> crate::runtime::program_address(
            seq![POSITION_SEED.spec_bytes(), position_nft_mint.bytes@],
            spec_cp_amm_program_id(),
        ) is None,
{
    let mut seeds: Vec<Vec<u8>> = Vec::new();
    seeds.push(str_seed(POSITION_SEED));
    seeds.push(key_seed(position_nft_mint));
    assert(seed_views(seeds@) =~= seq![POSITION_SEED.spec_bytes(), position_nft_mint.bytes@]);
    find_program_address(&seeds, &meteora_cp_amm_program_id())
}

/// The AMM's address for the token account holding the position's NFT.
pub fn derive_position_nft_account_pda(position_nft_mint: &Pubkey) -> (r: Option<(Pubkey, u8)>)
    ensures
        r matches Some((k, b)) ==> crate::runtime::program_address(
            seq![POSITION_NFT_ACCOUNT_SEED.spec_bytes(), position_nft_mint.bytes@],
            spec_cp_amm_program_id(),
        ) == Some((k.bytes, b)),
        r is None ==> crate::runtime::program_address(
            seq![POSITION_NFT_ACCOUNT_SEED.spec_bytes(), position_nft_mint.bytes@],
            spec_cp_amm_program_id(),
        ) is None,
{
    let mut seeds: Vec<Vec<u8>> = Vec::new();
    seeds.push(str_seed(POSITION_NFT_ACCOUNT_SEED));
    seeds.push(key_seed(position_nft_mint));
    assert(seed_views(seeds@) =~= seq![POSITION_NFT_ACCOUNT_SEED.spec_bytes(), position_nft_mint.bytes@]);
    find_program_address(&seeds, &meteora_cp_amm_program_id())
}

/// The AMM's event authority address.
pub fn derive_event_authority_pda() -> (r: Option<(Pubkey, u8)>)
    ensures
        r matches Some((k, b)) ==> crate::runtime::program_address(
            seq![EVENT_AUTHORITY_SEED.spec_bytes()],
            spec_cp_amm_program_id(),
        ) == Some((k.bytes, b)),
        r is None ==> crate::runtime::program_address(
            seq![EVENT_AUTHORITY_SEED.spec_bytes()],
            spec_cp_amm_program_id(),
        ) is None,
{
    let mut seeds: Vec<Vec<u8>> = Vec::new();
    seeds.push(str_seed(EVENT_AUTHORITY_SEED));
    assert(seed_views(seeds@) =~= seq![EVENT_AUTHORITY_SEED.spec_bytes()]);
    find_program_address(&seeds, &meteora_cp_amm_program_id())
}

/// Arguments of the AMM's add-liquidity instruction.
#[derive(Clone, Copy, Debug)]
pub struct AddLiquidityParameters {
    pub liquidity_delta: u128,
    pub token_a_amount_threshold: u64,
    pub token_b_amount_threshold: u64,
}

impl AddLiquidityParameters {
    /// The smallest liquidity that activates fee collection, spending at most
    /// `quote_amount` of either token.
    pub fn minimal_quote_only(quote_amount: u64) -> (r: AddLiquidityParameters)
        ensures
            r.liquidity_delta == 1_000_000,
            r.token_a_amount_threshold == quote_amount,
            r.token_b_amount_threshold == quote_amount,
    {
        AddLiquidityParameters {
            liquidity_delta: 1_000_000,
            token_a_amount_threshold: quote_amount,
            token_b_amount_threshold: quote_amount,
        }
    }
}

/// The `n` low bytes of `x`, least significant first.
pub open spec fn le_bytes(x: nat, n: nat) -> Seq<u8>
    decreases n,
{
    if n == 0 {
        Seq::empty()
    } else {
        seq![(x % 256) as u8] + le_bytes(x / 256, (n - 1) as nat)
    }
}

fn push_le_bytes(x: u128, n: usize, out: &mut Vec<u8>)
    ensures
        final(out)@ == old(out)@ + le_bytes(x as nat, n as nat),
    decreases n,
{
    if n > 0 {
        out.push((x % 256) as u8);
        push_le_bytes(x / 256, n - 1, out);
        assert(final(out)@ =~= old(out)@ + le_bytes(x as nat, n as nat));
    } else {
        assert(final(out)@ =~= old(out)@ + le_bytes(x as nat, n as nat));
    }
}

fn discriminator_bytes(d: [u8; 8]) -> (r: Vec<u8>)
    ensures
        r@ == d@,
{
    vstd::slice::slice_to_vec(d.as_slice())
}

pub open spec fn create_position_discriminator() -> Seq<u8> {
    seq![48u8, 215, 197, 153, 96, 203, 180, 133]
}

pub open spec fn add_liquidity_discriminator() -> Seq<u8> {
    seq![181u8, 157, 89, 67, 143, 182, 52, 72]
}

pub open spec fn claim_position_fee_discriminator() -> Seq<u8> {
    seq![180u8, 38, 154, 17, 133, 33, 162, 211]
}

/// Instruction data of create-position: its discriminator alone.
pub fn create_position_data() -> (r: Vec<u8>)
    ensures
        r@ == create_position_discriminator(),
{
    let r = discriminator_bytes([48, 215, 197, 153, 96, 203, 180, 133]);
    assert(r@ =~= create_position_discriminator());
    r
}

/// Instruction data of add-liquidity: the discriminator, then the liquidity
/// delta (16 bytes) and the two thresholds (8 bytes each), little-endian.
pub fn add_liquidity_data(params: &AddLiquidityParameters) -> (r: Vec<u8>)
    ensures
        r@ == add_liquidity_discriminator() + le_bytes(params.liquidity_delta as nat, 16) + le_bytes(
            params.token_a_amount_threshold as nat,
            8,
        ) + le_bytes(params.token_b_amount_threshold as nat, 8),
{
    let mut out = discriminator_bytes([181, 157, 89, 67, 143, 182, 52, 72]);
    assert(out@ =~= add_liquidity_discriminator());
    push_le_bytes(params.liquidity_delta, 16, &mut out);
    push_le_bytes(params.token_a_amount_threshold as u128, 8, &mut out);
    push_le_bytes(params.token_b_amount_threshold as u128, 8, &mut out);
    out
}

/// Instruction data of claim-position-fee: its discriminator alone.
pub fn claim_position_fee_data() -> (r: Vec<u8>)
    ensures
        r@ == claim_position_fee_discriminator(),
{
    let r = discriminator_bytes([180, 38, 154, 17, 133, 33, 162, 211]);
    assert(r@ =~= claim_position_fee_discriminator());
    r
}

} // verus!
