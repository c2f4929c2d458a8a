//! Event records produced by the account and log decoders.
use vstd::prelude::*;
use crate::pubkey::{Pubkey, Signature};

verus! {

/// Where and when an event was observed.
#[derive(Clone, Copy, Debug, PartialEq, Eq)]
pub struct EventMetadata {
    pub signature: Signature,
    pub slot: u64,
    pub tx_index: u64,
    pub block_time_us: i64,
    pub grpc_recv_us: i64,
    pub recent_blockhash: Option<[u8; 32]>,
}

impl Default for EventMetadata {
    fn default() -> (r: EventMetadata)
        ensures
            r.signature@ == Seq::new(64, |i: int| 0u8),
            r.slot == 0,
            r.tx_index == 0,
            r.block_time_us == 0,
            r.grpc_recv_us == 0,
            r.recent_blockhash is None,
    {
        EventMetadata {
            signature: Signature::default(),
            slot: 0,
            tx_index: 0,
            block_time_us: 0,
            grpc_recv_us: 0,
            recent_blockhash: None,
        }
    }
}

/// An account as delivered by an RPC or streaming source.
#[derive(Clone, Debug)]
pub struct AccountData {
    pub pubkey: Pubkey,
    pub executable: bool,
    pub lamports: u64,
    pub owner: Pubkey,
    pub rent_epoch: u64,
    pub data: Vec<u8>,
}

/// A durable-nonce account.
#[derive(Clone, Debug)]
pub struct NonceAccountEvent {
    pub metadata: EventMetadata,
    pub pubkey: Pubkey,
    pub executable: bool,
    pub lamports: u64,
    pub owner: Pubkey,
    pub rent_epoch: u64,
    pub nonce: String,
    pub authority: String,
}

/// PumpSwap global configuration.
#[derive(Clone, Copy, Debug)]
pub struct PumpSwapGlobalConfig {
    pub admin: Pubkey,
    pub lp_fee_basis_points: u64,
    pub protocol_fee_basis_points: u64,
    pub disable_flags: u8,
    pub protocol_fee_recipients: [Pubkey; 8],
    pub coin_creator_fee_basis_points: u64,
    pub admin_set_coin_creator_authority: Pubkey,
    pub whitelist_pda: Pubkey,
    pub reserved_fee_recipient: Pubkey,
    pub mayhem_mode_enabled: bool,
    pub reserved_fee_recipients: [Pubkey; 7],
}

#[derive(Clone, Copy, Debug)]
pub struct PumpSwapGlobalConfigAccountEvent {
    pub metadata: EventMetadata,
    pub pubkey: Pubkey,
    pub executable: bool,
    pub lamports: u64,
    pub owner: Pubkey,
    pub rent_epoch: u64,
    pub global_config: PumpSwapGlobalConfig,
}

/// A PumpSwap liquidity pool.
#[derive(Clone, Copy, Debug)]
pub struct PumpSwapPool {
    pub pool_bump: u8,
    pub index: u16,
    pub creator: Pubkey,
    pub base_mint: Pubkey,
    pub quote_mint: Pubkey,
    pub lp_mint: Pubkey,
    pub pool_base_token_account: Pubkey,
    pub pool_quote_token_account: Pubkey,
    pub lp_supply: u64,
    pub coin_creator: Pubkey,
    pub is_mayhem_mode: bool,
    pub is_cashback_coin: bool,
    pub virtual_quote_reserves: i128,
    pub creator_fee_bps: u64,
    pub can_edit_creator_fee: bool,
    pub is_holder_reward: bool,
}

#[derive(Clone, Copy, Debug)]
pub struct PumpSwapPoolAccountEvent {
    pub metadata: EventMetadata,
    pub pubkey: Pubkey,
    pub executable: bool,
    pub lamports: u64,
    pub owner: Pubkey,
    pub rent_epoch: u64,
    pub pool: PumpSwapPool,
}

/// The three fee rates of a fee schedule, in basis points.
#[derive(Clone, Copy, Debug, PartialEq, Eq)]
pub struct PumpFeesFees {
    pub lp_fee_bps: u64,
    pub protocol_fee_bps: u64,
    pub creator_fee_bps: u64,
}

/// A fee schedule that applies from a market-cap threshold on.
#[derive(Clone, Copy, Debug, PartialEq, Eq)]
pub struct PumpFeesFeeTier {
    pub market_cap_lamports_threshold: u128,
    pub fees: PumpFeesFees,
}

/// A fee-sharing recipient and its share.
#[derive(Clone, Copy, Debug, PartialEq, Eq)]
pub struct PumpFeesShareholder {
    pub address: Pubkey,
    pub share_bps: u16,
}

#[derive(Clone, Copy, Debug, PartialEq, Eq)]
pub enum PumpFeesConfigStatus {
    Paused,
    Active,
}

#[derive(Clone, Debug)]
pub struct PumpFunFeeConfig {
    pub bump: u8,
    pub admin: Pubkey,
    pub flat_fees: PumpFeesFees,
    pub fee_tiers: Vec<PumpFeesFeeTier>,
    pub stable_fee_tiers: Vec<PumpFeesFeeTier>,
}

#[derive(Clone, Debug)]
pub struct PumpFunFeeConfigAccountEvent {
    pub metadata: EventMetadata,
    pub pubkey: Pubkey,
    pub fee_config: PumpFunFeeConfig,
}

#[derive(Clone, Debug)]
pub struct PumpFunSharingConfig {
    pub bump: u8,
    pub version: u8,
    pub status: PumpFeesConfigStatus,
    pub mint: Pubkey,
    pub admin: Pubkey,
    pub admin_revoked: bool,
    pub shareholders: Vec<PumpFeesShareholder>,
}

#[derive(Clone, Debug)]
pub struct PumpFunSharingConfigAccountEvent {
    pub metadata: EventMetadata,
    pub pubkey: Pubkey,
    pub sharing_config: PumpFunSharingConfig,
}

#[derive(Clone, Copy, Debug)]
pub struct PumpFunGlobalVolumeAccumulator {
    pub start_time: i64,
    pub end_time: i64,
    pub seconds_in_a_day: i64,
    pub mint: Pubkey,
    pub total_token_supply: [u64; 30],
    pub sol_volumes: [u64; 30],
}

#[derive(Clone, Copy, Debug)]
pub struct PumpFunGlobalVolumeAccumulatorAccountEvent {
    pub metadata: EventMetadata,
    pub pubkey: Pubkey,
    pub global_volume_accumulator: PumpFunGlobalVolumeAccumulator,
}

#[derive(Clone, Copy, Debug)]
pub struct PumpFunUserVolumeAccumulator {
    pub user: Pubkey,
    pub needs_claim: bool,
    pub total_unclaimed_tokens: u64,
    pub total_claimed_tokens: u64,
    pub current_sol_volume: u64,
    pub last_update_timestamp: i64,
    pub has_total_claimed_tokens: bool,
    pub cashback_earned: u64,
    pub total_cashback_claimed: u64,
    pub stable_cashback_earned: u64,
    pub total_stable_cashback_claimed: u64,
}

#[derive(Clone, Copy, Debug)]
pub struct PumpFunUserVolumeAccumulatorAccountEvent {
    pub metadata: EventMetadata,
    pub pubkey: Pubkey,
    pub user_volume_accumulator: PumpFunUserVolumeAccumulator,
}

/// A Pump.fun bonding curve.
#[derive(Clone, Copy, Debug)]
pub struct PumpFunBondingCurve {
    pub virtual_token_reserves: u64,
    pub virtual_quote_reserves: u64,
    pub real_token_reserves: u64,
    pub real_quote_reserves: u64,
    pub token_total_supply: u64,
    pub complete: bool,
    pub creator: Pubkey,
    pub is_mayhem_mode: bool,
    pub is_cashback_coin: bool,
    pub quote_mint: Pubkey,
    pub creator_fee_bps: u64,
    pub can_edit_creator_fee: bool,
    pub is_holder_reward: bool,
}

#[derive(Clone, Copy, Debug)]
pub struct PumpFunBondingCurveAccountEvent {
    pub metadata: EventMetadata,
    pub pubkey: Pubkey,
    pub bonding_curve: PumpFunBondingCurve,
}

/// The Pump.fun global state.
#[derive(Clone, Copy, Debug)]
pub struct PumpFunGlobal {
    pub initialized: bool,
    pub authority: Pubkey,
    pub fee_recipient: Pubkey,
    pub initial_virtual_token_reserves: u64,
    pub initial_virtual_sol_reserves: u64,
    pub initial_real_token_reserves: u64,
    pub token_total_supply: u64,
    pub fee_basis_points: u64,
    pub withdraw_authority: Pubkey,
    pub enable_migrate: bool,
    pub pool_migration_fee: u64,
    pub creator_fee_basis_points: u64,
    pub fee_recipients: [Pubkey; 7],
    pub set_creator_authority: Pubkey,
    pub admin_set_creator_authority: Pubkey,
    pub create_v2_enabled: bool,
    pub whitelist_pda: Pubkey,
    pub reserved_fee_recipient: Pubkey,
    pub mayhem_mode_enabled: bool,
    pub reserved_fee_recipients: [Pubkey; 7],
    pub is_cashback_enabled: bool,
    pub buyback_fee_recipients: [Pubkey; 8],
    pub buyback_basis_points: u64,
    pub initial_virtual_quote_reserves: u64,
    pub whitelisted_quote_mints: [Pubkey; 1],
}

#[derive(Clone, Copy, Debug)]
pub struct PumpFunGlobalAccountEvent {
    pub metadata: EventMetadata,
    pub pubkey: Pubkey,
    pub global: PumpFunGlobal,
}

/// A token launch logged by Pump.fun.
#[derive(Clone, Debug)]
pub struct PumpFunCreateTokenEvent {
    pub metadata: EventMetadata,
    pub name: String,
    pub symbol: String,
    pub uri: String,
    pub mint: Pubkey,
    pub bonding_curve: Pubkey,
    pub user: Pubkey,
    pub creator: Pubkey,
    pub timestamp: i64,
    pub virtual_token_reserves: u64,
    pub virtual_sol_reserves: u64,
    pub real_token_reserves: u64,
    pub token_total_supply: u64,
    pub token_program: Pubkey,
    pub is_mayhem_mode: bool,
    pub is_cashback_enabled: bool,
    pub quote_mint: Pubkey,
    pub virtual_quote_reserves: u64,
    pub creator_fee_bps: u64,
    pub is_holder_reward: bool,
    pub ix_name: String,
}

/// A buy or sell logged by Pump.fun.
#[derive(Clone, Debug)]
pub struct PumpFunTradeEvent {
    pub metadata: EventMetadata,
    pub mint: Pubkey,
    pub sol_amount: u64,
    pub token_amount: u64,
    pub is_buy: bool,
    pub is_created_buy: bool,
    pub user: Pubkey,
    pub timestamp: i64,
    pub virtual_sol_reserves: u64,
    pub virtual_token_reserves: u64,
    pub real_sol_reserves: u64,
    pub real_token_reserves: u64,
    pub fee_recipient: Pubkey,
    pub fee_basis_points: u64,
    pub fee: u64,
    pub creator: Pubkey,
    pub creator_fee_basis_points: u64,
    pub creator_fee: u64,
    pub track_volume: bool,
    pub total_unclaimed_tokens: u64,
    pub total_claimed_tokens: u64,
    pub current_sol_volume: u64,
    pub last_update_timestamp: i64,
    pub ix_name: String,
    pub mayhem_mode: bool,
    pub cashback_fee_basis_points: u64,
    pub cashback: u64,
    pub buyback_fee_basis_points: u64,
    pub buyback_fee: u64,
    pub shareholders: Vec<PumpFeesShareholder>,
    pub quote_mint: Pubkey,
    pub quote_amount: u64,
    pub virtual_quote_reserves: u64,
    pub real_quote_reserves: u64,
    pub holder_rewards_bps: u64,
    pub holder_rewards: u64,
    pub is_cashback_coin: bool,
    pub amount: u64,
    pub max_sol_cost: u64,
    pub min_sol_output: u64,
    pub spendable_sol_in: u64,
    pub spendable_quote_in: u64,
    pub min_tokens_out: u64,
    pub global: Pubkey,
    pub bonding_curve: Pubkey,
    pub associated_bonding_curve: Pubkey,
    pub associated_user: Pubkey,
    pub system_program: Pubkey,
    pub creator_vault: Pubkey,
    pub event_authority: Pubkey,
    pub program: Pubkey,
    pub global_volume_accumulator: Pubkey,
    pub user_volume_accumulator: Pubkey,
    pub fee_config: Pubkey,
    pub fee_program: Pubkey,
    pub token_program: Pubkey,
    pub account: Option<Pubkey>,
}

/// A bonding curve migrated to a PumpSwap pool.
#[derive(Clone, Copy, Debug)]
pub struct PumpFunMigrateEvent {
    pub metadata: EventMetadata,
    pub user: Pubkey,
    pub mint: Pubkey,
    pub mint_amount: u64,
    pub sol_amount: u64,
    pub pool_migration_fee: u64,
    pub bonding_curve: Pubkey,
    pub timestamp: i64,
    pub pool: Pubkey,
}

/// A bonding curve handed to a new creator.
#[derive(Clone, Copy, Debug)]
pub struct PumpFunMigrateBondingCurveCreatorEvent {
    pub metadata: EventMetadata,
    pub timestamp: i64,
    pub mint: Pubkey,
    pub bonding_curve: Pubkey,
    pub sharing_config: Pubkey,
    pub old_creator: Pubkey,
    pub new_creator: Pubkey,
}

/// Every event this crate decodes.
#[derive(Clone, Debug)]
pub enum DexEvent {
    NonceAccount(NonceAccountEvent),
    PumpSwapGlobalConfigAccount(PumpSwapGlobalConfigAccountEvent),
    PumpSwapPoolAccount(PumpSwapPoolAccountEvent),
    PumpFunFeeConfigAccount(PumpFunFeeConfigAccountEvent),
    PumpFunSharingConfigAccount(PumpFunSharingConfigAccountEvent),
    PumpFunGlobalVolumeAccumulatorAccount(PumpFunGlobalVolumeAccumulatorAccountEvent),
    PumpFunUserVolumeAccumulatorAccount(PumpFunUserVolumeAccumulatorAccountEvent),
    PumpFunBondingCurveAccount(PumpFunBondingCurveAccountEvent),
    PumpFunGlobalAccount(PumpFunGlobalAccountEvent),
    PumpFunCreate(PumpFunCreateTokenEvent),
    PumpFunTrade(PumpFunTradeEvent),
    PumpFunBuy(PumpFunTradeEvent),
    PumpFunSell(PumpFunTradeEvent),
    PumpFunBuyExactSolIn(PumpFunTradeEvent),
    PumpFunMigrate(PumpFunMigrateEvent),
    PumpFunMigrateBondingCurveCreator(PumpFunMigrateBondingCurveCreatorEvent),
}

} // verus!
