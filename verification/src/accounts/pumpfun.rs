//! Pump.fun and Pump fees program accounts.
use vstd::prelude::*;
use crate::accounts::pumpswap::body_of;
use crate::accounts::utils::{has_discriminator, starts_with};
use crate::events::{
    AccountData, DexEvent, EventMetadata, PumpFeesConfigStatus, PumpFeesFeeTier, PumpFeesFees,
    PumpFeesShareholder, PumpFunBondingCurve, PumpFunBondingCurveAccountEvent, PumpFunFeeConfig,
    PumpFunFeeConfigAccountEvent, PumpFunGlobal, PumpFunGlobalAccountEvent,
    PumpFunGlobalVolumeAccumulator, PumpFunGlobalVolumeAccumulatorAccountEvent,
    PumpFunSharingConfig, PumpFunSharingConfigAccountEvent, PumpFunUserVolumeAccumulator,
    PumpFunUserVolumeAccumulatorAccountEvent,
};
use crate::filter::EventType;
use crate::layout::{
    lemma_len_fits_usize,
    byte_or_zero, fits, i64_at, key_at, key_or_zero, load_byte_or_zero, load_i64, load_key,
    load_key_or_zero, load_u128, load_u16, load_u32, load_u64, load_u64_or_zero, u128_at, u16_at,
    u32_at, u64_at, u64_or_zero,
};
use crate::pubkey::Pubkey;

verus! {

pub const GLOBAL_DISCRIMINATOR: [u8; 8] = [167, 232, 232, 177, 200, 108, 114, 127];

pub const BONDING_CURVE_DISCRIMINATOR: [u8; 8] = [23, 183, 248, 55, 96, 216, 172, 96];

pub const FEE_CONFIG_DISCRIMINATOR: [u8; 8] = [143, 52, 146, 187, 219, 123, 76, 155];

pub const GLOBAL_VOLUME_ACCUMULATOR_DISCRIMINATOR: [u8; 8] = [202, 42, 246, 43, 142, 190, 30, 255];

pub const SHARING_CONFIG_DISCRIMINATOR: [u8; 8] = [216, 74, 9, 0, 56, 140, 93, 75];

pub const USER_VOLUME_ACCUMULATOR_DISCRIMINATOR: [u8; 8] = [86, 255, 112, 14, 102, 53, 154, 250];

/// Most fee tiers a fee config may list.
pub const MAX_FEE_TIERS: usize = 64;

/// Most shareholders a sharing config may list.
pub const MAX_SHAREHOLDERS: usize = 64;

/// Body length of the global fields.
pub const GLOBAL_FIELDS_LEN: usize = 1037;

/// Body length of the global volume accumulator fields.
pub const GLOBAL_VOLUME_FIELDS_LEN: usize = 536;

/// Body length of the user volume accumulator fields.
pub const USER_VOLUME_FIELDS_LEN: usize = 98;

/// Body length of the current bonding curve fields.
pub const BONDING_CURVE_FIELDS_LEN: usize = 117;

/// The Pump.fun / Pump fees account kinds, by discriminator.
#[derive(Clone, Copy, Debug, PartialEq, Eq, Structural)]
pub enum PumpFunAccountKind {
    FeeConfig,
    SharingConfig,
    GlobalVolumeAccumulator,
    UserVolumeAccumulator,
    BondingCurve,
    Global,
}

/// The kind that `data` announces, tried in the order the decoder tries them.
pub open spec fn pumpfun_kind(data: Seq<u8>) -> Option<PumpFunAccountKind> {
    if starts_with(data, FEE_CONFIG_DISCRIMINATOR@) {
        Some(PumpFunAccountKind::FeeConfig)
    } else if starts_with(data, SHARING_CONFIG_DISCRIMINATOR@) {
        Some(PumpFunAccountKind::SharingConfig)
    } else if starts_with(data, GLOBAL_VOLUME_ACCUMULATOR_DISCRIMINATOR@) {
        Some(PumpFunAccountKind::GlobalVolumeAccumulator)
    } else if starts_with(data, USER_VOLUME_ACCUMULATOR_DISCRIMINATOR@) {
        Some(PumpFunAccountKind::UserVolumeAccumulator)
    } else if starts_with(data, BONDING_CURVE_DISCRIMINATOR@) {
        Some(PumpFunAccountKind::BondingCurve)
    } else if starts_with(data, GLOBAL_DISCRIMINATOR@) {
        Some(PumpFunAccountKind::Global)
    } else {
        None
    }
}

/// The event type of each account kind.
pub open spec fn pumpfun_event_type(k: PumpFunAccountKind) -> EventType {
    match k {
        PumpFunAccountKind::FeeConfig => EventType::AccountPumpFunFeeConfig,
        PumpFunAccountKind::SharingConfig => EventType::AccountPumpFunSharingConfig,
        PumpFunAccountKind::GlobalVolumeAccumulator => EventType::AccountPumpFunGlobalVolumeAccumulator,
        PumpFunAccountKind::UserVolumeAccumulator => EventType::AccountPumpFunUserVolumeAccumulator,
        PumpFunAccountKind::BondingCurve => EventType::AccountPumpFunBondingCurve,
        PumpFunAccountKind::Global => EventType::AccountPumpFunGlobal,
    }
}

// ---- fee config -----------------------------------------------------------

/// `f` holds the three fee rates laid out at `off`.
pub open spec fn fees_decoded(f: PumpFeesFees, b: Seq<u8>, off: int) -> bool {
    &&& f.lp_fee_bps == u64_at(b, off)
    &&& f.protocol_fee_bps == u64_at(b, off + 8)
    &&& f.creator_fee_bps == u64_at(b, off + 16)
}

/// `t` holds the fee tier laid out at `off`.
pub open spec fn tier_decoded(t: PumpFeesFeeTier, b: Seq<u8>, off: int) -> bool {
    &&& t.market_cap_lamports_threshold == u128_at(b, off)
    &&& fees_decoded(t.fees, b, off + 16)
}

/// A length-prefixed fee tier list at `off` fits in `b` and is not over-long.
pub open spec fn tiers_fit(b: Seq<u8>, off: int) -> bool {
    &&& fits(b, off, 4)
    &&& u32_at(b, off) <= MAX_FEE_TIERS
    &&& fits(b, off + 4, 40 * u32_at(b, off))
}

/// `ts` is the fee tier list laid out at `off`.
pub open spec fn tiers_decoded(ts: Seq<PumpFeesFeeTier>, b: Seq<u8>, off: int) -> bool {
    &&& ts.len() == u32_at(b, off)
    &&& forall|i: int| 0 <= i < ts.len() ==> tier_decoded(#[trigger] ts[i], b, off + 4 + 40 * i)
}

/// Offset just past the fee tier list at `off`.
pub open spec fn tiers_end(b: Seq<u8>, off: int) -> int {
    off + 4 + 40 * u32_at(b, off)
}

pub open spec fn fee_config_layout_ok(b: Seq<u8>) -> bool {
    &&& b.len() >= 57
    &&& tiers_fit(b, 57)
    &&& tiers_fit(b, tiers_end(b, 57))
}

pub open spec fn fee_config_decoded(c: PumpFunFeeConfig, b: Seq<u8>) -> bool {
    &&& c.bump == b[0]
    &&& c.admin@ == key_at(b, 1)
    &&& fees_decoded(c.flat_fees, b, 33)
    &&& tiers_decoded(c.fee_tiers@, b, 57)
    &&& tiers_decoded(c.stable_fee_tiers@, b, tiers_end(b, 57))
}

// ---- sharing config -------------------------------------------------------

pub open spec fn sharing_config_layout_ok(b: Seq<u8>) -> bool {
    &&& b.len() >= 72
    &&& b[2] <= 1
    &&& u32_at(b, 68) <= MAX_SHAREHOLDERS
    &&& fits(b, 72, 34 * u32_at(b, 68))
}

/// `s` is the shareholder laid out at `off`.
pub open spec fn shareholder_decoded(s: PumpFeesShareholder, b: Seq<u8>, off: int) -> bool {
    &&& s.address@ == key_at(b, off)
    &&& s.share_bps == u16_at(b, off + 32)
}

/// `ss` is the list of `n` shareholders laid out from `off`.
pub open spec fn shareholders_decoded(ss: Seq<PumpFeesShareholder>, b: Seq<u8>, off: int, n: int) -> bool {
    &&& ss.len() == n
    &&& forall|i: int|
        0 <= i < ss.len() ==> shareholder_decoded(#[trigger] ss[i], b, off + 34 * i)
}

pub open spec fn sharing_config_decoded(c: PumpFunSharingConfig, b: Seq<u8>) -> bool {
    &&& c.bump == b[0]
    &&& c.version == b[1]
    &&& c.status == (if b[2] == 0 {
        PumpFeesConfigStatus::Paused
    } else {
        PumpFeesConfigStatus::Active
    })
    &&& c.mint@ == key_at(b, 3)
    &&& c.admin@ == key_at(b, 35)
    &&& c.admin_revoked == (b[67] != 0)
    &&& shareholders_decoded(c.shareholders@, b, 72, u32_at(b, 68) as int)
}

// ---- volume accumulators --------------------------------------------------

pub open spec fn global_volume_decoded(g: PumpFunGlobalVolumeAccumulator, b: Seq<u8>) -> bool {
    &&& g.start_time == i64_at(b, 0)
    &&& g.end_time == i64_at(b, 8)
    &&& g.seconds_in_a_day == i64_at(b, 16)
    &&& g.mint@ == key_at(b, 24)
    &&& forall|i: int| 0 <= i < 30 ==> #[trigger] g.total_token_supply@[i] == u64_at(b, 56 + 8 * i)
    &&& forall|i: int| 0 <= i < 30 ==> #[trigger] g.sol_volumes@[i] == u64_at(b, 296 + 8 * i)
}

pub open spec fn user_volume_decoded(u: PumpFunUserVolumeAccumulator, b: Seq<u8>) -> bool {
    &&& u.user@ == key_at(b, 0)
    &&& u.needs_claim == (b[32] != 0)
    &&& u.total_unclaimed_tokens == u64_at(b, 33)
    &&& u.total_claimed_tokens == u64_at(b, 41)
    &&& u.current_sol_volume == u64_at(b, 49)
    &&& u.last_update_timestamp == i64_at(b, 57)
    &&& u.has_total_claimed_tokens == (b[65] != 0)
    &&& u.cashback_earned == u64_at(b, 66)
    &&& u.total_cashback_claimed == u64_at(b, 74)
    &&& u.stable_cashback_earned == u64_at(b, 82)
    &&& u.total_stable_cashback_claimed == u64_at(b, 90)
}

// ---- bonding curve --------------------------------------------------------

/// A bonding curve body is either current (possibly padded) or one of the
/// complete historical layouts; partial field data is refused.
pub open spec fn bonding_curve_layout_ok(b: Seq<u8>) -> bool {
    ||| b.len() >= BONDING_CURVE_FIELDS_LEN
    ||| b.len() == 41
    ||| b.len() == 73
    ||| b.len() == 74
    ||| b.len() == 75
    ||| b.len() == 107
    ||| b.len() == 115
    ||| b.len() == 116
}

pub open spec fn bonding_curve_decoded(c: PumpFunBondingCurve, b: Seq<u8>) -> bool {
    &&& c.virtual_token_reserves == u64_at(b, 0)
    &&& c.virtual_quote_reserves == u64_at(b, 8)
    &&& c.real_token_reserves == u64_at(b, 16)
    &&& c.real_quote_reserves == u64_at(b, 24)
    &&& c.token_total_supply == u64_at(b, 32)
    &&& c.complete == (b[40] != 0)
    &&& c.creator@ == key_or_zero(b, 41)
    &&& c.is_mayhem_mode == (byte_or_zero(b, 73) != 0)
    &&& c.is_cashback_coin == (byte_or_zero(b, 74) != 0)
    &&& c.quote_mint@ == key_or_zero(b, 75)
    &&& c.creator_fee_bps == u64_or_zero(b, 107)
    &&& c.can_edit_creator_fee == (byte_or_zero(b, 115) != 0)
    &&& c.is_holder_reward == (byte_or_zero(b, 116) != 0)
}

// ---- global ---------------------------------------------------------------

pub open spec fn global_decoded(g: PumpFunGlobal, b: Seq<u8>) -> bool {
    &&& g.initialized == (b[0] != 0)
    &&& g.authority@ == key_at(b, 1)
    &&& g.fee_recipient@ == key_at(b, 33)
    &&& g.initial_virtual_token_reserves == u64_at(b, 65)
    &&& g.initial_virtual_sol_reserves == u64_at(b, 73)
    &&& g.initial_real_token_reserves == u64_at(b, 81)
    &&& g.token_total_supply == u64_at(b, 89)
    &&& g.fee_basis_points == u64_at(b, 97)
    &&& g.withdraw_authority@ == key_at(b, 105)
    &&& g.enable_migrate == (b[137] != 0)
    &&& g.pool_migration_fee == u64_at(b, 138)
    &&& g.creator_fee_basis_points == u64_at(b, 146)
    &&& forall|i: int| 0 <= i < 7 ==> (#[trigger] g.fee_recipients@[i])@ == key_at(b, 154 + 32 * i)
    &&& g.set_creator_authority@ == key_at(b, 378)
    &&& g.admin_set_creator_authority@ == key_at(b, 410)
    &&& g.create_v2_enabled == (b[442] != 0)
    &&& g.whitelist_pda@ == key_at(b, 443)
    &&& g.reserved_fee_recipient@ == key_at(b, 475)
    &&& g.mayhem_mode_enabled == (b[507] != 0)
    &&& forall|i: int|
        0 <= i < 7 ==> (#[trigger] g.reserved_fee_recipients@[i])@ == key_at(b, 508 + 32 * i)
    &&& g.is_cashback_enabled == (b[732] != 0)
    &&& forall|i: int|
        0 <= i < 8 ==> (#[trigger] g.buyback_fee_recipients@[i])@ == key_at(b, 733 + 32 * i)
    &&& g.buyback_basis_points == u64_at(b, 989)
    &&& g.initial_virtual_quote_reserves == u64_at(b, 997)
    &&& g.whitelisted_quote_mints@[0]@ == key_at(b, 1005)
}

// ---- whole account --------------------------------------------------------

/// Whether `data` decodes as a Pump.fun / Pump fees account.
pub open spec fn pumpfun_accepted(data: Seq<u8>) -> bool {
    let b = body_of(data);
    match pumpfun_kind(data) {
        None => false,
        Some(PumpFunAccountKind::FeeConfig) => fee_config_layout_ok(b),
        Some(PumpFunAccountKind::SharingConfig) => sharing_config_layout_ok(b),
        Some(PumpFunAccountKind::GlobalVolumeAccumulator) => b.len() >= GLOBAL_VOLUME_FIELDS_LEN,
        Some(PumpFunAccountKind::UserVolumeAccumulator) => b.len() >= USER_VOLUME_FIELDS_LEN,
        Some(PumpFunAccountKind::BondingCurve) => bonding_curve_layout_ok(b),
        Some(PumpFunAccountKind::Global) => b.len() >= GLOBAL_FIELDS_LEN,
    }
}

/// `ev` is the event decoded from `account` of kind `pumpfun_kind`, observed with `metadata`.
pub open spec fn pumpfun_event_of(ev: DexEvent, account: AccountData, metadata: EventMetadata) -> bool {
    let b = body_of(account.data@);
    match pumpfun_kind(account.data@) {
        None => false,
        Some(PumpFunAccountKind::FeeConfig) => ev matches DexEvent::PumpFunFeeConfigAccount(e)
            && e.metadata == metadata && e.pubkey == account.pubkey && fee_config_decoded(
            e.fee_config,
            b,
        ),
        Some(PumpFunAccountKind::SharingConfig) => ev matches DexEvent::PumpFunSharingConfigAccount(
            e,
        ) && e.metadata == metadata && e.pubkey == account.pubkey && sharing_config_decoded(
            e.sharing_config,
            b,
        ),
        Some(
            PumpFunAccountKind::GlobalVolumeAccumulator,
        ) => ev matches DexEvent::PumpFunGlobalVolumeAccumulatorAccount(e) && e.metadata == metadata
            && e.pubkey == account.pubkey && global_volume_decoded(e.global_volume_accumulator, b),
        Some(
            PumpFunAccountKind::UserVolumeAccumulator,
        ) => ev matches DexEvent::PumpFunUserVolumeAccumulatorAccount(e) && e.metadata == metadata
            && e.pubkey == account.pubkey && user_volume_decoded(e.user_volume_accumulator, b),
        Some(PumpFunAccountKind::BondingCurve) => ev matches DexEvent::PumpFunBondingCurveAccount(e)
            && e.metadata == metadata && e.pubkey == account.pubkey && bonding_curve_decoded(
            e.bonding_curve,
            b,
        ),
        Some(PumpFunAccountKind::Global) => ev matches DexEvent::PumpFunGlobalAccount(e)
            && e.metadata == metadata && e.pubkey == account.pubkey && global_decoded(e.global, b),
    }
}

// ---- decoders -------------------------------------------------------------

fn read_fees(b: &[u8], off: usize) -> (r: PumpFeesFees)
    requires
        fits(b@, off as int, 24),
    ensures
        fees_decoded(r, b@, off as int),
{
    proof { lemma_len_fits_usize(b); }
    PumpFeesFees {
        lp_fee_bps: load_u64(b, off),
        protocol_fee_bps: load_u64(b, off + 8),
        creator_fee_bps: load_u64(b, off + 16),
    }
}

/// Reads the length-prefixed fee tier list at `off`, with the offset past it.
fn read_fee_tiers(b: &[u8], off: usize) -> (r: Option<(Vec<PumpFeesFeeTier>, usize)>)
    requires
        off <= b@.len(),
    ensures
        r is Some <==> tiers_fit(b@, off as int),
        r matches Some((ts, end)) ==> tiers_decoded(ts@, b@, off as int) && end == tiers_end(
            b@,
            off as int,
        ),
{
    let n = b.len();
    if n - off < 4 {
        return None;
    }
    let count = load_u32(b, off) as usize;
    if count > MAX_FEE_TIERS {
        return None;
    }
    if n - off - 4 < 40 * count {
        return None;
    }
    let mut out: Vec<PumpFeesFeeTier> = Vec::new();
    let mut i: usize = 0;
    while i < count
        invariant
            n == b@.len(),
            off + 4 + 40 * count <= n,
            count <= MAX_FEE_TIERS,
            0 <= i <= count,
            out@.len() == i,
            forall|j: int| 0 <= j < i ==> tier_decoded(#[trigger] out@[j], b@, off + 4 + 40 * j),
        decreases count - i,
    {
        let at = off + 4 + 40 * i;
        let t = PumpFeesFeeTier { market_cap_lamports_threshold: load_u128(b, at), fees: read_fees(b, at + 16) };
        out.push(t);
        i = i + 1;
    }
    Some((out, off + 4 + 40 * count))
}

fn decode_fee_config(b: &[u8]) -> (r: Option<PumpFunFeeConfig>)
    ensures
        r is Some <==> fee_config_layout_ok(b@),
        r matches Some(c) ==> fee_config_decoded(c, b@),
{
    if b.len() < 57 {
        return None;
    }
    let (fee_tiers, next) = match read_fee_tiers(b, 57) {
        Some(x) => x,
        None => return None,
    };
    let (stable_fee_tiers, _) = match read_fee_tiers(b, next) {
        Some(x) => x,
        None => return None,
    };
    Some(
        PumpFunFeeConfig {
            bump: b[0],
            admin: load_key(b, 1),
            flat_fees: read_fees(b, 33),
            fee_tiers,
            stable_fee_tiers,
        },
    )
}

fn decode_sharing_config(b: &[u8]) -> (r: Option<PumpFunSharingConfig>)
    ensures
        r is Some <==> sharing_config_layout_ok(b@),
        r matches Some(c) ==> sharing_config_decoded(c, b@),
{
    let n = b.len();
    if n < 72 {
        return None;
    }
    let status = if b[2] == 0 {
        PumpFeesConfigStatus::Paused
    } else if b[2] == 1 {
        PumpFeesConfigStatus::Active
    } else {
        return None;
    };
    let count = load_u32(b, 68) as usize;
    if count > MAX_SHAREHOLDERS {
        return None;
    }
    if n - 72 < 34 * count {
        return None;
    }
    let mut shareholders: Vec<PumpFeesShareholder> = Vec::new();
    let mut i: usize = 0;
    while i < count
        invariant
            n == b@.len(),
            72 + 34 * count <= n,
            count <= MAX_SHAREHOLDERS,
            0 <= i <= count,
            shareholders@.len() == i,
            forall|j: int|
                0 <= j < i ==> shareholder_decoded(#[trigger] shareholders@[j], b@, 72 + 34 * j),
        decreases count - i,
    {
        let at = 72 + 34 * i;
        shareholders.push(PumpFeesShareholder { address: load_key(b, at), share_bps: load_u16(b, at + 32) });
        i = i + 1;
    }
    Some(
        PumpFunSharingConfig {
            bump: b[0],
            version: b[1],
            status,
            mint: load_key(b, 3),
            admin: load_key(b, 35),
            admin_revoked: b[67] != 0,
            shareholders,
        },
    )
}

fn decode_global_volume(b: &[u8]) -> (r: PumpFunGlobalVolumeAccumulator)
    requires
        b@.len() >= GLOBAL_VOLUME_FIELDS_LEN,
    ensures
        global_volume_decoded(r, b@),
{
    let mut total_token_supply = [0u64; 30];
    let mut i: usize = 0;
    while i < 30
        invariant
            0 <= i <= 30,
            b@.len() >= GLOBAL_VOLUME_FIELDS_LEN,
            forall|j: int| 0 <= j < i ==> #[trigger] total_token_supply@[j] == u64_at(b@, 56 + 8 * j),
        decreases 30 - i,
    {
        total_token_supply[i] = load_u64(b, 56 + 8 * i);
        i = i + 1;
    }
    let mut sol_volumes = [0u64; 30];
    let mut i: usize = 0;
    while i < 30
        invariant
            0 <= i <= 30,
            b@.len() >= GLOBAL_VOLUME_FIELDS_LEN,
            forall|j: int| 0 <= j < i ==> #[trigger] sol_volumes@[j] == u64_at(b@, 296 + 8 * j),
        decreases 30 - i,
    {
        sol_volumes[i] = load_u64(b, 296 + 8 * i);
        i = i + 1;
    }
    PumpFunGlobalVolumeAccumulator {
        start_time: load_i64(b, 0),
        end_time: load_i64(b, 8),
        seconds_in_a_day: load_i64(b, 16),
        mint: load_key(b, 24),
        total_token_supply,
        sol_volumes,
    }
}

fn decode_user_volume(b: &[u8]) -> (r: PumpFunUserVolumeAccumulator)
    requires
        b@.len() >= USER_VOLUME_FIELDS_LEN,
    ensures
        user_volume_decoded(r, b@),
{
    PumpFunUserVolumeAccumulator {
        user: load_key(b, 0),
        needs_claim: b[32] != 0,
        total_unclaimed_tokens: load_u64(b, 33),
        total_claimed_tokens: load_u64(b, 41),
        current_sol_volume: load_u64(b, 49),
        last_update_timestamp: load_i64(b, 57),
        has_total_claimed_tokens: b[65] != 0,
        cashback_earned: load_u64(b, 66),
        total_cashback_claimed: load_u64(b, 74),
        stable_cashback_earned: load_u64(b, 82),
        total_stable_cashback_claimed: load_u64(b, 90),
    }
}

fn decode_bonding_curve(b: &[u8]) -> (r: Option<PumpFunBondingCurve>)
    ensures
        r is Some <==> bonding_curve_layout_ok(b@),
        r matches Some(c) ==> bonding_curve_decoded(c, b@),
{
    let n = b.len();
    if n < BONDING_CURVE_FIELDS_LEN && !(n == 41 || n == 73 || n == 74 || n == 75 || n == 107
        || n == 115 || n == 116) {
        return None;
    }
    Some(
        PumpFunBondingCurve {
            virtual_token_reserves: load_u64(b, 0),
            virtual_quote_reserves: load_u64(b, 8),
            real_token_reserves: load_u64(b, 16),
            real_quote_reserves: load_u64(b, 24),
            token_total_supply: load_u64(b, 32),
            complete: b[40] != 0,
            creator: load_key_or_zero(b, 41),
            is_mayhem_mode: load_byte_or_zero(b, 73) != 0,
            is_cashback_coin: load_byte_or_zero(b, 74) != 0,
            quote_mint: load_key_or_zero(b, 75),
            creator_fee_bps: load_u64_or_zero(b, 107),
            can_edit_creator_fee: load_byte_or_zero(b, 115) != 0,
            is_holder_reward: load_byte_or_zero(b, 116) != 0,
        },
    )
}

/// Loads `N` consecutive keys starting at `off`.
fn load_keys<const N: usize>(b: &[u8], off: usize) -> (r: [Pubkey; N])
    requires
        fits(b@, off as int, 32 * N),
    ensures
        forall|i: int| 0 <= i < N ==> (#[trigger] r@[i])@ == key_at(b@, off + 32 * i),
{
    proof { lemma_len_fits_usize(b); }
    let mut keys = [Pubkey([0u8; 32]); N];
    let mut i: usize = 0;
    while i < N
        invariant
            0 <= i <= N,
            b@.len() <= usize::MAX,
            fits(b@, off as int, 32 * N),
            keys@.len() == N,
            forall|j: int| 0 <= j < i ==> (#[trigger] keys@[j])@ == key_at(b@, off + 32 * j),
        decreases N - i,
    {
        keys[i] = load_key(b, off + 32 * i);
        i = i + 1;
    }
    keys
}

fn decode_global(b: &[u8]) -> (r: PumpFunGlobal)
    requires
        b@.len() >= GLOBAL_FIELDS_LEN,
    ensures
        global_decoded(r, b@),
{
    let fee_recipients: [Pubkey; 7] = load_keys(b, 154);
    let reserved_fee_recipients: [Pubkey; 7] = load_keys(b, 508);
    let buyback_fee_recipients: [Pubkey; 8] = load_keys(b, 733);
    let whitelisted_quote_mints: [Pubkey; 1] = load_keys(b, 1005);
    PumpFunGlobal {
        initialized: b[0] != 0,
        authority: load_key(b, 1),
        fee_recipient: load_key(b, 33),
        initial_virtual_token_reserves: load_u64(b, 65),
        initial_virtual_sol_reserves: load_u64(b, 73),
        initial_real_token_reserves: load_u64(b, 81),
        token_total_supply: load_u64(b, 89),
        fee_basis_points: load_u64(b, 97),
        withdraw_authority: load_key(b, 105),
        enable_migrate: b[137] != 0,
        pool_migration_fee: load_u64(b, 138),
        creator_fee_basis_points: load_u64(b, 146),
        fee_recipients,
        set_creator_authority: load_key(b, 378),
        admin_set_creator_authority: load_key(b, 410),
        create_v2_enabled: b[442] != 0,
        whitelist_pda: load_key(b, 443),
        reserved_fee_recipient: load_key(b, 475),
        mayhem_mode_enabled: b[507] != 0,
        reserved_fee_recipients,
        is_cashback_enabled: b[732] != 0,
        buyback_fee_recipients,
        buyback_basis_points: load_u64(b, 989),
        initial_virtual_quote_reserves: load_u64(b, 997),
        whitelisted_quote_mints,
    }
}

/// Decodes any Pump.fun / Pump fees account, chosen by its discriminator.
pub fn parse_pumpfun_account(account: &AccountData, metadata: EventMetadata) -> (r: Option<DexEvent>)
    ensures
        r is Some <==> pumpfun_accepted(account.data@),
        r matches Some(ev) ==> pumpfun_event_of(ev, *account, metadata),
{
    let data = account.data.as_slice();
    if has_discriminator(data, &FEE_CONFIG_DISCRIMINATOR) {
        let body = &data[8..data.len()];
        let fee_config = match decode_fee_config(body) {
            Some(c) => c,
            None => return None,
        };
        return Some(DexEvent::PumpFunFeeConfigAccount(PumpFunFeeConfigAccountEvent { metadata, pubkey: account.pubkey, fee_config }));
    }
    if has_discriminator(data, &SHARING_CONFIG_DISCRIMINATOR) {
        let body = &data[8..data.len()];
        let sharing_config = match decode_sharing_config(body) {
            Some(c) => c,
            None => return None,
        };
        return Some(DexEvent::PumpFunSharingConfigAccount(PumpFunSharingConfigAccountEvent { metadata, pubkey: account.pubkey, sharing_config }));
    }
    if has_discriminator(data, &GLOBAL_VOLUME_ACCUMULATOR_DISCRIMINATOR) {
        let body = &data[8..data.len()];
        if body.len() < GLOBAL_VOLUME_FIELDS_LEN {
            return None;
        }
        let global_volume_accumulator = decode_global_volume(body);
        return Some(DexEvent::PumpFunGlobalVolumeAccumulatorAccount(PumpFunGlobalVolumeAccumulatorAccountEvent { metadata, pubkey: account.pubkey, global_volume_accumulator }));
    }
    if has_discriminator(data, &USER_VOLUME_ACCUMULATOR_DISCRIMINATOR) {
        let body = &data[8..data.len()];
        if body.len() < USER_VOLUME_FIELDS_LEN {
            return None;
        }
        let user_volume_accumulator = decode_user_volume(body);
        return Some(DexEvent::PumpFunUserVolumeAccumulatorAccount(PumpFunUserVolumeAccumulatorAccountEvent { metadata, pubkey: account.pubkey, user_volume_accumulator }));
    }
    if has_discriminator(data, &BONDING_CURVE_DISCRIMINATOR) {
        let body = &data[8..data.len()];
        let bonding_curve = match decode_bonding_curve(body) {
            Some(c) => c,
            None => return None,
        };
        return Some(DexEvent::PumpFunBondingCurveAccount(PumpFunBondingCurveAccountEvent { metadata, pubkey: account.pubkey, bonding_curve }));
    }
    if !has_discriminator(data, &GLOBAL_DISCRIMINATOR) {
        return None;
    }
    let body = &data[8..data.len()];
    if body.len() < GLOBAL_FIELDS_LEN {
        return None;
    }
    let global = decode_global(body);
    Some(DexEvent::PumpFunGlobalAccount(PumpFunGlobalAccountEvent { metadata, pubkey: account.pubkey, global }))
}

} // verus!
