//! PumpSwap global config and pool accounts.
use vstd::prelude::*;
use crate::accounts::utils::{has_discriminator, starts_with};
use crate::events::{
    AccountData, DexEvent, EventMetadata, PumpSwapGlobalConfig, PumpSwapGlobalConfigAccountEvent,
    PumpSwapPool, PumpSwapPoolAccountEvent,
};
use crate::layout::{
    byte_or_zero, i128_or_zero, key_at, key_or_zero, load_byte_or_zero, load_i128_or_zero,
    load_key, load_key_or_zero, load_u16, load_u64, load_u64_or_zero, u16_at, u64_at,
    u64_or_zero,
};
use crate::pubkey::Pubkey;

pub mod discriminators;

verus! {

/// Size of the global config body after the discriminator, as first laid out.
pub const GLOBAL_CONFIG_SIZE: usize = 32 + 8 + 8 + 1 + 32 * 8 + 8 + 32;

/// Pool body sizes (after the discriminator) of the successive layouts.
pub const POOL_LEGACY_SIZE: usize = 244;

pub const POOL_BOOST_SIZE: usize = 253;

pub const POOL_CREATOR_FEE_SIZE: usize = 262;

pub const POOL_SIZE: usize = 263;

/// Body length that the global config fields occupy in full.
pub const GLOBAL_CONFIG_FIELDS_LEN: usize = 634;

/// Account data after its 8-byte discriminator.
pub open spec fn body_of(data: Seq<u8>) -> Seq<u8> {
    data.subrange(8, data.len() as int)
}

/// Whether `data` decodes as a global config account.
pub open spec fn global_config_accepted(data: Seq<u8>) -> bool {
    &&& starts_with(data, discriminators::GLOBAL_CONFIG_ACCOUNT@)
    &&& data.len() >= 8 + GLOBAL_CONFIG_FIELDS_LEN
}

/// `g` holds the fields laid out in the global config body `b`.
pub open spec fn global_config_decoded(g: PumpSwapGlobalConfig, b: Seq<u8>) -> bool {
    &&& g.admin@ == key_at(b, 0)
    &&& g.lp_fee_basis_points == u64_at(b, 32)
    &&& g.protocol_fee_basis_points == u64_at(b, 40)
    &&& g.disable_flags == b[48]
    &&& forall|i: int|
        0 <= i < 8 ==> (#[trigger] g.protocol_fee_recipients@[i])@ == key_at(b, 49 + 32 * i)
    &&& g.coin_creator_fee_basis_points == u64_at(b, 305)
    &&& g.admin_set_coin_creator_authority@ == key_at(b, 313)
    &&& g.whitelist_pda@ == key_at(b, 345)
    &&& g.reserved_fee_recipient@ == key_at(b, 377)
    &&& g.mayhem_mode_enabled == (b[409] != 0)
    &&& forall|i: int|
        0 <= i < 7 ==> (#[trigger] g.reserved_fee_recipients@[i])@ == key_at(b, 410 + 32 * i)
}

/// `e` is the global config event for `account`, observed with `metadata`.
pub open spec fn global_config_event_of(
    e: PumpSwapGlobalConfigAccountEvent,
    account: AccountData,
    metadata: EventMetadata,
) -> bool {
    &&& e.metadata == metadata
    &&& e.pubkey == account.pubkey
    &&& e.executable == account.executable
    &&& e.lamports == account.lamports
    &&& e.owner == account.owner
    &&& e.rent_epoch == account.rent_epoch
    &&& global_config_decoded(e.global_config, body_of(account.data@))
}

/// Whether a pool body of this shape is one of the known layouts: a current
/// one (possibly padded), a complete historical one, or the zero-padded legacy one.
pub open spec fn pool_layout_accepted(b: Seq<u8>) -> bool {
    ||| b.len() >= POOL_SIZE
    ||| b.len() == 203
    ||| b.len() == 235
    ||| b.len() == 236
    ||| b.len() == 237
    ||| b.len() == 253
    ||| b.len() == 261
    ||| b.len() == 262
    ||| (b.len() == POOL_LEGACY_SIZE && forall|i: int| 237 <= i < 244 ==> b[i] == 0)
}

/// Whether `data` decodes as a pool account.
pub open spec fn pool_accepted(data: Seq<u8>) -> bool {
    &&& starts_with(data, discriminators::POOL_ACCOUNT@)
    &&& pool_layout_accepted(body_of(data))
}

/// `p` holds the fields laid out in the pool body `b`; fields past its end
/// take their zero value.
pub open spec fn pool_decoded(p: PumpSwapPool, b: Seq<u8>) -> bool {
    &&& p.pool_bump == b[0]
    &&& p.index == u16_at(b, 1)
    &&& p.creator@ == key_at(b, 3)
    &&& p.base_mint@ == key_at(b, 35)
    &&& p.quote_mint@ == key_at(b, 67)
    &&& p.lp_mint@ == key_at(b, 99)
    &&& p.pool_base_token_account@ == key_at(b, 131)
    &&& p.pool_quote_token_account@ == key_at(b, 163)
    &&& p.lp_supply == u64_at(b, 195)
    &&& p.coin_creator@ == key_or_zero(b, 203)
    &&& p.is_mayhem_mode == (byte_or_zero(b, 235) != 0)
    &&& p.is_cashback_coin == (byte_or_zero(b, 236) != 0)
    &&& p.virtual_quote_reserves == i128_or_zero(b, 237)
    &&& p.creator_fee_bps == u64_or_zero(b, 253)
    &&& p.can_edit_creator_fee == (byte_or_zero(b, 261) != 0)
    &&& p.is_holder_reward == (byte_or_zero(b, 262) != 0)
}

/// `e` is the pool event for `account`, observed with `metadata`.
pub open spec fn pool_event_of(
    e: PumpSwapPoolAccountEvent,
    account: AccountData,
    metadata: EventMetadata,
) -> bool {
    &&& e.metadata == metadata
    &&& e.pubkey == account.pubkey
    &&& e.executable == account.executable
    &&& e.lamports == account.lamports
    &&& e.owner == account.owner
    &&& e.rent_epoch == account.rent_epoch
    &&& pool_decoded(e.pool, body_of(account.data@))
}

/// Decodes a PumpSwap global config account.
pub fn parse_global_config(account: &AccountData, metadata: EventMetadata) -> (r: Option<DexEvent>)
    ensures
        r is Some <==> global_config_accepted(account.data@),
        r matches Some(ev) ==> ev matches DexEvent::PumpSwapGlobalConfigAccount(e)
            && global_config_event_of(e, *account, metadata),
{
    let data = account.data.as_slice();
    if data.len() < GLOBAL_CONFIG_SIZE + 8 {
        return None;
    }
    if !has_discriminator(data, &discriminators::GLOBAL_CONFIG_ACCOUNT) {
        return None;
    }
    let body = &data[8..data.len()];
    if body.len() < GLOBAL_CONFIG_FIELDS_LEN {
        return None;
    }
    let mut protocol_fee_recipients = [Pubkey([0u8; 32]); 8];
    let mut i: usize = 0;
    while i < 8
        invariant
            0 <= i <= 8,
            body@.len() >= GLOBAL_CONFIG_FIELDS_LEN,
            forall|j: int|
                0 <= j < i ==> (#[trigger] protocol_fee_recipients@[j])@ == key_at(
                    body@,
                    49 + 32 * j,
                ),
        decreases 8 - i,
    {
        protocol_fee_recipients[i] = load_key(body, 49 + 32 * i);
        i = i + 1;
    }
    let mut reserved_fee_recipients = [Pubkey([0u8; 32]); 7];
    let mut i: usize = 0;
    while i < 7
        invariant
            0 <= i <= 7,
            body@.len() >= GLOBAL_CONFIG_FIELDS_LEN,
            forall|j: int|
                0 <= j < i ==> (#[trigger] reserved_fee_recipients@[j])@ == key_at(
                    body@,
                    410 + 32 * j,
                ),
        decreases 7 - i,
    {
        reserved_fee_recipients[i] = load_key(body, 410 + 32 * i);
        i = i + 1;
    }
    let global_config = PumpSwapGlobalConfig {
        admin: load_key(body, 0),
        lp_fee_basis_points: load_u64(body, 32),
        protocol_fee_basis_points: load_u64(body, 40),
        disable_flags: body[48],
        protocol_fee_recipients,
        coin_creator_fee_basis_points: load_u64(body, 305),
        admin_set_coin_creator_authority: load_key(body, 313),
        whitelist_pda: load_key(body, 345),
        reserved_fee_recipient: load_key(body, 377),
        mayhem_mode_enabled: body[409] != 0,
        reserved_fee_recipients,
    };
    Some(
        DexEvent::PumpSwapGlobalConfigAccount(
            PumpSwapGlobalConfigAccountEvent {
                metadata,
                pubkey: account.pubkey,
                executable: account.executable,
                lamports: account.lamports,
                owner: account.owner,
                rent_epoch: account.rent_epoch,
                global_config,
            },
        ),
    )
}

/// Whether every byte of `b` from `start` on is zero.
fn all_zero_from(b: &[u8], start: usize) -> (r: bool)
    ensures
        r == (forall|i: int| start <= i < b@.len() ==> b@[i] == 0),
{
    let mut i = start;
    while i < b.len()
        invariant
            start <= i,
            forall|j: int| start <= j < i && j < b@.len() ==> b@[j] == 0,
        decreases b@.len() - i,
    {
        if b[i] != 0 {
            return false;
        }
        i = i + 1;
    }
    true
}

/// Decodes a PumpSwap pool account in any of its known layouts.
pub fn parse_pool(account: &AccountData, metadata: EventMetadata) -> (r: Option<DexEvent>)
    ensures
        r is Some <==> pool_accepted(account.data@),
        r matches Some(ev) ==> ev matches DexEvent::PumpSwapPoolAccount(e) && pool_event_of(
            e,
            *account,
            metadata,
        ),
{
    let data = account.data.as_slice();
    if !has_discriminator(data, &discriminators::POOL_ACCOUNT) {
        return None;
    }
    let body = &data[8..data.len()];
    let n = body.len();
    let legacy_padding = n == POOL_LEGACY_SIZE && all_zero_from(body, 237);
    if n < POOL_SIZE && !(n == 203 || n == 235 || n == 236 || n == 237 || n == 253 || n == 261
        || n == 262) && !legacy_padding {
        return None;
    }
    let pool = PumpSwapPool {
        pool_bump: body[0],
        index: load_u16(body, 1),
        creator: load_key(body, 3),
        base_mint: load_key(body, 35),
        quote_mint: load_key(body, 67),
        lp_mint: load_key(body, 99),
        pool_base_token_account: load_key(body, 131),
        pool_quote_token_account: load_key(body, 163),
        lp_supply: load_u64(body, 195),
        coin_creator: load_key_or_zero(body, 203),
        is_mayhem_mode: load_byte_or_zero(body, 235) != 0,
        is_cashback_coin: load_byte_or_zero(body, 236) != 0,
        virtual_quote_reserves: load_i128_or_zero(body, 237),
        creator_fee_bps: load_u64_or_zero(body, 253),
        can_edit_creator_fee: load_byte_or_zero(body, 261) != 0,
        is_holder_reward: load_byte_or_zero(body, 262) != 0,
    };
    Some(
        DexEvent::PumpSwapPoolAccount(
            PumpSwapPoolAccountEvent {
                metadata,
                pubkey: account.pubkey,
                executable: account.executable,
                lamports: account.lamports,
                owner: account.owner,
                rent_epoch: account.rent_epoch,
                pool,
            },
        ),
    )
}

/// Whether `data` carries the global config discriminator.
pub fn is_global_config_account(data: &[u8]) -> (r: bool)
    ensures
        r == starts_with(data@, discriminators::GLOBAL_CONFIG_ACCOUNT@),
{
    has_discriminator(data, &discriminators::GLOBAL_CONFIG_ACCOUNT)
}

/// Whether `data` carries the pool discriminator.
pub fn is_pool_account(data: &[u8]) -> (r: bool)
    ensures
        r == starts_with(data@, discriminators::POOL_ACCOUNT@),
{
    has_discriminator(data, &discriminators::POOL_ACCOUNT)
}

} // verus!
