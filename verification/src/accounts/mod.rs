//! Decoders for on-chain account data.

pub mod utils;
pub mod program_ids;
pub mod nonce;
pub mod pumpswap;
pub mod pumpfun;

use vstd::prelude::*;
use crate::accounts::nonce::{is_nonce_account, nonce_accepted, nonce_event_of, parse_nonce_account};
use crate::accounts::program_ids::{PUMPFUN_PROGRAM_ID, PUMPSWAP_PROGRAM_ID, PUMP_FEES_PROGRAM_ID};
use crate::accounts::pumpfun::{
    parse_pumpfun_account, pumpfun_accepted, pumpfun_event_of, pumpfun_event_type, pumpfun_kind,
};
use crate::accounts::pumpswap::{
    global_config_accepted, global_config_event_of, parse_global_config, parse_pool,
    pool_accepted, pool_event_of,
};
use crate::accounts::utils::starts_with;
use crate::events::{AccountData, DexEvent, EventMetadata};
use crate::filter::{event_type_of, EventType, EventTypeFilter};
use crate::pubkey::Pubkey;

verus! {

/// `t` is one of the account event kinds.
pub open spec fn is_account_event_type(t: EventType) -> bool {
    match t {
        EventType::PumpFunCreate | EventType::PumpFunTrade | EventType::PumpFunBuy
        | EventType::PumpFunSell | EventType::PumpFunBuyExactSolIn | EventType::PumpFunMigrate
        | EventType::PumpFunMigrateBondingCurveCreator => false,
        _ => true,
    }
}

fn is_account_type(t: EventType) -> (r: bool)
    ensures
        r == is_account_event_type(t),
{
    match t {
        EventType::PumpFunCreate | EventType::PumpFunTrade | EventType::PumpFunBuy
        | EventType::PumpFunSell | EventType::PumpFunBuyExactSolIn | EventType::PumpFunMigrate
        | EventType::PumpFunMigrateBondingCurveCreator => false,
        _ => true,
    }
}

/// Whether any account event kind is listed in `types`.
fn lists_account_type(types: &Vec<EventType>) -> (r: bool)
    ensures
        r == exists|j: int| 0 <= j < types@.len() && is_account_event_type(#[trigger] types@[j]),
{
    let mut i: usize = 0;
    while i < types.len()
        invariant
            0 <= i <= types@.len(),
            forall|j: int| 0 <= j < i ==> !is_account_event_type(#[trigger] types@[j]),
        decreases types@.len() - i,
    {
        if is_account_type(types[i]) {
            return true;
        }
        i = i + 1;
    }
    false
}

/// No filter, or a filter that admits `t`.
pub open spec fn admitted(filter: Option<&EventTypeFilter>, t: EventType) -> bool {
    match filter {
        None => true,
        Some(f) => f.admits(t),
    }
}

/// The kind of PumpSwap account that `data` announces.
pub open spec fn pumpswap_event_type(data: Seq<u8>) -> EventType {
    if starts_with(data, pumpswap::discriminators::GLOBAL_CONFIG_ACCOUNT@) {
        EventType::AccountPumpSwapGlobalConfig
    } else {
        EventType::AccountPumpSwapPool
    }
}

/// Whether `data` decodes as some PumpSwap account.
pub open spec fn pumpswap_accepted(data: Seq<u8>) -> bool {
    if starts_with(data, pumpswap::discriminators::GLOBAL_CONFIG_ACCOUNT@) {
        global_config_accepted(data)
    } else {
        pool_accepted(data)
    }
}

/// `ev` is the PumpSwap event decoded from `account`.
pub open spec fn pumpswap_event_of(ev: DexEvent, account: AccountData, metadata: EventMetadata) -> bool {
    if starts_with(account.data@, pumpswap::discriminators::GLOBAL_CONFIG_ACCOUNT@) {
        ev matches DexEvent::PumpSwapGlobalConfigAccount(e) && global_config_event_of(
            e,
            account,
            metadata,
        )
    } else {
        ev matches DexEvent::PumpSwapPoolAccount(e) && pool_event_of(e, account, metadata)
    }
}

/// Decodes a PumpSwap account of either kind.
fn parse_pumpswap_account(account: &AccountData, metadata: EventMetadata) -> (r: Option<DexEvent>)
    ensures
        r is Some <==> pumpswap_accepted(account.data@),
        r matches Some(ev) ==> pumpswap_event_of(ev, *account, metadata) && event_type_of(ev)
            == pumpswap_event_type(account.data@),
{
    if pumpswap::is_global_config_account(account.data.as_slice()) {
        return parse_global_config(account, metadata);
    }
    if pumpswap::is_pool_account(account.data.as_slice()) {
        return parse_pool(account, metadata);
    }
    None
}

/// Keeps `event` only when the filter admits its kind.
fn filter_parsed_event(event: Option<DexEvent>, event_type_filter: Option<&EventTypeFilter>) -> (r:
    Option<DexEvent>)
    ensures
        r == (match event {
            Some(e) => if admitted(event_type_filter, event_type_of(e)) {
                Some(e)
            } else {
                None
            },
            None => None,
        }),
{
    let event = match event {
        Some(e) => e,
        None => return None,
    };
    let keep = match event_type_filter {
        Some(f) => f.should_include_dex_event(&event),
        None => true,
    };
    if keep {
        Some(event)
    } else {
        None
    }
}

/// The owner is the PumpSwap program.
pub open spec fn owned_by_pumpswap(account: AccountData) -> bool {
    account.owner@ == PUMPSWAP_PROGRAM_ID@
}

/// The owner is the Pump.fun program or the Pump fees program.
pub open spec fn owned_by_pumpfun(account: AccountData) -> bool {
    account.owner@ == PUMPFUN_PROGRAM_ID@ || account.owner@ == PUMP_FEES_PROGRAM_ID@
}

/// Whether the unified decoder yields an event for `account` under the filter.
pub open spec fn unified_accepted(account: AccountData, filter: Option<&EventTypeFilter>) -> bool {
    let data = account.data@;
    if owned_by_pumpswap(account) {
        pumpswap_accepted(data) && admitted(filter, pumpswap_event_type(data))
    } else if owned_by_pumpfun(account) {
        pumpfun_accepted(data) && admitted(filter, pumpfun_event_type(pumpfun_kind(data)->0))
    } else {
        nonce_accepted(account) && admitted(filter, EventType::NonceAccount)
    }
}

/// `ev` is the event that the unified decoder yields for `account`.
pub open spec fn unified_event_of(ev: DexEvent, account: AccountData, metadata: EventMetadata) -> bool {
    if owned_by_pumpswap(account) {
        pumpswap_event_of(ev, account, metadata)
    } else if owned_by_pumpfun(account) {
        pumpfun_event_of(ev, account, metadata)
    } else {
        ev matches DexEvent::NonceAccount(e) && nonce_event_of(e, account, metadata)
    }
}

/// `r` is what the unified decoder yields for `account` under the filter.
pub open spec fn unified_result(
    r: Option<DexEvent>,
    account: AccountData,
    metadata: EventMetadata,
    filter: Option<&EventTypeFilter>,
) -> bool {
    &&& r is Some <==> unified_accepted(account, filter)
    &&& r matches Some(ev) ==> unified_event_of(ev, account, metadata)
}

/// Routes an account to the decoder of its owner program and applies the
/// filter. PumpSwap and Pump.fun / Pump fees accounts are decoded by
/// discriminator; other accounts yield a nonce event when they are system-owned
/// initialized nonce accounts. Raydium, Orca and SPL token accounts have no
/// decoder here and yield `None`.
pub fn parse_account_unified(
    account: &AccountData,
    metadata: EventMetadata,
    event_type_filter: Option<&EventTypeFilter>,
) -> (r: Option<DexEvent>)
    ensures
        unified_result(r, *account, metadata, event_type_filter),
{
    if account.data.len() == 0 {
        return None;
    }
    if let Some(filter) = event_type_filter {
        if let Some(include_only) = &filter.include_only {
            if !lists_account_type(include_only) {
                proof {
                    assert forall|t: EventType| is_account_event_type(t) implies !include_only@.contains(t) by {
                        if include_only@.contains(t) {
                            let j = choose|j: int| 0 <= j < include_only@.len() && include_only@[j] == t;
                            assert(is_account_event_type(include_only@[j]));
                        }
                    }
                }
                return None;
            }
        }
    }
    if account.owner.equals(&Pubkey(PUMPSWAP_PROGRAM_ID)) {
        let should_parse = match event_type_filter {
            None => true,
            Some(f) => f.should_include(EventType::AccountPumpSwapGlobalConfig) || f.should_include(
                EventType::AccountPumpSwapPool,
            ),
        };
        if should_parse {
            return filter_parsed_event(parse_pumpswap_account(account, metadata), event_type_filter);
        }
        return None;
    }
    if account.owner.equals(&Pubkey(PUMPFUN_PROGRAM_ID)) || account.owner.equals(
        &Pubkey(PUMP_FEES_PROGRAM_ID),
    ) {
        let should_parse = match event_type_filter {
            None => true,
            Some(f) => f.should_include(EventType::AccountPumpFunGlobal) || f.should_include(
                EventType::AccountPumpFunBondingCurve,
            ) || f.should_include(EventType::AccountPumpFunFeeConfig) || f.should_include(
                EventType::AccountPumpFunSharingConfig,
            ) || f.should_include(EventType::AccountPumpFunGlobalVolumeAccumulator)
                || f.should_include(EventType::AccountPumpFunUserVolumeAccumulator),
        };
        if should_parse {
            return filter_parsed_event(parse_pumpfun_account(account, metadata), event_type_filter);
        }
        return None;
    }
    if is_nonce_account(account.data.as_slice()) {
        if let Some(filter) = event_type_filter {
            if !filter.should_include(EventType::NonceAccount) {
                return None;
            }
        }
        return parse_nonce_account(account, metadata);
    }
    None
}

} // verus!
