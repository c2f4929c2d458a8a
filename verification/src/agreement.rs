//! When two decoder results describe the same event. Strings and lists are
//! compared by their contents, every other field by value; the lemmas here
//! show that each decoder's description fixes its event up to this relation.
use vstd::prelude::*;
use crate::events::{
    DexEvent, NonceAccountEvent, PumpFunCreateTokenEvent, PumpFunFeeConfig,
    PumpFunFeeConfigAccountEvent, PumpFunSharingConfig, PumpFunSharingConfigAccountEvent,
    PumpFunTradeEvent, EventMetadata, PumpFeesShareholder, PumpFeesFeeTier, AccountData,
};
use crate::pubkey::Pubkey;
use crate::logs::pump::{
    create_decoded, create_result, migrate_creator_result, migrate_result, trade_decoded,
    trade_event_of, trade_result, trade_payload, trade_wrapped, normalized_ix_name, trade_name,
    extensions_decoded, ext_holders_at, holders_count, trade_ext,
};
use crate::accounts::pumpfun::{
    pumpfun_event_of, pumpfun_kind, shareholder_decoded, shareholders_decoded, tier_decoded,
    tiers_decoded, tiers_end, PumpFunAccountKind,
};
use crate::accounts::pumpswap::body_of;
use crate::accounts::pumpswap::discriminators::GLOBAL_CONFIG_ACCOUNT;
use crate::accounts::utils::starts_with;
use crate::accounts::{owned_by_pumpfun, owned_by_pumpswap, pumpswap_event_of, unified_event_of};
use crate::layout::u32_at;

verus! {

/// Two trade records agree: same instruction name and shareholders by
/// content, every other field equal.
pub open spec fn same_trade(a: PumpFunTradeEvent, b: PumpFunTradeEvent) -> bool {
    &&& a.ix_name@ == b.ix_name@
    &&& a.shareholders@ == b.shareholders@
    &&& a == PumpFunTradeEvent { ix_name: a.ix_name, shareholders: a.shareholders, ..b }
}

/// Two create records agree: same strings by content, every other field equal.
pub open spec fn same_create(a: PumpFunCreateTokenEvent, b: PumpFunCreateTokenEvent) -> bool {
    &&& a.name@ == b.name@
    &&& a.symbol@ == b.symbol@
    &&& a.uri@ == b.uri@
    &&& a.ix_name@ == b.ix_name@
    &&& a == PumpFunCreateTokenEvent {
        name: a.name,
        symbol: a.symbol,
        uri: a.uri,
        ix_name: a.ix_name,
        ..b
    }
}

/// Two nonce records agree: same texts by content, every other field equal.
pub open spec fn same_nonce(a: NonceAccountEvent, b: NonceAccountEvent) -> bool {
    &&& a.nonce@ == b.nonce@
    &&& a.authority@ == b.authority@
    &&& a == NonceAccountEvent { nonce: a.nonce, authority: a.authority, ..b }
}

/// Two fee config records agree: same tier lists by content, every other field equal.
pub open spec fn same_fee_config(a: PumpFunFeeConfigAccountEvent, b: PumpFunFeeConfigAccountEvent) -> bool {
    &&& a.fee_config.fee_tiers@ == b.fee_config.fee_tiers@
    &&& a.fee_config.stable_fee_tiers@ == b.fee_config.stable_fee_tiers@
    &&& a == PumpFunFeeConfigAccountEvent {
        fee_config: PumpFunFeeConfig {
            fee_tiers: a.fee_config.fee_tiers,
            stable_fee_tiers: a.fee_config.stable_fee_tiers,
            ..b.fee_config
        },
        ..b
    }
}

/// Two sharing config records agree: same shareholder list by content,
/// every other field equal.
pub open spec fn same_sharing_config(
    a: PumpFunSharingConfigAccountEvent,
    b: PumpFunSharingConfigAccountEvent,
) -> bool {
    &&& a.sharing_config.shareholders@ == b.sharing_config.shareholders@
    &&& a == PumpFunSharingConfigAccountEvent {
        sharing_config: PumpFunSharingConfig {
            shareholders: a.sharing_config.shareholders,
            ..b.sharing_config
        },
        ..b
    }
}

/// Two events carry the same data: same variant, strings and lists equal by
/// content, every other field equal.
pub open spec fn same_event(e1: DexEvent, e2: DexEvent) -> bool {
    match (e1, e2) {
        (DexEvent::NonceAccount(a), DexEvent::NonceAccount(b)) => same_nonce(a, b),
        (DexEvent::PumpFunFeeConfigAccount(a), DexEvent::PumpFunFeeConfigAccount(b)) => same_fee_config(a, b),
        (DexEvent::PumpFunSharingConfigAccount(a), DexEvent::PumpFunSharingConfigAccount(b)) => same_sharing_config(a, b),
        (DexEvent::PumpFunCreate(a), DexEvent::PumpFunCreate(b)) => same_create(a, b),
        (DexEvent::PumpFunTrade(a), DexEvent::PumpFunTrade(b)) => same_trade(a, b),
        (DexEvent::PumpFunBuy(a), DexEvent::PumpFunBuy(b)) => same_trade(a, b),
        (DexEvent::PumpFunSell(a), DexEvent::PumpFunSell(b)) => same_trade(a, b),
        (DexEvent::PumpFunBuyExactSolIn(a), DexEvent::PumpFunBuyExactSolIn(b)) => same_trade(a, b),
        _ => e1 == e2,
    }
}

/// Two optional results agree: both absent, or both present with events that agree.
pub open spec fn same_result(r1: Option<DexEvent>, r2: Option<DexEvent>) -> bool {
    match (r1, r2) {
        (None, None) => true,
        (Some(a), Some(b)) => same_event(a, b),
        _ => false,
    }
}

/// Addresses with the same bytes are the same address.
pub proof fn lemma_pubkey_eq(p: Pubkey, q: Pubkey)
    requires
        p@ == q@,
    ensures
        p == q,
{
    assert(p.0 =~= q.0) by {
        assert forall|i: int| 0 <= i < 32 implies p.0[i] == q.0[i] by {
            assert(p@[i] == q@[i]);
        }
    }
}


/// Two shareholder lists read from the same bytes are equal.
pub proof fn lemma_shareholders_unique(
    s1: Seq<PumpFeesShareholder>,
    s2: Seq<PumpFeesShareholder>,
    b: Seq<u8>,
    off: int,
    n: int,
)
    requires
        shareholders_decoded(s1, b, off, n),
        shareholders_decoded(s2, b, off, n),
    ensures
        s1 == s2,
{
    assert forall|i: int| 0 <= i < s1.len() implies s1[i] == s2[i] by {
        assert(shareholder_decoded(s1[i], b, off + 34 * i));
        assert(shareholder_decoded(s2[i], b, off + 34 * i));
        lemma_pubkey_eq(s1[i].address, s2[i].address);
    }
    assert(s1 =~= s2);
}

/// Two trade records read from the same body under the same metadata agree.
pub proof fn lemma_trade_decoded_unique(
    a: PumpFunTradeEvent,
    b: PumpFunTradeEvent,
    d: Seq<u8>,
    metadata: EventMetadata,
    is_created_buy: bool,
)
    requires
        trade_decoded(a, d, metadata, is_created_buy),
        trade_decoded(b, d, metadata, is_created_buy),
    ensures
        same_trade(a, b),
{
    let x = trade_ext(d);
    lemma_shareholders_unique(
        a.shareholders@,
        b.shareholders@,
        x,
        ext_holders_at(x, 0) + 4,
        holders_count(x, ext_holders_at(x, 0)),
    );
    lemma_pubkey_eq(a.mint, b.mint);
    lemma_pubkey_eq(a.user, b.user);
    lemma_pubkey_eq(a.fee_recipient, b.fee_recipient);
    lemma_pubkey_eq(a.creator, b.creator);
    lemma_pubkey_eq(a.quote_mint, b.quote_mint);
    lemma_pubkey_eq(a.global, b.global);
    lemma_pubkey_eq(a.bonding_curve, b.bonding_curve);
    lemma_pubkey_eq(a.associated_bonding_curve, b.associated_bonding_curve);
    lemma_pubkey_eq(a.associated_user, b.associated_user);
    lemma_pubkey_eq(a.system_program, b.system_program);
    lemma_pubkey_eq(a.creator_vault, b.creator_vault);
    lemma_pubkey_eq(a.event_authority, b.event_authority);
    lemma_pubkey_eq(a.program, b.program);
    lemma_pubkey_eq(a.global_volume_accumulator, b.global_volume_accumulator);
    lemma_pubkey_eq(a.user_volume_accumulator, b.user_volume_accumulator);
    lemma_pubkey_eq(a.fee_config, b.fee_config);
    lemma_pubkey_eq(a.fee_program, b.fee_program);
    lemma_pubkey_eq(a.token_program, b.token_program);
}

/// Two trade-kind events read from the same body agree.
pub proof fn lemma_trade_event_unique(
    e1: DexEvent,
    e2: DexEvent,
    d: Seq<u8>,
    metadata: EventMetadata,
    is_created_buy: bool,
)
    requires
        trade_event_of(e1, d, metadata, is_created_buy),
        trade_event_of(e2, d, metadata, is_created_buy),
    ensures
        same_event(e1, e2),
{
    lemma_trade_decoded_unique(trade_payload(e1), trade_payload(e2), d, metadata, is_created_buy);
}

/// Two results of the trade decoder's contract on the same input agree.
pub proof fn lemma_trade_result_unique(
    r1: Option<DexEvent>,
    r2: Option<DexEvent>,
    d: Seq<u8>,
    metadata: EventMetadata,
    is_created_buy: bool,
)
    requires
        trade_result(r1, d, metadata, is_created_buy),
        trade_result(r2, d, metadata, is_created_buy),
    ensures
        same_result(r1, r2),
{
    if r1 is Some {
        lemma_trade_event_unique(r1->0, r2->0, d, metadata, is_created_buy);
    }
}

/// Two results of the create decoder's contract on the same input agree.
pub proof fn lemma_create_result_unique(
    r1: Option<DexEvent>,
    r2: Option<DexEvent>,
    d: Seq<u8>,
    metadata: EventMetadata,
)
    requires
        create_result(r1, d, metadata),
        create_result(r2, d, metadata),
    ensures
        same_result(r1, r2),
{
    if r1 is Some {
        let a = r1->0->PumpFunCreate_0;
        let b = r2->0->PumpFunCreate_0;
        lemma_pubkey_eq(a.mint, b.mint);
        lemma_pubkey_eq(a.bonding_curve, b.bonding_curve);
        lemma_pubkey_eq(a.user, b.user);
        lemma_pubkey_eq(a.creator, b.creator);
        lemma_pubkey_eq(a.token_program, b.token_program);
        lemma_pubkey_eq(a.quote_mint, b.quote_mint);
    }
}

/// Two results of the migrate decoder's contract on the same input are equal.
pub proof fn lemma_migrate_result_unique(
    r1: Option<DexEvent>,
    r2: Option<DexEvent>,
    d: Seq<u8>,
    metadata: EventMetadata,
)
    requires
        migrate_result(r1, d, metadata),
        migrate_result(r2, d, metadata),
    ensures
        r1 == r2,
{
    if r1 is Some {
        let a = r1->0->PumpFunMigrate_0;
        let b = r2->0->PumpFunMigrate_0;
        lemma_pubkey_eq(a.user, b.user);
        lemma_pubkey_eq(a.mint, b.mint);
        lemma_pubkey_eq(a.bonding_curve, b.bonding_curve);
        lemma_pubkey_eq(a.pool, b.pool);
    }
}

/// Two results of the creator migration decoder's contract on the same input are equal.
pub proof fn lemma_migrate_creator_result_unique(
    r1: Option<DexEvent>,
    r2: Option<DexEvent>,
    d: Seq<u8>,
    metadata: EventMetadata,
)
    requires
        migrate_creator_result(r1, d, metadata),
        migrate_creator_result(r2, d, metadata),
    ensures
        r1 == r2,
{
    if r1 is Some {
        let a = r1->0->PumpFunMigrateBondingCurveCreator_0;
        let b = r2->0->PumpFunMigrateBondingCurveCreator_0;
        lemma_pubkey_eq(a.mint, b.mint);
        lemma_pubkey_eq(a.bonding_curve, b.bonding_curve);
        lemma_pubkey_eq(a.sharing_config, b.sharing_config);
        lemma_pubkey_eq(a.old_creator, b.old_creator);
        lemma_pubkey_eq(a.new_creator, b.new_creator);
    }
}


/// Arrays of addresses with the same bytes at every index are equal.
pub proof fn lemma_key_array_eq<const N: usize>(a: [Pubkey; N], b: [Pubkey; N])
    requires
        forall|i: int| 0 <= i < N ==> (#[trigger] a@[i])@ == b@[i]@,
    ensures
        a == b,
{
    assert forall|i: int| 0 <= i < N implies a[i] == b[i] by {
        assert(a@[i]@ == b@[i]@);
        lemma_pubkey_eq(a@[i], b@[i]);
    }
    assert(a =~= b);
}

/// Arrays of integers equal at every index are equal.
pub proof fn lemma_u64_array_eq<const N: usize>(a: [u64; N], b: [u64; N])
    requires
        forall|i: int| 0 <= i < N ==> #[trigger] a@[i] == b@[i],
    ensures
        a == b,
{
    assert forall|i: int| 0 <= i < N implies a[i] == b[i] by {
        assert(a@[i] == b@[i]);
    }
    assert(a =~= b);
}

/// Two fee tier lists read from the same bytes are equal.
pub proof fn lemma_tiers_unique(t1: Seq<PumpFeesFeeTier>, t2: Seq<PumpFeesFeeTier>, b: Seq<u8>, off: int)
    requires
        tiers_decoded(t1, b, off),
        tiers_decoded(t2, b, off),
    ensures
        t1 == t2,
{
    assert forall|i: int| 0 <= i < t1.len() implies t1[i] == t2[i] by {
        assert(tier_decoded(t1[i], b, off + 4 + 40 * i));
        assert(tier_decoded(t2[i], b, off + 4 + 40 * i));
    }
    assert(t1 =~= t2);
}

/// Two Pump.fun / Pump fees account events read from the same account agree.
pub proof fn lemma_pumpfun_event_unique(e1: DexEvent, e2: DexEvent, account: AccountData, metadata: EventMetadata)
    requires
        pumpfun_event_of(e1, account, metadata),
        pumpfun_event_of(e2, account, metadata),
    ensures
        same_event(e1, e2),
{
    let b = body_of(account.data@);
    match pumpfun_kind(account.data@) {
        Some(PumpFunAccountKind::FeeConfig) => {
            let x = e1->PumpFunFeeConfigAccount_0.fee_config;
            let y = e2->PumpFunFeeConfigAccount_0.fee_config;
            lemma_pubkey_eq(x.admin, y.admin);
            lemma_tiers_unique(x.fee_tiers@, y.fee_tiers@, b, 57);
            lemma_tiers_unique(x.stable_fee_tiers@, y.stable_fee_tiers@, b, tiers_end(b, 57));
        },
        Some(PumpFunAccountKind::SharingConfig) => {
            let x = e1->PumpFunSharingConfigAccount_0.sharing_config;
            let y = e2->PumpFunSharingConfigAccount_0.sharing_config;
            lemma_pubkey_eq(x.mint, y.mint);
            lemma_pubkey_eq(x.admin, y.admin);
            lemma_shareholders_unique(x.shareholders@, y.shareholders@, b, 72, u32_at(b, 68) as int);
        },
        Some(PumpFunAccountKind::GlobalVolumeAccumulator) => {
            let x = e1->PumpFunGlobalVolumeAccumulatorAccount_0.global_volume_accumulator;
            let y = e2->PumpFunGlobalVolumeAccumulatorAccount_0.global_volume_accumulator;
            lemma_pubkey_eq(x.mint, y.mint);
            lemma_u64_array_eq(x.total_token_supply, y.total_token_supply);
            lemma_u64_array_eq(x.sol_volumes, y.sol_volumes);
        },
        Some(PumpFunAccountKind::UserVolumeAccumulator) => {
            let x = e1->PumpFunUserVolumeAccumulatorAccount_0.user_volume_accumulator;
            let y = e2->PumpFunUserVolumeAccumulatorAccount_0.user_volume_accumulator;
            lemma_pubkey_eq(x.user, y.user);
        },
        Some(PumpFunAccountKind::BondingCurve) => {
            let x = e1->PumpFunBondingCurveAccount_0.bonding_curve;
            let y = e2->PumpFunBondingCurveAccount_0.bonding_curve;
            lemma_pubkey_eq(x.creator, y.creator);
            lemma_pubkey_eq(x.quote_mint, y.quote_mint);
        },
        Some(PumpFunAccountKind::Global) => {
            let x = e1->PumpFunGlobalAccount_0.global;
            let y = e2->PumpFunGlobalAccount_0.global;
            lemma_pubkey_eq(x.authority, y.authority);
            lemma_pubkey_eq(x.fee_recipient, y.fee_recipient);
            lemma_pubkey_eq(x.withdraw_authority, y.withdraw_authority);
            lemma_pubkey_eq(x.set_creator_authority, y.set_creator_authority);
            lemma_pubkey_eq(x.admin_set_creator_authority, y.admin_set_creator_authority);
            lemma_pubkey_eq(x.whitelist_pda, y.whitelist_pda);
            lemma_pubkey_eq(x.reserved_fee_recipient, y.reserved_fee_recipient);
            lemma_key_array_eq(x.fee_recipients, y.fee_recipients);
            lemma_key_array_eq(x.reserved_fee_recipients, y.reserved_fee_recipients);
            lemma_key_array_eq(x.buyback_fee_recipients, y.buyback_fee_recipients);
            lemma_key_array_eq(x.whitelisted_quote_mints, y.whitelisted_quote_mints);
        },
        None => {},
    }
}

/// Two PumpSwap account events read from the same account agree.
pub proof fn lemma_pumpswap_event_unique(e1: DexEvent, e2: DexEvent, account: AccountData, metadata: EventMetadata)
    requires
        pumpswap_event_of(e1, account, metadata),
        pumpswap_event_of(e2, account, metadata),
    ensures
        same_event(e1, e2),
{
    if starts_with(account.data@, GLOBAL_CONFIG_ACCOUNT@) {
        let x = e1->PumpSwapGlobalConfigAccount_0.global_config;
        let y = e2->PumpSwapGlobalConfigAccount_0.global_config;
        lemma_pubkey_eq(x.admin, y.admin);
        lemma_pubkey_eq(x.admin_set_coin_creator_authority, y.admin_set_coin_creator_authority);
        lemma_pubkey_eq(x.whitelist_pda, y.whitelist_pda);
        lemma_pubkey_eq(x.reserved_fee_recipient, y.reserved_fee_recipient);
        lemma_key_array_eq(x.protocol_fee_recipients, y.protocol_fee_recipients);
        lemma_key_array_eq(x.reserved_fee_recipients, y.reserved_fee_recipients);
    } else {
        let x = e1->PumpSwapPoolAccount_0.pool;
        let y = e2->PumpSwapPoolAccount_0.pool;
        lemma_pubkey_eq(x.creator, y.creator);
        lemma_pubkey_eq(x.base_mint, y.base_mint);
        lemma_pubkey_eq(x.quote_mint, y.quote_mint);
        lemma_pubkey_eq(x.lp_mint, y.lp_mint);
        lemma_pubkey_eq(x.pool_base_token_account, y.pool_base_token_account);
        lemma_pubkey_eq(x.pool_quote_token_account, y.pool_quote_token_account);
        lemma_pubkey_eq(x.coin_creator, y.coin_creator);
    }
}

/// Two events that the unified decoder's contract allows for the same
/// account agree.
pub proof fn lemma_unified_event_unique(e1: DexEvent, e2: DexEvent, account: AccountData, metadata: EventMetadata)
    requires
        unified_event_of(e1, account, metadata),
        unified_event_of(e2, account, metadata),
    ensures
        same_event(e1, e2),
{
    if owned_by_pumpswap(account) {
        lemma_pumpswap_event_unique(e1, e2, account, metadata);
    } else if owned_by_pumpfun(account) {
        lemma_pumpfun_event_unique(e1, e2, account, metadata);
    }
}

} // verus!
