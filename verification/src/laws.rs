//! Properties that hold across the decoders.
use vstd::prelude::*;
use crate::accounts::{
    owned_by_pumpfun, owned_by_pumpswap, pumpswap_event_type, unified_accepted,
    unified_event_of,
};
use crate::accounts::pumpfun::{pumpfun_event_type, pumpfun_kind};
use crate::events::{AccountData, DexEvent, EventMetadata};
use crate::filter::{event_type_of, EventType, EventTypeFilter};
use crate::agreement::{
    lemma_create_result_unique, lemma_migrate_creator_result_unique, lemma_migrate_result_unique,
    lemma_trade_event_unique, lemma_trade_result_unique, lemma_unified_event_unique, same_event,
    same_result,
};
use crate::accounts::unified_result;
use crate::layout::u64_at;
use crate::logs::pump::{
    create_result, log_event_result, payload_event_result, migrate_creator_result, migrate_result, program_data,
    selected_trade_result, trade_result, CREATE_EVENT, MIGRATE_BONDING_CURVE_CREATOR_EVENT,
    MIGRATE_EVENT, TRADE_EVENT,
    lemma_trade_kind_names_distinct,    buy_exact_sol_in_selected, buy_selected, migrate_creator_decoded, migrate_decoded,
    normalized_ix_name, sell_selected, MIGRATE_CREATOR_LEN, MIGRATE_LEN,
};
use crate::accounts::pumpswap::{body_of, pool_accepted, pool_decoded, POOL_SIZE};
use crate::accounts::pumpfun::{
    bonding_curve_decoded, pumpfun_accepted, PumpFunAccountKind, BONDING_CURVE_FIELDS_LEN,
};
use crate::accounts::utils::starts_with;
use crate::events::{PumpFunBondingCurve, PumpFunMigrateBondingCurveCreatorEvent, PumpFunMigrateEvent, PumpSwapPool};
use vstd::bytes::{
    lemma_auto_spec_u128_to_from_le_bytes, lemma_auto_spec_u16_to_from_le_bytes,
    lemma_auto_spec_u64_to_from_le_bytes, spec_u128_to_le_bytes, spec_u16_to_le_bytes,
    spec_u64_to_le_bytes,
};
use crate::accounts::pumpswap::pool_layout_accepted;
use crate::layout::{i64_at, key_at, u128_at};

verus! {

/// The kind of event the unified decoder yields for `account`, when it yields one.
pub open spec fn unified_event_type(account: AccountData) -> EventType {
    if owned_by_pumpswap(account) {
        pumpswap_event_type(account.data@)
    } else if owned_by_pumpfun(account) {
        pumpfun_event_type(pumpfun_kind(account.data@)->0)
    } else {
        EventType::NonceAccount
    }
}

/// A filter only ever drops events: the unified decoder yields an event
/// under a filter exactly when it yields one without it and the filter
/// admits its kind (`law_filter_keeps_the_event` shows it is the same event).
pub proof fn law_filter_only_drops(account: AccountData, filter: EventTypeFilter)
    ensures
        unified_accepted(account, Some(&filter)) == (unified_accepted(account, None)
            && filter.admits(unified_event_type(account))),
{
}

/// A filter never changes an event: whenever the unified decoder yields an
/// event under a filter, it yields one without the filter, and the two agree.
pub proof fn law_filter_keeps_the_event(
    account: AccountData,
    metadata: EventMetadata,
    filter: EventTypeFilter,
    filtered: Option<DexEvent>,
    unfiltered: Option<DexEvent>,
)
    requires
        unified_result(filtered, account, metadata, Some(&filter)),
        unified_result(unfiltered, account, metadata, None),
    ensures
        filtered is Some ==> unfiltered is Some && same_event(filtered->0, unfiltered->0),
{
    if filtered is Some {
        law_filter_only_drops(account, filter);
        lemma_unified_event_unique(filtered->0, unfiltered->0, account, metadata);
    }
}

/// The event the unified decoder yields is of the kind `unified_event_type` names.
pub proof fn law_unified_event_type(ev: DexEvent, account: AccountData, metadata: EventMetadata)
    requires
        unified_event_of(ev, account, metadata),
    ensures
        event_type_of(ev) == unified_event_type(account),
{
}

/// Folding `_v2` instruction names is idempotent.
pub proof fn law_normalize_ix_name_idempotent(s: Seq<char>)
    ensures
        normalized_ix_name(normalized_ix_name(s)) == normalized_ix_name(s),
{
    reveal_strlit("buy");
    reveal_strlit("sell");
    reveal_strlit("buy_exact_quote_in");
    reveal_strlit("buy_v2");
    reveal_strlit("sell_v2");
    reveal_strlit("buy_exact_quote_in_v2");
    assert("buy"@.len() == 3);
    assert("sell"@.len() == 4);
    assert("buy_exact_quote_in"@.len() == 18);
    assert("buy_v2"@.len() == 6);
    assert("sell_v2"@.len() == 7);
    assert("buy_exact_quote_in_v2"@.len() == 21);
}

/// A trade is selected by at most one of the buy, sell and buy-exact-SOL-in
/// decoders.
pub proof fn law_trade_selection_exclusive(d: Seq<u8>)
    ensures
        !(buy_selected(d) && sell_selected(d)),
        !(buy_selected(d) && buy_exact_sol_in_selected(d)),
        !(sell_selected(d) && buy_exact_sol_in_selected(d)),
{
    lemma_trade_kind_names_distinct();
}

/// The buy, sell and buy-exact-SOL-in decoders each keep exactly the trade
/// decoder's result of their own kind: a selector yields an event exactly
/// when the trade decoder yields that variant, and the two events agree.
pub proof fn law_selectors_follow_trade_decoder(
    d: Seq<u8>,
    metadata: EventMetadata,
    is_created_buy: bool,
    trade: Option<DexEvent>,
    buy: Option<DexEvent>,
    sell: Option<DexEvent>,
    buy_exact_sol_in: Option<DexEvent>,
)
    requires
        trade_result(trade, d, metadata, is_created_buy),
        selected_trade_result(buy, buy_selected(d), d, metadata, is_created_buy),
        selected_trade_result(sell, sell_selected(d), d, metadata, is_created_buy),
        selected_trade_result(buy_exact_sol_in, buy_exact_sol_in_selected(d), d, metadata, is_created_buy),
    ensures
        buy is Some <==> trade matches Some(DexEvent::PumpFunBuy(_)),
        sell is Some <==> trade matches Some(DexEvent::PumpFunSell(_)),
        buy_exact_sol_in is Some <==> trade matches Some(DexEvent::PumpFunBuyExactSolIn(_)),
        buy is Some ==> same_event(buy->0, trade->0),
        sell is Some ==> same_event(sell->0, trade->0),
        buy_exact_sol_in is Some ==> same_event(buy_exact_sol_in->0, trade->0),
{
    lemma_trade_kind_names_distinct();
    if trade is Some {
        if buy is Some {
            lemma_trade_event_unique(buy->0, trade->0, d, metadata, is_created_buy);
        }
        if sell is Some {
            lemma_trade_event_unique(sell->0, trade->0, d, metadata, is_created_buy);
        }
        if buy_exact_sol_in is Some {
            lemma_trade_event_unique(buy_exact_sol_in->0, trade->0, d, metadata, is_created_buy);
        }
    }
}

/// The trade decoder's result is fixed by its input: any two results meeting
/// its contract on the same body and metadata agree. The log-line trade
/// decoder meets that contract under `log_metadata(..)`, so it agrees with
/// `parse_trade_from_data` called with that metadata.
pub proof fn law_trade_decoders_agree(
    d: Seq<u8>,
    metadata: EventMetadata,
    is_created_buy: bool,
    r1: Option<DexEvent>,
    r2: Option<DexEvent>,
)
    requires
        trade_result(r1, d, metadata, is_created_buy),
        trade_result(r2, d, metadata, is_created_buy),
    ensures
        same_result(r1, r2),
{
    lemma_trade_result_unique(r1, r2, d, metadata, is_created_buy);
}

/// The create decoder's result is fixed by its input; the log-line create
/// decoder agrees with `parse_create_from_data` under the log metadata.
pub proof fn law_create_decoders_agree(
    d: Seq<u8>,
    metadata: EventMetadata,
    r1: Option<DexEvent>,
    r2: Option<DexEvent>,
)
    requires
        create_result(r1, d, metadata),
        create_result(r2, d, metadata),
    ensures
        same_result(r1, r2),
{
    lemma_create_result_unique(r1, r2, d, metadata);
}

/// The migrate decoders' results are fixed by their input; the log-line
/// decoders give exactly what `parse_migrate_from_data` and
/// `parse_migrate_bonding_curve_creator_from_data` give under the log metadata.
pub proof fn law_migrate_decoders_agree(
    d: Seq<u8>,
    metadata: EventMetadata,
    r1: Option<DexEvent>,
    r2: Option<DexEvent>,
    c1: Option<DexEvent>,
    c2: Option<DexEvent>,
)
    requires
        migrate_result(r1, d, metadata),
        migrate_result(r2, d, metadata),
        migrate_creator_result(c1, d, metadata),
        migrate_creator_result(c2, d, metadata),
    ensures
        r1 == r2,
        c1 == c2,
{
    lemma_migrate_result_unique(r1, r2, d, metadata);
    lemma_migrate_creator_result_unique(c1, c2, d, metadata);
}

/// A decoded payload under the trade discriminator yields what
/// `parse_trade_from_data` yields on its body, and one under the create
/// discriminator what `parse_create_from_data` yields, both with the same
/// metadata: the log-line decoders agree with the body decoders.
pub proof fn law_payload_decoder_agrees_with_body_decoders(
    pd: Seq<u8>,
    metadata: EventMetadata,
    is_created_buy: bool,
    from_payload: Option<DexEvent>,
    from_body: Option<DexEvent>,
)
    requires
        pd.len() >= 8,
        payload_event_result(from_payload, pd, metadata, is_created_buy),
        u64_at(pd, 0) == TRADE_EVENT ==> trade_result(
            from_body,
            pd.subrange(8, pd.len() as int),
            metadata,
            is_created_buy,
        ),
        u64_at(pd, 0) == CREATE_EVENT ==> create_result(
            from_body,
            pd.subrange(8, pd.len() as int),
            metadata,
        ),
    ensures
        u64_at(pd, 0) == TRADE_EVENT || u64_at(pd, 0) == CREATE_EVENT ==> same_result(
            from_payload,
            from_body,
        ),
{
    let d = pd.subrange(8, pd.len() as int);
    if u64_at(pd, 0) == TRADE_EVENT {
        lemma_trade_result_unique(from_payload, from_body, d, metadata, is_created_buy);
    } else if u64_at(pd, 0) == CREATE_EVENT {
        lemma_create_result_unique(from_payload, from_body, d, metadata);
    }
}

/// A log line decodes to one event: any two results meeting `parse_log`'s
/// contract on the same line and metadata agree.
pub proof fn law_log_decoding_is_fixed(
    log: Seq<char>,
    metadata: EventMetadata,
    is_created_buy: bool,
    r1: Option<DexEvent>,
    r2: Option<DexEvent>,
)
    requires
        log_event_result(r1, log, metadata, is_created_buy),
        log_event_result(r2, log, metadata, is_created_buy),
    ensures
        same_result(r1, r2),
{
    if let Some(pd) = program_data(log) {
        if pd.len() >= 8 {
            let d = pd.subrange(8, pd.len() as int);
            let disc = u64_at(pd, 0);
            if disc == CREATE_EVENT {
                lemma_create_result_unique(r1, r2, d, metadata);
            } else if disc == TRADE_EVENT {
                lemma_trade_result_unique(r1, r2, d, metadata, is_created_buy);
            } else if disc == MIGRATE_EVENT {
                lemma_migrate_result_unique(r1, r2, d, metadata);
            } else if disc == MIGRATE_BONDING_CURVE_CREATOR_EVENT {
                lemma_migrate_creator_result_unique(r1, r2, d, metadata);
            }
        }
    }
}

/// Appending bytes keeps an 8-byte discriminator test unchanged.
proof fn lemma_starts_with_append(data: Seq<u8>, extra: Seq<u8>, disc: Seq<u8>)
    requires
        data.len() >= 8,
        disc.len() == 8,
    ensures
        starts_with(data + extra, disc) == starts_with(data, disc),
{
    assert((data + extra).subrange(0, 8) =~= data.subrange(0, 8));
}

/// Two byte strings agree on `[off, off + n)`.
proof fn lemma_same_window(a: Seq<u8>, b: Seq<u8>, off: int, n: int)
    requires
        0 <= off,
        0 <= n,
        off + n <= a.len(),
        off + n <= b.len(),
        forall|i: int| 0 <= i < a.len() && i < b.len() ==> a[i] == b[i],
    ensures
        a.subrange(off, off + n) == b.subrange(off, off + n),
{
    assert(a.subrange(off, off + n) =~= b.subrange(off, off + n));
}

/// A current-layout pool account decodes the same when bytes are appended:
/// trailing allocation never changes the known fields.
pub proof fn law_pool_padding_invariant(data: Seq<u8>, extra: Seq<u8>, p: PumpSwapPool)
    requires
        pool_accepted(data),
        body_of(data).len() >= POOL_SIZE,
    ensures
        pool_accepted(data + extra),
        pool_decoded(p, body_of(data + extra)) == pool_decoded(p, body_of(data)),
{
    let b = body_of(data);
    let b2 = body_of(data + extra);
    assert(b2 =~= b + extra);
    lemma_starts_with_append(data, extra, crate::accounts::pumpswap::discriminators::POOL_ACCOUNT@);
    assert forall|i: int| 0 <= i < b.len() && i < b2.len() implies b[i] == b2[i] by {}
    lemma_same_window(b, b2, 1, 2);
    lemma_same_window(b, b2, 3, 32);
    lemma_same_window(b, b2, 35, 32);
    lemma_same_window(b, b2, 67, 32);
    lemma_same_window(b, b2, 99, 32);
    lemma_same_window(b, b2, 131, 32);
    lemma_same_window(b, b2, 163, 32);
    lemma_same_window(b, b2, 195, 8);
    lemma_same_window(b, b2, 203, 32);
    lemma_same_window(b, b2, 237, 16);
    lemma_same_window(b, b2, 253, 8);
}

/// A current-layout bonding curve decodes the same when bytes are appended.
pub proof fn law_bonding_curve_padding_invariant(data: Seq<u8>, extra: Seq<u8>, c: PumpFunBondingCurve)
    requires
        pumpfun_kind(data) == Some(PumpFunAccountKind::BondingCurve),
        body_of(data).len() >= BONDING_CURVE_FIELDS_LEN,
    ensures
        pumpfun_kind(data + extra) == Some(PumpFunAccountKind::BondingCurve),
        pumpfun_accepted(data + extra),
        bonding_curve_decoded(c, body_of(data + extra)) == bonding_curve_decoded(c, body_of(data)),
{
    let b = body_of(data);
    let b2 = body_of(data + extra);
    assert(b2 =~= b + extra);
    lemma_starts_with_append(data, extra, crate::accounts::pumpfun::FEE_CONFIG_DISCRIMINATOR@);
    lemma_starts_with_append(data, extra, crate::accounts::pumpfun::SHARING_CONFIG_DISCRIMINATOR@);
    lemma_starts_with_append(
        data,
        extra,
        crate::accounts::pumpfun::GLOBAL_VOLUME_ACCUMULATOR_DISCRIMINATOR@,
    );
    lemma_starts_with_append(
        data,
        extra,
        crate::accounts::pumpfun::USER_VOLUME_ACCUMULATOR_DISCRIMINATOR@,
    );
    lemma_starts_with_append(data, extra, crate::accounts::pumpfun::BONDING_CURVE_DISCRIMINATOR@);
    assert forall|i: int| 0 <= i < b.len() && i < b2.len() implies b[i] == b2[i] by {}
    lemma_same_window(b, b2, 0, 8);
    lemma_same_window(b, b2, 8, 8);
    lemma_same_window(b, b2, 16, 8);
    lemma_same_window(b, b2, 24, 8);
    lemma_same_window(b, b2, 32, 8);
    lemma_same_window(b, b2, 41, 32);
    lemma_same_window(b, b2, 75, 32);
    lemma_same_window(b, b2, 107, 8);
}

/// The little-endian bytes of an `i64`.
pub open spec fn i64_le_bytes(v: i64) -> Seq<u8> {
    spec_u64_to_le_bytes(v as u64)
}

/// The `u64` and `i64` fields written little-endian read back unchanged.
proof fn lemma_le_roundtrip(v: i64)
    ensures
        i64_le_bytes(v).len() == 8,
        i64_at(i64_le_bytes(v), 0) == v,
{
    lemma_auto_spec_u64_to_from_le_bytes();
    assert(i64_le_bytes(v).subrange(0, 8) =~= i64_le_bytes(v));
    assert((v as u64) as i64 == v) by (bit_vector);
}

/// Writing the fields of a creator migration event and decoding them gives
/// back the same fields.
pub proof fn law_migrate_creator_roundtrip(
    timestamp: i64,
    mint: Seq<u8>,
    bonding_curve: Seq<u8>,
    sharing_config: Seq<u8>,
    old_creator: Seq<u8>,
    new_creator: Seq<u8>,
    e: PumpFunMigrateBondingCurveCreatorEvent,
    metadata: EventMetadata,
)
    requires
        mint.len() == 32,
        bonding_curve.len() == 32,
        sharing_config.len() == 32,
        old_creator.len() == 32,
        new_creator.len() == 32,
        migrate_creator_decoded(
            e,
            i64_le_bytes(timestamp) + mint + bonding_curve + sharing_config + old_creator
                + new_creator,
            metadata,
        ),
    ensures
        (i64_le_bytes(timestamp) + mint + bonding_curve + sharing_config + old_creator
            + new_creator).len() == MIGRATE_CREATOR_LEN,
        e.timestamp == timestamp,
        e.mint@ == mint,
        e.bonding_curve@ == bonding_curve,
        e.sharing_config@ == sharing_config,
        e.old_creator@ == old_creator,
        e.new_creator@ == new_creator,
{
    let t = i64_le_bytes(timestamp);
    let d = t + mint + bonding_curve + sharing_config + old_creator + new_creator;
    lemma_le_roundtrip(timestamp);
    assert(d.subrange(0, 8) =~= t.subrange(0, 8));
    assert(key_at(d, 8) =~= mint);
    assert(key_at(d, 40) =~= bonding_curve);
    assert(key_at(d, 72) =~= sharing_config);
    assert(key_at(d, 104) =~= old_creator);
    assert(key_at(d, 136) =~= new_creator);
}

/// The byte a flag is written as.
pub open spec fn flag_byte(b: bool) -> u8 {
    if b {
        1
    } else {
        0
    }
}

/// The current-layout pool body (after the discriminator) that holds `p`.
pub open spec fn pool_bytes(p: PumpSwapPool) -> Seq<u8> {
    seq![p.pool_bump] + spec_u16_to_le_bytes(p.index) + p.creator@ + p.base_mint@ + p.quote_mint@
        + p.lp_mint@ + p.pool_base_token_account@ + p.pool_quote_token_account@
        + spec_u64_to_le_bytes(p.lp_supply) + p.coin_creator@ + seq![flag_byte(p.is_mayhem_mode)]
        + seq![flag_byte(p.is_cashback_coin)] + spec_u128_to_le_bytes(p.virtual_quote_reserves as u128)
        + spec_u64_to_le_bytes(p.creator_fee_bps) + seq![flag_byte(p.can_edit_creator_fee)]
        + seq![flag_byte(p.is_holder_reward)]
}

/// Writing a pool in the current layout and decoding it gives back every field.
pub proof fn law_pool_roundtrip(p: PumpSwapPool, q: PumpSwapPool)
    requires
        pool_decoded(q, pool_bytes(p)),
    ensures
        pool_bytes(p).len() == POOL_SIZE,
        pool_layout_accepted(pool_bytes(p)),
        q.pool_bump == p.pool_bump,
        q.index == p.index,
        q.creator@ == p.creator@,
        q.base_mint@ == p.base_mint@,
        q.quote_mint@ == p.quote_mint@,
        q.lp_mint@ == p.lp_mint@,
        q.pool_base_token_account@ == p.pool_base_token_account@,
        q.pool_quote_token_account@ == p.pool_quote_token_account@,
        q.lp_supply == p.lp_supply,
        q.coin_creator@ == p.coin_creator@,
        q.is_mayhem_mode == p.is_mayhem_mode,
        q.is_cashback_coin == p.is_cashback_coin,
        q.virtual_quote_reserves == p.virtual_quote_reserves,
        q.creator_fee_bps == p.creator_fee_bps,
        q.can_edit_creator_fee == p.can_edit_creator_fee,
        q.is_holder_reward == p.is_holder_reward,
{
    lemma_auto_spec_u16_to_from_le_bytes();
    lemma_auto_spec_u64_to_from_le_bytes();
    lemma_auto_spec_u128_to_from_le_bytes();
    let b = pool_bytes(p);
    let idx = spec_u16_to_le_bytes(p.index);
    let lp = spec_u64_to_le_bytes(p.lp_supply);
    let vq = spec_u128_to_le_bytes(p.virtual_quote_reserves as u128);
    let cf = spec_u64_to_le_bytes(p.creator_fee_bps);
    assert(b.len() == 263);
    assert(b[0] == p.pool_bump);
    assert(b.subrange(1, 3) =~= idx);
    assert(key_at(b, 3) =~= p.creator@);
    assert(key_at(b, 35) =~= p.base_mint@);
    assert(key_at(b, 67) =~= p.quote_mint@);
    assert(key_at(b, 99) =~= p.lp_mint@);
    assert(key_at(b, 131) =~= p.pool_base_token_account@);
    assert(key_at(b, 163) =~= p.pool_quote_token_account@);
    assert(b.subrange(195, 203) =~= lp);
    assert(key_at(b, 203) =~= p.coin_creator@);
    assert(b[235] == flag_byte(p.is_mayhem_mode));
    assert(b[236] == flag_byte(p.is_cashback_coin));
    assert(b.subrange(237, 253) =~= vq);
    assert(b.subrange(253, 261) =~= cf);
    assert(b[261] == flag_byte(p.can_edit_creator_fee));
    assert(b[262] == flag_byte(p.is_holder_reward));
    assert(u128_at(b, 237) == p.virtual_quote_reserves as u128);
    let v = p.virtual_quote_reserves;
    assert((v as u128) as i128 == v) by (bit_vector);
}

/// Writing the fields of a migrate event and decoding them gives back the
/// same fields.
pub proof fn law_migrate_roundtrip(
    user: Seq<u8>,
    mint: Seq<u8>,
    mint_amount: u64,
    sol_amount: u64,
    pool_migration_fee: u64,
    bonding_curve: Seq<u8>,
    timestamp: i64,
    pool: Seq<u8>,
    e: PumpFunMigrateEvent,
    metadata: EventMetadata,
)
    requires
        user.len() == 32,
        mint.len() == 32,
        bonding_curve.len() == 32,
        pool.len() == 32,
        migrate_decoded(
            e,
            user + mint + spec_u64_to_le_bytes(mint_amount) + spec_u64_to_le_bytes(sol_amount)
                + spec_u64_to_le_bytes(pool_migration_fee) + bonding_curve + i64_le_bytes(
                timestamp,
            ) + pool,
            metadata,
        ),
    ensures
        (user + mint + spec_u64_to_le_bytes(mint_amount) + spec_u64_to_le_bytes(sol_amount)
            + spec_u64_to_le_bytes(pool_migration_fee) + bonding_curve + i64_le_bytes(timestamp)
            + pool).len() == MIGRATE_LEN,
        e.user@ == user,
        e.mint@ == mint,
        e.mint_amount == mint_amount,
        e.sol_amount == sol_amount,
        e.pool_migration_fee == pool_migration_fee,
        e.bonding_curve@ == bonding_curve,
        e.timestamp == timestamp,
        e.pool@ == pool,
{
    lemma_auto_spec_u64_to_from_le_bytes();
    lemma_le_roundtrip(timestamp);
    let ma = spec_u64_to_le_bytes(mint_amount);
    let sa = spec_u64_to_le_bytes(sol_amount);
    let pf = spec_u64_to_le_bytes(pool_migration_fee);
    let ts = i64_le_bytes(timestamp);
    let d = user + mint + ma + sa + pf + bonding_curve + ts + pool;
    assert(key_at(d, 0) =~= user);
    assert(key_at(d, 32) =~= mint);
    assert(d.subrange(64, 72) =~= ma);
    assert(d.subrange(72, 80) =~= sa);
    assert(d.subrange(80, 88) =~= pf);
    assert(key_at(d, 88) =~= bonding_curve);
    assert(d.subrange(120, 128) =~= ts.subrange(0, 8));
    assert(key_at(d, 128) =~= pool);
}

} // verus!
