//! Round trips through the account and event decoders: writing each field
//! in its on-chain order and decoding the bytes gives every field back.
use vstd::prelude::*;
use vstd::bytes::{
    lemma_auto_spec_u128_to_from_le_bytes, spec_u128_to_le_bytes,
    lemma_auto_spec_u16_to_from_le_bytes, lemma_auto_spec_u32_to_from_le_bytes,
    lemma_auto_spec_u64_to_from_le_bytes, spec_u16_to_le_bytes, spec_u32_to_le_bytes,
    spec_u64_to_le_bytes,
};
use vstd::utf8::{encode_utf8, encode_utf8_decode_utf8, encode_utf8_valid_utf8};
use crate::logs::pump::{
    create_result, create_strings, ext_holders_at, ext_quote_mint_at, normalized_quote_mint,
    str_at, trade_accepted, trade_ext, trade_name, trade_name_end, trade_payload, trade_rest,
    trade_result,
};
use crate::accounts::pumpfun::{
    pumpfun_accepted, pumpfun_event_of, BONDING_CURVE_DISCRIMINATOR, GLOBAL_DISCRIMINATOR,
    GLOBAL_VOLUME_ACCUMULATOR_DISCRIMINATOR, SHARING_CONFIG_DISCRIMINATOR, shareholder_decoded,
    shareholders_decoded, FEE_CONFIG_DISCRIMINATOR, fees_decoded, tier_decoded, tiers_decoded,
    USER_VOLUME_ACCUMULATOR_DISCRIMINATOR,
};
use crate::agreement::{lemma_key_array_eq, lemma_pubkey_eq, lemma_u64_array_eq};
use crate::accounts::pumpswap::{global_config_accepted, global_config_event_of};
use crate::accounts::pumpswap::discriminators::GLOBAL_CONFIG_ACCOUNT;
use crate::pubkey::{zero_key, Pubkey};
use crate::accounts::nonce::{base58_text, nonce_accepted, nonce_event_of, NONCE_DISCRIMINATOR};
use crate::events::{AccountData, DexEvent, EventMetadata, PumpFunUserVolumeAccumulator, PumpFunBondingCurve, PumpSwapGlobalConfig, PumpFunGlobal, PumpFunCreateTokenEvent,
    PumpFunGlobalVolumeAccumulator, PumpFunSharingConfig, PumpFeesShareholder,
    PumpFeesConfigStatus, PumpFeesFees, PumpFeesFeeTier, PumpFunFeeConfig,
    PumpFunTradeEvent};
use crate::laws::{flag_byte, i64_le_bytes};
use crate::layout::{i64_at, key_at, u16_at, u32_at, u64_at};

verus! {

/// The contract of `parse_pumpfun_account` for `account`: an event exactly
/// when the data decodes, and then the decoded event.
pub open spec fn pumpfun_result(r: Option<DexEvent>, account: AccountData, metadata: EventMetadata) -> bool {
    &&& r is Some <==> pumpfun_accepted(account.data@)
    &&& r matches Some(ev) ==> pumpfun_event_of(ev, account, metadata)
}

/// The byte a flag is written as, read back as the flag.
proof fn lemma_flag(b: bool)
    ensures
        (flag_byte(b) != 0) == b,
{
}

/// The user volume accumulator body: user, needs_claim, the unclaimed,
/// claimed and SOL volume counters, the last update time, the claimed flag,
/// then the four cashback counters.
pub open spec fn user_volume_bytes(u: PumpFunUserVolumeAccumulator) -> Seq<u8> {
    u.user@ + seq![flag_byte(u.needs_claim)] + spec_u64_to_le_bytes(u.total_unclaimed_tokens)
        + spec_u64_to_le_bytes(u.total_claimed_tokens) + spec_u64_to_le_bytes(u.current_sol_volume)
        + i64_le_bytes(u.last_update_timestamp) + seq![flag_byte(u.has_total_claimed_tokens)]
        + spec_u64_to_le_bytes(u.cashback_earned) + spec_u64_to_le_bytes(u.total_cashback_claimed)
        + spec_u64_to_le_bytes(u.stable_cashback_earned) + spec_u64_to_le_bytes(
        u.total_stable_cashback_claimed,
    )
}

/// A user volume accumulator account written in on-chain order decodes
/// through `parse_pumpfun_account` to exactly the accumulator written.
pub proof fn law_user_volume_roundtrip(
    u: PumpFunUserVolumeAccumulator,
    account: AccountData,
    metadata: EventMetadata,
    r: Option<DexEvent>,
)
    requires
        account.data@ == USER_VOLUME_ACCUMULATOR_DISCRIMINATOR@ + user_volume_bytes(u),
        pumpfun_result(r, account, metadata),
    ensures
        r matches Some(DexEvent::PumpFunUserVolumeAccumulatorAccount(e)) && e.metadata == metadata
            && e.pubkey == account.pubkey && e.user_volume_accumulator == u,
{
    lemma_auto_spec_u64_to_from_le_bytes();
    let d = account.data@;
    let b = user_volume_bytes(u);
    assert(d.subrange(8, d.len() as int) =~= b);
    assert(d.subrange(0, 8) =~= USER_VOLUME_ACCUMULATOR_DISCRIMINATOR@);
    assert(b.len() == 98);
    assert(key_at(b, 0) =~= u.user@);
    assert(b[32] == flag_byte(u.needs_claim));
    assert(b.subrange(33, 41) =~= spec_u64_to_le_bytes(u.total_unclaimed_tokens));
    assert(b.subrange(41, 49) =~= spec_u64_to_le_bytes(u.total_claimed_tokens));
    assert(b.subrange(49, 57) =~= spec_u64_to_le_bytes(u.current_sol_volume));
    assert(b.subrange(57, 65) =~= i64_le_bytes(u.last_update_timestamp));
    assert(b[65] == flag_byte(u.has_total_claimed_tokens));
    assert(b.subrange(66, 74) =~= spec_u64_to_le_bytes(u.cashback_earned));
    assert(b.subrange(74, 82) =~= spec_u64_to_le_bytes(u.total_cashback_claimed));
    assert(b.subrange(82, 90) =~= spec_u64_to_le_bytes(u.stable_cashback_earned));
    assert(b.subrange(90, 98) =~= spec_u64_to_le_bytes(u.total_stable_cashback_claimed));
    lemma_flag(u.needs_claim);
    lemma_flag(u.has_total_claimed_tokens);
    let t = u.last_update_timestamp;
    assert((t as u64) as i64 == t) by (bit_vector);
    let e = r->0->PumpFunUserVolumeAccumulatorAccount_0;
    lemma_pubkey_eq(e.user_volume_accumulator.user, u.user);
}


/// The current bonding curve body: the five reserve and supply counters, the
/// completion flag, creator, mayhem and cashback flags, quote mint, creator
/// fee, then the fee-edit and holder-reward flags.
pub open spec fn bonding_curve_bytes(c: PumpFunBondingCurve) -> Seq<u8> {
    spec_u64_to_le_bytes(c.virtual_token_reserves) + spec_u64_to_le_bytes(c.virtual_quote_reserves)
        + spec_u64_to_le_bytes(c.real_token_reserves) + spec_u64_to_le_bytes(c.real_quote_reserves)
        + spec_u64_to_le_bytes(c.token_total_supply) + seq![flag_byte(c.complete)] + c.creator@
        + seq![flag_byte(c.is_mayhem_mode)] + seq![flag_byte(c.is_cashback_coin)] + c.quote_mint@
        + spec_u64_to_le_bytes(c.creator_fee_bps) + seq![flag_byte(c.can_edit_creator_fee)]
        + seq![flag_byte(c.is_holder_reward)]
}

/// A bonding curve account written in on-chain order decodes through
/// `parse_pumpfun_account` to exactly the curve written.
pub proof fn law_bonding_curve_roundtrip(
    c: PumpFunBondingCurve,
    account: AccountData,
    metadata: EventMetadata,
    r: Option<DexEvent>,
)
    requires
        account.data@ == BONDING_CURVE_DISCRIMINATOR@ + bonding_curve_bytes(c),
        pumpfun_result(r, account, metadata),
    ensures
        r matches Some(DexEvent::PumpFunBondingCurveAccount(e)) && e.metadata == metadata
            && e.pubkey == account.pubkey && e.bonding_curve == c,
{
    lemma_auto_spec_u64_to_from_le_bytes();
    let d = account.data@;
    let b = bonding_curve_bytes(c);
    assert(d.subrange(8, d.len() as int) =~= b);
    assert(d.subrange(0, 8) =~= BONDING_CURVE_DISCRIMINATOR@);
    assert(b.len() == 117);
    assert(b.subrange(0, 8) =~= spec_u64_to_le_bytes(c.virtual_token_reserves));
    assert(b.subrange(8, 16) =~= spec_u64_to_le_bytes(c.virtual_quote_reserves));
    assert(b.subrange(16, 24) =~= spec_u64_to_le_bytes(c.real_token_reserves));
    assert(b.subrange(24, 32) =~= spec_u64_to_le_bytes(c.real_quote_reserves));
    assert(b.subrange(32, 40) =~= spec_u64_to_le_bytes(c.token_total_supply));
    assert(b[40] == flag_byte(c.complete));
    assert(key_at(b, 41) =~= c.creator@);
    assert(b[73] == flag_byte(c.is_mayhem_mode));
    assert(b[74] == flag_byte(c.is_cashback_coin));
    assert(key_at(b, 75) =~= c.quote_mint@);
    assert(b.subrange(107, 115) =~= spec_u64_to_le_bytes(c.creator_fee_bps));
    assert(b[115] == flag_byte(c.can_edit_creator_fee));
    assert(b[116] == flag_byte(c.is_holder_reward));
    lemma_flag(c.complete);
    lemma_flag(c.is_mayhem_mode);
    lemma_flag(c.is_cashback_coin);
    lemma_flag(c.can_edit_creator_fee);
    lemma_flag(c.is_holder_reward);
    let e = r->0->PumpFunBondingCurveAccount_0;
    lemma_pubkey_eq(e.bonding_curve.creator, c.creator);
    lemma_pubkey_eq(e.bonding_curve.quote_mint, c.quote_mint);
}


/// The keys of `ks` written one after the other.
pub open spec fn key_list_bytes(ks: Seq<Pubkey>) -> Seq<u8>
    decreases ks.len(),
{
    if ks.len() == 0 {
        Seq::empty()
    } else {
        key_list_bytes(ks.drop_last()) + ks.last()@
    }
}

/// A written key list holds key `j` at `32 * j`.
proof fn lemma_key_list_bytes(ks: Seq<Pubkey>)
    ensures
        key_list_bytes(ks).len() == 32 * ks.len(),
        forall|j: int| 0 <= j < ks.len() ==> #[trigger] key_at(key_list_bytes(ks), 32 * j) == ks[j]@,
    decreases ks.len(),
{
    if ks.len() > 0 {
        let init = ks.drop_last();
        lemma_key_list_bytes(init);
        let kb = key_list_bytes(ks);
        assert(kb == key_list_bytes(init) + ks.last()@);
        assert forall|j: int| 0 <= j < ks.len() implies #[trigger] key_at(kb, 32 * j) == ks[j]@ by {
            if j < init.len() {
                assert(key_at(kb, 32 * j) =~= key_at(key_list_bytes(init), 32 * j));
                assert(init[j] == ks[j]);
            } else {
                assert(key_at(kb, 32 * j) =~= ks.last()@);
            }
        }
    }
}

/// Keys written at `off` in `b` are read back from `b` one by one.
proof fn lemma_keys_at(b: Seq<u8>, off: int, ks: Seq<Pubkey>)
    requires
        0 <= off,
        off + 32 * ks.len() <= b.len(),
        b.subrange(off, off + 32 * ks.len()) == key_list_bytes(ks),
    ensures
        forall|j: int| 0 <= j < ks.len() ==> #[trigger] key_at(b, off + 32 * j) == ks[j]@,
{
    lemma_key_list_bytes(ks);
    let kb = key_list_bytes(ks);
    assert forall|j: int| 0 <= j < ks.len() implies #[trigger] key_at(b, off + 32 * j) == ks[j]@ by {
        assert(key_at(b, off + 32 * j) =~= key_at(kb, 32 * j));
    }
}

/// The PumpSwap global config body: admin, the LP and protocol fee rates,
/// the disable flags, eight protocol fee recipients, the coin-creator fee
/// rate, three authority keys, the mayhem flag and seven reserved recipients.
pub open spec fn global_config_bytes(g: PumpSwapGlobalConfig) -> Seq<u8> {
    g.admin@ + spec_u64_to_le_bytes(g.lp_fee_basis_points) + spec_u64_to_le_bytes(
        g.protocol_fee_basis_points,
    ) + seq![g.disable_flags] + key_list_bytes(g.protocol_fee_recipients@) + spec_u64_to_le_bytes(
        g.coin_creator_fee_basis_points,
    ) + g.admin_set_coin_creator_authority@ + g.whitelist_pda@ + g.reserved_fee_recipient@
        + seq![flag_byte(g.mayhem_mode_enabled)] + key_list_bytes(g.reserved_fee_recipients@)
}

/// A PumpSwap global config account written in on-chain order decodes
/// through `parse_global_config` to exactly the config written.
pub proof fn law_global_config_roundtrip(
    g: PumpSwapGlobalConfig,
    account: AccountData,
    metadata: EventMetadata,
    r: Option<DexEvent>,
)
    requires
        account.data@ == GLOBAL_CONFIG_ACCOUNT@ + global_config_bytes(g),
        r is Some <==> global_config_accepted(account.data@),
        r matches Some(ev) ==> ev matches DexEvent::PumpSwapGlobalConfigAccount(e)
            && global_config_event_of(e, account, metadata),
    ensures
        r matches Some(DexEvent::PumpSwapGlobalConfigAccount(e)) && e.metadata == metadata
            && e.pubkey == account.pubkey && e.global_config == g,
{
    lemma_auto_spec_u64_to_from_le_bytes();
    lemma_key_list_bytes(g.protocol_fee_recipients@);
    lemma_key_list_bytes(g.reserved_fee_recipients@);
    let d = account.data@;
    let b = global_config_bytes(g);
    let p = key_list_bytes(g.protocol_fee_recipients@);
    let q = key_list_bytes(g.reserved_fee_recipients@);
    assert(d.subrange(8, d.len() as int) =~= b);
    assert(d.subrange(0, 8) =~= GLOBAL_CONFIG_ACCOUNT@);
    assert(b.len() == 634);
    assert(key_at(b, 0) =~= g.admin@);
    assert(b.subrange(32, 40) =~= spec_u64_to_le_bytes(g.lp_fee_basis_points));
    assert(b.subrange(40, 48) =~= spec_u64_to_le_bytes(g.protocol_fee_basis_points));
    assert(b[48] == g.disable_flags);
    assert(b.subrange(49, 305) =~= p);
    assert(b.subrange(305, 313) =~= spec_u64_to_le_bytes(g.coin_creator_fee_basis_points));
    assert(key_at(b, 313) =~= g.admin_set_coin_creator_authority@);
    assert(key_at(b, 345) =~= g.whitelist_pda@);
    assert(key_at(b, 377) =~= g.reserved_fee_recipient@);
    assert(b[409] == flag_byte(g.mayhem_mode_enabled));
    assert(b.subrange(410, 634) =~= q);
    lemma_keys_at(b, 49, g.protocol_fee_recipients@);
    lemma_keys_at(b, 410, g.reserved_fee_recipients@);
    lemma_flag(g.mayhem_mode_enabled);
    let x = r->0->PumpSwapGlobalConfigAccount_0.global_config;
    lemma_pubkey_eq(x.admin, g.admin);
    lemma_pubkey_eq(x.admin_set_coin_creator_authority, g.admin_set_coin_creator_authority);
    lemma_pubkey_eq(x.whitelist_pda, g.whitelist_pda);
    lemma_pubkey_eq(x.reserved_fee_recipient, g.reserved_fee_recipient);
    assert forall|i: int| 0 <= i < 8 implies (#[trigger] x.protocol_fee_recipients@[i])@
        == g.protocol_fee_recipients@[i]@ by {
        assert(key_at(b, 49 + 32 * i) == g.protocol_fee_recipients@[i]@);
    }
    assert forall|i: int| 0 <= i < 7 implies (#[trigger] x.reserved_fee_recipients@[i])@
        == g.reserved_fee_recipients@[i]@ by {
        assert(key_at(b, 410 + 32 * i) == g.reserved_fee_recipients@[i]@);
    }
    lemma_key_array_eq(x.protocol_fee_recipients, g.protocol_fee_recipients);
    lemma_key_array_eq(x.reserved_fee_recipients, g.reserved_fee_recipients);
}


/// The Pump.fun global body, field by field in on-chain order.
pub open spec fn global_bytes(g: PumpFunGlobal) -> Seq<u8> {
    seq![flag_byte(g.initialized)] + g.authority@ + g.fee_recipient@ + spec_u64_to_le_bytes(
        g.initial_virtual_token_reserves,
    ) + spec_u64_to_le_bytes(g.initial_virtual_sol_reserves) + spec_u64_to_le_bytes(
        g.initial_real_token_reserves,
    ) + spec_u64_to_le_bytes(g.token_total_supply) + spec_u64_to_le_bytes(g.fee_basis_points)
        + g.withdraw_authority@ + seq![flag_byte(g.enable_migrate)] + spec_u64_to_le_bytes(
        g.pool_migration_fee,
    ) + spec_u64_to_le_bytes(g.creator_fee_basis_points) + key_list_bytes(g.fee_recipients@)
        + g.set_creator_authority@ + g.admin_set_creator_authority@ + seq![
        flag_byte(g.create_v2_enabled),
    ] + g.whitelist_pda@ + g.reserved_fee_recipient@ + seq![flag_byte(g.mayhem_mode_enabled)]
        + key_list_bytes(g.reserved_fee_recipients@) + seq![flag_byte(g.is_cashback_enabled)]
        + key_list_bytes(g.buyback_fee_recipients@) + spec_u64_to_le_bytes(g.buyback_basis_points)
        + spec_u64_to_le_bytes(g.initial_virtual_quote_reserves) + key_list_bytes(
        g.whitelisted_quote_mints@,
    )
}

/// A Pump.fun global account written in on-chain order decodes through
/// `parse_pumpfun_account` to exactly the global state written.
#[verifier::rlimit(40)]
pub proof fn law_global_roundtrip(
    g: PumpFunGlobal,
    account: AccountData,
    metadata: EventMetadata,
    r: Option<DexEvent>,
)
    requires
        account.data@ == GLOBAL_DISCRIMINATOR@ + global_bytes(g),
        pumpfun_result(r, account, metadata),
    ensures
        r matches Some(DexEvent::PumpFunGlobalAccount(e)) && e.metadata == metadata && e.pubkey
            == account.pubkey && e.global == g,
{
    lemma_auto_spec_u64_to_from_le_bytes();
    lemma_key_list_bytes(g.fee_recipients@);
    lemma_key_list_bytes(g.reserved_fee_recipients@);
    lemma_key_list_bytes(g.buyback_fee_recipients@);
    lemma_key_list_bytes(g.whitelisted_quote_mints@);
    let d = account.data@;
    let b = global_bytes(g);
    assert(d.subrange(8, d.len() as int) =~= b);
    assert(d.subrange(0, 8) =~= GLOBAL_DISCRIMINATOR@);
    assert(b.len() == 1037);
    assert(b[0] == flag_byte(g.initialized));
    assert(key_at(b, 1) =~= g.authority@);
    assert(key_at(b, 33) =~= g.fee_recipient@);
    assert(b.subrange(65, 73) =~= spec_u64_to_le_bytes(g.initial_virtual_token_reserves));
    assert(b.subrange(73, 81) =~= spec_u64_to_le_bytes(g.initial_virtual_sol_reserves));
    assert(b.subrange(81, 89) =~= spec_u64_to_le_bytes(g.initial_real_token_reserves));
    assert(b.subrange(89, 97) =~= spec_u64_to_le_bytes(g.token_total_supply));
    assert(b.subrange(97, 105) =~= spec_u64_to_le_bytes(g.fee_basis_points));
    assert(key_at(b, 105) =~= g.withdraw_authority@);
    assert(b[137] == flag_byte(g.enable_migrate));
    assert(b.subrange(138, 146) =~= spec_u64_to_le_bytes(g.pool_migration_fee));
    assert(b.subrange(146, 154) =~= spec_u64_to_le_bytes(g.creator_fee_basis_points));
    assert(b.subrange(154, 378) =~= key_list_bytes(g.fee_recipients@));
    assert(key_at(b, 378) =~= g.set_creator_authority@);
    assert(key_at(b, 410) =~= g.admin_set_creator_authority@);
    assert(b[442] == flag_byte(g.create_v2_enabled));
    assert(key_at(b, 443) =~= g.whitelist_pda@);
    assert(key_at(b, 475) =~= g.reserved_fee_recipient@);
    assert(b[507] == flag_byte(g.mayhem_mode_enabled));
    assert(b.subrange(508, 732) =~= key_list_bytes(g.reserved_fee_recipients@));
    assert(b[732] == flag_byte(g.is_cashback_enabled));
    assert(b.subrange(733, 989) =~= key_list_bytes(g.buyback_fee_recipients@));
    assert(b.subrange(989, 997) =~= spec_u64_to_le_bytes(g.buyback_basis_points));
    assert(b.subrange(997, 1005) =~= spec_u64_to_le_bytes(g.initial_virtual_quote_reserves));
    assert(b.subrange(1005, 1037) =~= key_list_bytes(g.whitelisted_quote_mints@));
    lemma_keys_at(b, 154, g.fee_recipients@);
    lemma_keys_at(b, 508, g.reserved_fee_recipients@);
    lemma_keys_at(b, 733, g.buyback_fee_recipients@);
    lemma_keys_at(b, 1005, g.whitelisted_quote_mints@);
    lemma_flag(g.initialized);
    lemma_flag(g.enable_migrate);
    lemma_flag(g.create_v2_enabled);
    lemma_flag(g.mayhem_mode_enabled);
    lemma_flag(g.is_cashback_enabled);
    let x = r->0->PumpFunGlobalAccount_0.global;
    lemma_pubkey_eq(x.authority, g.authority);
    lemma_pubkey_eq(x.fee_recipient, g.fee_recipient);
    lemma_pubkey_eq(x.withdraw_authority, g.withdraw_authority);
    lemma_pubkey_eq(x.set_creator_authority, g.set_creator_authority);
    lemma_pubkey_eq(x.admin_set_creator_authority, g.admin_set_creator_authority);
    lemma_pubkey_eq(x.whitelist_pda, g.whitelist_pda);
    lemma_pubkey_eq(x.reserved_fee_recipient, g.reserved_fee_recipient);
    assert forall|i: int| 0 <= i < 7 implies (#[trigger] x.fee_recipients@[i])@
        == g.fee_recipients@[i]@ by {
        assert(key_at(b, 154 + 32 * i) == g.fee_recipients@[i]@);
    }
    assert forall|i: int| 0 <= i < 7 implies (#[trigger] x.reserved_fee_recipients@[i])@
        == g.reserved_fee_recipients@[i]@ by {
        assert(key_at(b, 508 + 32 * i) == g.reserved_fee_recipients@[i]@);
    }
    assert forall|i: int| 0 <= i < 8 implies (#[trigger] x.buyback_fee_recipients@[i])@
        == g.buyback_fee_recipients@[i]@ by {
        assert(key_at(b, 733 + 32 * i) == g.buyback_fee_recipients@[i]@);
    }
    assert forall|i: int| 0 <= i < 1 implies (#[trigger] x.whitelisted_quote_mints@[i])@
        == g.whitelisted_quote_mints@[i]@ by {
        assert(key_at(b, 1005 + 32 * i) == g.whitelisted_quote_mints@[i]@);
    }
    lemma_key_array_eq(x.fee_recipients, g.fee_recipients);
    lemma_key_array_eq(x.reserved_fee_recipients, g.reserved_fee_recipients);
    lemma_key_array_eq(x.buyback_fee_recipients, g.buyback_fee_recipients);
    lemma_key_array_eq(x.whitelisted_quote_mints, g.whitelisted_quote_mints);
}


/// A string written as its UTF-8 length (`u32` little-endian) and bytes.
pub open spec fn str_bytes(s: Seq<char>) -> Seq<u8> {
    spec_u32_to_le_bytes(encode_utf8(s).len() as u32) + encode_utf8(s)
}

/// A written string is read back whole, with the bytes it spans.
proof fn lemma_str_roundtrip(d: Seq<u8>, off: int, s: Seq<char>)
    requires
        encode_utf8(s).len() <= u32::MAX,
        0 <= off,
        off + str_bytes(s).len() <= d.len(),
        d.subrange(off, off + str_bytes(s).len()) == str_bytes(s),
    ensures
        str_bytes(s).len() == 4 + encode_utf8(s).len(),
        str_at(d, off) == Some((s, str_bytes(s).len() as int)),
{
    lemma_auto_spec_u32_to_from_le_bytes();
    encode_utf8_valid_utf8(s);
    encode_utf8_decode_utf8(s);
    let n = encode_utf8(s).len();
    let sb = str_bytes(s);
    assert(d.subrange(off, off + 4) =~= sb.subrange(0, 4));
    assert(sb.subrange(0, 4) =~= spec_u32_to_le_bytes(n as u32));
    assert(u32_at(d, off) == n);
    assert forall|k: int| 0 <= k < n implies d[off + 4 + k] == encode_utf8(s)[k] by {
        assert(d.subrange(off, off + sb.len())[4 + k] == sb[4 + k]);
    }
    assert(d.subrange(off + 4, off + 4 + n) =~= encode_utf8(s));
}

/// The fixed create fields that follow the three strings: mint, bonding
/// curve, user and creator keys, timestamp, the four reserve and supply
/// counters, token program, the mayhem and cashback flags, quote mint, the
/// virtual quote reserves, the creator fee and the holder-reward flag.
pub open spec fn create_fixed_bytes(c: PumpFunCreateTokenEvent) -> Seq<u8> {
    c.mint@ + c.bonding_curve@ + c.user@ + c.creator@ + i64_le_bytes(c.timestamp)
        + spec_u64_to_le_bytes(c.virtual_token_reserves) + spec_u64_to_le_bytes(
        c.virtual_sol_reserves,
    ) + spec_u64_to_le_bytes(c.real_token_reserves) + spec_u64_to_le_bytes(c.token_total_supply)
        + c.token_program@ + seq![flag_byte(c.is_mayhem_mode)] + seq![
        flag_byte(c.is_cashback_enabled),
    ] + c.quote_mint@ + spec_u64_to_le_bytes(c.virtual_quote_reserves) + spec_u64_to_le_bytes(
        c.creator_fee_bps,
    ) + seq![flag_byte(c.is_holder_reward)]
}

/// A create event body: the name, symbol and uri strings, then the fixed fields.
pub open spec fn create_bytes(c: PumpFunCreateTokenEvent) -> Seq<u8> {
    str_bytes(c.name@) + str_bytes(c.symbol@) + str_bytes(c.uri@) + create_fixed_bytes(c)
}

/// A create event written in on-chain order decodes through
/// `parse_create_from_data` (and so through `parse_log`) to the fields
/// written; an all-zero quote mint reads as wrapped SOL.
#[verifier::rlimit(40)]
pub proof fn law_create_roundtrip(c: PumpFunCreateTokenEvent, metadata: EventMetadata, r: Option<DexEvent>)
    requires
        encode_utf8(c.name@).len() <= u32::MAX,
        encode_utf8(c.symbol@).len() <= u32::MAX,
        encode_utf8(c.uri@).len() <= u32::MAX,
        create_result(r, create_bytes(c), metadata),
    ensures
        r matches Some(DexEvent::PumpFunCreate(e)) && {
            &&& e.metadata == metadata
            &&& e.name@ == c.name@
            &&& e.symbol@ == c.symbol@
            &&& e.uri@ == c.uri@
            &&& e.mint == c.mint
            &&& e.bonding_curve == c.bonding_curve
            &&& e.user == c.user
            &&& e.creator == c.creator
            &&& e.timestamp == c.timestamp
            &&& e.virtual_token_reserves == c.virtual_token_reserves
            &&& e.virtual_sol_reserves == c.virtual_sol_reserves
            &&& e.real_token_reserves == c.real_token_reserves
            &&& e.token_total_supply == c.token_total_supply
            &&& e.token_program == c.token_program
            &&& e.is_mayhem_mode == c.is_mayhem_mode
            &&& e.is_cashback_enabled == c.is_cashback_enabled
            &&& e.quote_mint@ == normalized_quote_mint(c.quote_mint@)
            &&& e.virtual_quote_reserves == c.virtual_quote_reserves
            &&& e.creator_fee_bps == c.creator_fee_bps
            &&& e.is_holder_reward == c.is_holder_reward
        },
{
    lemma_auto_spec_u64_to_from_le_bytes();
    lemma_auto_spec_u32_to_from_le_bytes();
    let a = str_bytes(c.name@);
    let s2 = str_bytes(c.symbol@);
    let s3 = str_bytes(c.uri@);
    let f = create_fixed_bytes(c);
    let d = create_bytes(c);
    assert(d.subrange(0, a.len() as int) =~= a);
    lemma_str_roundtrip(d, 0, c.name@);
    let n1 = a.len() as int;
    assert(d.subrange(n1, n1 + s2.len()) =~= s2);
    lemma_str_roundtrip(d, n1, c.symbol@);
    let n2 = s2.len() as int;
    assert(d.subrange(n1 + n2, n1 + n2 + s3.len()) =~= s3);
    lemma_str_roundtrip(d, n1 + n2, c.uri@);
    let o = n1 + n2 + s3.len();
    assert(create_strings(d) == Some((c.name@, c.symbol@, c.uri@, o)));
    let t = d.subrange(o, d.len() as int);
    assert(t =~= f);
    assert(f.len() == 251);
    assert(key_at(f, 0) =~= c.mint@);
    assert(key_at(f, 32) =~= c.bonding_curve@);
    assert(key_at(f, 64) =~= c.user@);
    assert(key_at(f, 96) =~= c.creator@);
    assert(f.subrange(128, 136) =~= i64_le_bytes(c.timestamp));
    assert(f.subrange(136, 144) =~= spec_u64_to_le_bytes(c.virtual_token_reserves));
    assert(f.subrange(144, 152) =~= spec_u64_to_le_bytes(c.virtual_sol_reserves));
    assert(f.subrange(152, 160) =~= spec_u64_to_le_bytes(c.real_token_reserves));
    assert(f.subrange(160, 168) =~= spec_u64_to_le_bytes(c.token_total_supply));
    assert(key_at(f, 168) =~= c.token_program@);
    assert(f[200] == flag_byte(c.is_mayhem_mode));
    assert(f[201] == flag_byte(c.is_cashback_enabled));
    assert(key_at(f, 202) =~= c.quote_mint@);
    assert(f.subrange(234, 242) =~= spec_u64_to_le_bytes(c.virtual_quote_reserves));
    assert(f.subrange(242, 250) =~= spec_u64_to_le_bytes(c.creator_fee_bps));
    assert(f[250] == flag_byte(c.is_holder_reward));
    let ts = c.timestamp;
    assert((ts as u64) as i64 == ts) by (bit_vector);
    let e = r->0->PumpFunCreate_0;
    lemma_pubkey_eq(e.mint, c.mint);
    lemma_pubkey_eq(e.bonding_curve, c.bonding_curve);
    lemma_pubkey_eq(e.user, c.user);
    lemma_pubkey_eq(e.creator, c.creator);
    lemma_pubkey_eq(e.token_program, c.token_program);
}


/// The integers of `vs` written one after the other, little-endian.
pub open spec fn u64_list_bytes(vs: Seq<u64>) -> Seq<u8>
    decreases vs.len(),
{
    if vs.len() == 0 {
        Seq::empty()
    } else {
        u64_list_bytes(vs.drop_last()) + spec_u64_to_le_bytes(vs.last())
    }
}

/// A written integer list holds integer `j` at `8 * j`.
proof fn lemma_u64_list_bytes(vs: Seq<u64>)
    ensures
        u64_list_bytes(vs).len() == 8 * vs.len(),
        forall|j: int| 0 <= j < vs.len() ==> #[trigger] u64_at(u64_list_bytes(vs), 8 * j) == vs[j],
    decreases vs.len(),
{
    lemma_auto_spec_u64_to_from_le_bytes();
    if vs.len() > 0 {
        let init = vs.drop_last();
        lemma_u64_list_bytes(init);
        let vb = u64_list_bytes(vs);
        assert forall|j: int| 0 <= j < vs.len() implies #[trigger] u64_at(vb, 8 * j) == vs[j] by {
            if j < init.len() {
                assert(vb.subrange(8 * j, 8 * j + 8) =~= u64_list_bytes(init).subrange(8 * j, 8 * j + 8));
                assert(u64_at(u64_list_bytes(init), 8 * j) == init[j]);
                assert(init[j] == vs[j]);
            } else {
                assert(vb.subrange(8 * j, 8 * j + 8) =~= spec_u64_to_le_bytes(vs.last()));
                assert(vs.last() == vs[j]);
            }
        }
    }
}

/// Integers written at `off` in `b` are read back from `b` one by one.
proof fn lemma_u64s_at(b: Seq<u8>, off: int, vs: Seq<u64>)
    requires
        0 <= off,
        off + 8 * vs.len() <= b.len(),
        b.subrange(off, off + 8 * vs.len()) == u64_list_bytes(vs),
    ensures
        forall|j: int| 0 <= j < vs.len() ==> #[trigger] u64_at(b, off + 8 * j) == vs[j],
{
    lemma_u64_list_bytes(vs);
    let vb = u64_list_bytes(vs);
    assert forall|j: int| 0 <= j < vs.len() implies #[trigger] u64_at(b, off + 8 * j) == vs[j] by {
        assert(b.subrange(off + 8 * j, off + 8 * j + 8) =~= vb.subrange(8 * j, 8 * j + 8));
        assert(u64_at(vb, 8 * j) == vs[j]);
    }
}

/// The global volume accumulator body: start and end time, seconds per day,
/// mint, then the thirty daily token supplies and the thirty SOL volumes.
pub open spec fn global_volume_bytes(g: PumpFunGlobalVolumeAccumulator) -> Seq<u8> {
    i64_le_bytes(g.start_time) + i64_le_bytes(g.end_time) + i64_le_bytes(g.seconds_in_a_day)
        + g.mint@ + u64_list_bytes(g.total_token_supply@) + u64_list_bytes(g.sol_volumes@)
}

/// A global volume accumulator written in on-chain order decodes through
/// `parse_pumpfun_account` to exactly the accumulator written.
pub proof fn law_global_volume_roundtrip(
    g: PumpFunGlobalVolumeAccumulator,
    account: AccountData,
    metadata: EventMetadata,
    r: Option<DexEvent>,
)
    requires
        account.data@ == GLOBAL_VOLUME_ACCUMULATOR_DISCRIMINATOR@ + global_volume_bytes(g),
        pumpfun_result(r, account, metadata),
    ensures
        r matches Some(DexEvent::PumpFunGlobalVolumeAccumulatorAccount(e)) && e.metadata
            == metadata && e.pubkey == account.pubkey && e.global_volume_accumulator == g,
{
    lemma_auto_spec_u64_to_from_le_bytes();
    lemma_u64_list_bytes(g.total_token_supply@);
    lemma_u64_list_bytes(g.sol_volumes@);
    let d = account.data@;
    let b = global_volume_bytes(g);
    assert(d.subrange(8, d.len() as int) =~= b);
    assert(d.subrange(0, 8) =~= GLOBAL_VOLUME_ACCUMULATOR_DISCRIMINATOR@);
    assert(b.len() == 536);
    assert(b.subrange(0, 8) =~= i64_le_bytes(g.start_time));
    assert(b.subrange(8, 16) =~= i64_le_bytes(g.end_time));
    assert(b.subrange(16, 24) =~= i64_le_bytes(g.seconds_in_a_day));
    assert(key_at(b, 24) =~= g.mint@);
    assert(b.subrange(56, 296) =~= u64_list_bytes(g.total_token_supply@));
    assert(b.subrange(296, 536) =~= u64_list_bytes(g.sol_volumes@));
    lemma_u64s_at(b, 56, g.total_token_supply@);
    lemma_u64s_at(b, 296, g.sol_volumes@);
    let (t0, t1, t2) = (g.start_time, g.end_time, g.seconds_in_a_day);
    assert((t0 as u64) as i64 == t0) by (bit_vector);
    assert((t1 as u64) as i64 == t1) by (bit_vector);
    assert((t2 as u64) as i64 == t2) by (bit_vector);
    let x = r->0->PumpFunGlobalVolumeAccumulatorAccount_0.global_volume_accumulator;
    lemma_pubkey_eq(x.mint, g.mint);
    assert forall|i: int| 0 <= i < 30 implies #[trigger] x.total_token_supply@[i]
        == g.total_token_supply@[i] by {
        assert(u64_at(b, 56 + 8 * i) == g.total_token_supply@[i]);
    }
    assert forall|i: int| 0 <= i < 30 implies #[trigger] x.sol_volumes@[i] == g.sol_volumes@[i] by {
        assert(u64_at(b, 296 + 8 * i) == g.sol_volumes@[i]);
    }
    lemma_u64_array_eq(x.total_token_supply, g.total_token_supply);
    lemma_u64_array_eq(x.sol_volumes, g.sol_volumes);
}


/// An initialized nonce account laid out as version and state tags,
/// authority, stored blockhash and fee field decodes through
/// `parse_nonce_account` to the base58 texts of the authority and the
/// blockhash, in that order, and the account's own fields.
pub proof fn law_nonce_roundtrip(
    authority: Seq<u8>,
    blockhash: Seq<u8>,
    fee: Seq<u8>,
    account: AccountData,
    metadata: EventMetadata,
    r: Option<DexEvent>,
)
    requires
        authority.len() == 32,
        blockhash.len() == 32,
        fee.len() == 8,
        account.owner@ == zero_key(),
        !account.executable,
        account.data@ == NONCE_DISCRIMINATOR@ + authority + blockhash + fee,
        r is Some <==> nonce_accepted(account),
        r matches Some(ev) ==> ev matches DexEvent::NonceAccount(e) && nonce_event_of(
            e,
            account,
            metadata,
        ),
    ensures
        r matches Some(DexEvent::NonceAccount(e)) && {
            &&& e.authority@ == base58_text(authority)
            &&& e.nonce@ == base58_text(blockhash)
            &&& e.metadata == metadata
            &&& e.pubkey == account.pubkey
            &&& e.owner == account.owner
            &&& e.lamports == account.lamports
            &&& e.rent_epoch == account.rent_epoch
            &&& e.executable == account.executable
        },
{
    let d = account.data@;
    assert(d.len() == 80);
    assert(d.subrange(0, 8) =~= NONCE_DISCRIMINATOR@);
    assert(d.subrange(8, 40) =~= authority);
    assert(d.subrange(40, 72) =~= blockhash);
}


/// The shareholders of `ss` written one after the other: address, then the
/// share in basis points (`u16` little-endian).
pub open spec fn holder_list_bytes(ss: Seq<PumpFeesShareholder>) -> Seq<u8>
    decreases ss.len(),
{
    if ss.len() == 0 {
        Seq::empty()
    } else {
        holder_list_bytes(ss.drop_last()) + ss.last().address@ + spec_u16_to_le_bytes(
            ss.last().share_bps,
        )
    }
}

/// A written shareholder list holds shareholder `j` at `34 * j`.
proof fn lemma_holder_list_bytes(ss: Seq<PumpFeesShareholder>)
    ensures
        holder_list_bytes(ss).len() == 34 * ss.len(),
        forall|j: int| 0 <= j < ss.len() ==> #[trigger] key_at(holder_list_bytes(ss), 34 * j)
            == ss[j].address@ && u16_at(holder_list_bytes(ss), 34 * j + 32) == ss[j].share_bps,
    decreases ss.len(),
{
    lemma_auto_spec_u16_to_from_le_bytes();
    if ss.len() > 0 {
        let init = ss.drop_last();
        lemma_holder_list_bytes(init);
        let hb = holder_list_bytes(ss);
        let ib = holder_list_bytes(init);
        assert forall|j: int| 0 <= j < ss.len() implies #[trigger] key_at(hb, 34 * j)
            == ss[j].address@ && u16_at(hb, 34 * j + 32) == ss[j].share_bps by {
            if j < init.len() {
                assert(key_at(hb, 34 * j) =~= key_at(ib, 34 * j));
                assert(hb.subrange(34 * j + 32, 34 * j + 34) =~= ib.subrange(34 * j + 32, 34 * j + 34));
                assert(key_at(ib, 34 * j) == init[j].address@);
                assert(init[j] == ss[j]);
            } else {
                assert(key_at(hb, 34 * j) =~= ss.last().address@);
                assert(hb.subrange(34 * j + 32, 34 * j + 34) =~= spec_u16_to_le_bytes(ss.last().share_bps));
                assert(ss.last() == ss[j]);
            }
        }
    }
}

/// Shareholders written at `off` in `b` are read back as the same list.
proof fn lemma_holders_at(b: Seq<u8>, off: int, ss: Seq<PumpFeesShareholder>, got: Seq<PumpFeesShareholder>)
    requires
        0 <= off,
        off + 34 * ss.len() <= b.len(),
        b.subrange(off, off + 34 * ss.len()) == holder_list_bytes(ss),
        shareholders_decoded(got, b, off, ss.len() as int),
    ensures
        got == ss,
{
    lemma_holder_list_bytes(ss);
    let hb = holder_list_bytes(ss);
    assert forall|j: int| 0 <= j < ss.len() implies got[j] == ss[j] by {
        assert(key_at(b, off + 34 * j) =~= key_at(hb, 34 * j));
        assert(b.subrange(off + 34 * j + 32, off + 34 * j + 34) =~= hb.subrange(34 * j + 32, 34 * j + 34));
        assert(key_at(hb, 34 * j) == ss[j].address@);
        assert(shareholder_decoded(got[j], b, off + 34 * j));
        lemma_pubkey_eq(got[j].address, ss[j].address);
    }
    assert(got =~= ss);
}

/// The byte a sharing config status is written as.
pub open spec fn status_byte(s: PumpFeesConfigStatus) -> u8 {
    match s {
        PumpFeesConfigStatus::Paused => 0,
        PumpFeesConfigStatus::Active => 1,
    }
}

/// The sharing config body: bump, version, status, mint, admin, the revoked
/// flag, then the shareholder count (`u32`) and the shareholders.
pub open spec fn sharing_config_bytes(c: PumpFunSharingConfig) -> Seq<u8> {
    seq![c.bump, c.version, status_byte(c.status)] + c.mint@ + c.admin@ + seq![
        flag_byte(c.admin_revoked),
    ] + spec_u32_to_le_bytes(c.shareholders@.len() as u32) + holder_list_bytes(c.shareholders@)
}

/// A sharing config written in on-chain order, with at most 64
/// shareholders, decodes through `parse_pumpfun_account` to the config written.
#[verifier::rlimit(40)]
pub proof fn law_sharing_config_roundtrip(
    c: PumpFunSharingConfig,
    account: AccountData,
    metadata: EventMetadata,
    r: Option<DexEvent>,
)
    requires
        c.shareholders@.len() <= 64,
        account.data@ == SHARING_CONFIG_DISCRIMINATOR@ + sharing_config_bytes(c),
        pumpfun_result(r, account, metadata),
    ensures
        r matches Some(DexEvent::PumpFunSharingConfigAccount(e)) && {
            let x = e.sharing_config;
            &&& e.metadata == metadata
            &&& e.pubkey == account.pubkey
            &&& x.bump == c.bump
            &&& x.version == c.version
            &&& x.status == c.status
            &&& x.mint == c.mint
            &&& x.admin == c.admin
            &&& x.admin_revoked == c.admin_revoked
            &&& x.shareholders@ == c.shareholders@
        },
{
    lemma_auto_spec_u32_to_from_le_bytes();
    lemma_holder_list_bytes(c.shareholders@);
    let n = c.shareholders@.len() as int;
    let d = account.data@;
    let b = sharing_config_bytes(c);
    let hb = holder_list_bytes(c.shareholders@);
    assert(d.subrange(8, d.len() as int) =~= b);
    assert(d.subrange(0, 8) =~= SHARING_CONFIG_DISCRIMINATOR@);
    assert(b.len() == 72 + 34 * n);
    assert(b[0] == c.bump);
    assert(b[1] == c.version);
    assert(b[2] == status_byte(c.status));
    assert(key_at(b, 3) =~= c.mint@);
    assert(key_at(b, 35) =~= c.admin@);
    assert(b[67] == flag_byte(c.admin_revoked));
    assert(b.subrange(68, 72) =~= spec_u32_to_le_bytes(n as u32));
    assert(u32_at(b, 68) == n);
    assert(b.subrange(72, 72 + 34 * n) =~= hb);
    lemma_flag(c.admin_revoked);
    let x = r->0->PumpFunSharingConfigAccount_0.sharing_config;
    lemma_pubkey_eq(x.mint, c.mint);
    lemma_pubkey_eq(x.admin, c.admin);
    lemma_holders_at(b, 72, c.shareholders@, x.shareholders@);
}


/// The three fee rates written in order: LP, protocol, creator.
pub open spec fn fees_bytes(f: PumpFeesFees) -> Seq<u8> {
    spec_u64_to_le_bytes(f.lp_fee_bps) + spec_u64_to_le_bytes(f.protocol_fee_bps)
        + spec_u64_to_le_bytes(f.creator_fee_bps)
}

/// The fee tiers of `ts` written one after the other: market-cap threshold
/// (`u128` little-endian), then its three fee rates.
pub open spec fn tier_list_bytes(ts: Seq<PumpFeesFeeTier>) -> Seq<u8>
    decreases ts.len(),
{
    if ts.len() == 0 {
        Seq::empty()
    } else {
        tier_list_bytes(ts.drop_last()) + spec_u128_to_le_bytes(
            ts.last().market_cap_lamports_threshold,
        ) + fees_bytes(ts.last().fees)
    }
}

/// The three fee rates written at `off` are read back unchanged.
proof fn lemma_fees_at(b: Seq<u8>, off: int, f: PumpFeesFees, got: PumpFeesFees)
    requires
        0 <= off,
        off + 24 <= b.len(),
        b.subrange(off, off + 24) == fees_bytes(f),
        fees_decoded(got, b, off),
    ensures
        got == f,
{
    lemma_auto_spec_u64_to_from_le_bytes();
    let fb = fees_bytes(f);
    assert(b.subrange(off, off + 8) =~= fb.subrange(0, 8));
    assert(fb.subrange(0, 8) =~= spec_u64_to_le_bytes(f.lp_fee_bps));
    assert(b.subrange(off + 8, off + 16) =~= fb.subrange(8, 16));
    assert(fb.subrange(8, 16) =~= spec_u64_to_le_bytes(f.protocol_fee_bps));
    assert(b.subrange(off + 16, off + 24) =~= fb.subrange(16, 24));
    assert(fb.subrange(16, 24) =~= spec_u64_to_le_bytes(f.creator_fee_bps));
}

/// A written tier list holds tier `j` at `40 * j`.
proof fn lemma_tier_list_bytes(ts: Seq<PumpFeesFeeTier>)
    ensures
        tier_list_bytes(ts).len() == 40 * ts.len(),
        forall|j: int| 0 <= j < ts.len() ==> #[trigger] tier_list_bytes(ts).subrange(40 * j, 40 * j + 40)
            == spec_u128_to_le_bytes(ts[j].market_cap_lamports_threshold) + fees_bytes(ts[j].fees),
    decreases ts.len(),
{
    lemma_auto_spec_u64_to_from_le_bytes();
    lemma_auto_spec_u128_to_from_le_bytes();
    if ts.len() > 0 {
        let init = ts.drop_last();
        lemma_tier_list_bytes(init);
        let tb = tier_list_bytes(ts);
        let ib = tier_list_bytes(init);
        assert forall|j: int| 0 <= j < ts.len() implies #[trigger] tb.subrange(40 * j, 40 * j + 40)
            == spec_u128_to_le_bytes(ts[j].market_cap_lamports_threshold) + fees_bytes(ts[j].fees) by {
            if j < init.len() {
                assert(tb.subrange(40 * j, 40 * j + 40) =~= ib.subrange(40 * j, 40 * j + 40));
                assert(init[j] == ts[j]);
            } else {
                assert(tb.subrange(40 * j, 40 * j + 40) =~= spec_u128_to_le_bytes(
                    ts.last().market_cap_lamports_threshold,
                ) + fees_bytes(ts.last().fees));
                assert(ts.last() == ts[j]);
            }
        }
    }
}

/// Fee tiers written at `off` in `b` (after their count) are read back as the same list.
proof fn lemma_tiers_at(b: Seq<u8>, off: int, ts: Seq<PumpFeesFeeTier>, got: Seq<PumpFeesFeeTier>)
    requires
        0 <= off,
        off + 4 + 40 * ts.len() <= b.len(),
        u32_at(b, off) == ts.len(),
        b.subrange(off + 4, off + 4 + 40 * ts.len()) == tier_list_bytes(ts),
        tiers_decoded(got, b, off),
    ensures
        got == ts,
{
    lemma_tier_list_bytes(ts);
    lemma_auto_spec_u128_to_from_le_bytes();
    let tb = tier_list_bytes(ts);
    assert forall|j: int| 0 <= j < ts.len() implies got[j] == ts[j] by {
        let o = off + 4 + 40 * j;
        let w = tb.subrange(40 * j, 40 * j + 40);
        assert(b.subrange(o, o + 40) =~= w);
        assert(tier_decoded(got[j], b, o));
        assert(b.subrange(o, o + 16) =~= w.subrange(0, 16));
        assert(w.subrange(0, 16) =~= spec_u128_to_le_bytes(ts[j].market_cap_lamports_threshold));
        assert(b.subrange(o + 16, o + 40) =~= w.subrange(16, 40));
        assert(w.subrange(16, 40) =~= fees_bytes(ts[j].fees));
        lemma_fees_at(b, o + 16, ts[j].fees, got[j].fees);
    }
    assert(got =~= ts);
}

/// The fee config body: bump, admin, the flat fee rates, then the fee tier
/// list and the stable fee tier list, each a `u32` count and its tiers.
pub open spec fn fee_config_bytes(c: PumpFunFeeConfig) -> Seq<u8> {
    seq![c.bump] + c.admin@ + fees_bytes(c.flat_fees) + spec_u32_to_le_bytes(
        c.fee_tiers@.len() as u32,
    ) + tier_list_bytes(c.fee_tiers@) + spec_u32_to_le_bytes(c.stable_fee_tiers@.len() as u32)
        + tier_list_bytes(c.stable_fee_tiers@)
}

/// A fee config written in on-chain order, with at most 64 tiers in each
/// list, decodes through `parse_pumpfun_account` to the config written.
#[verifier::rlimit(40)]
pub proof fn law_fee_config_roundtrip(
    c: PumpFunFeeConfig,
    account: AccountData,
    metadata: EventMetadata,
    r: Option<DexEvent>,
)
    requires
        c.fee_tiers@.len() <= 64,
        c.stable_fee_tiers@.len() <= 64,
        account.data@ == FEE_CONFIG_DISCRIMINATOR@ + fee_config_bytes(c),
        pumpfun_result(r, account, metadata),
    ensures
        r matches Some(DexEvent::PumpFunFeeConfigAccount(e)) && {
            let x = e.fee_config;
            &&& e.metadata == metadata
            &&& e.pubkey == account.pubkey
            &&& x.bump == c.bump
            &&& x.admin == c.admin
            &&& x.flat_fees == c.flat_fees
            &&& x.fee_tiers@ == c.fee_tiers@
            &&& x.stable_fee_tiers@ == c.stable_fee_tiers@
        },
{
    lemma_auto_spec_u32_to_from_le_bytes();
    lemma_auto_spec_u64_to_from_le_bytes();
    lemma_tier_list_bytes(c.fee_tiers@);
    lemma_tier_list_bytes(c.stable_fee_tiers@);
    let n1 = c.fee_tiers@.len() as int;
    let n2 = c.stable_fee_tiers@.len() as int;
    let d = account.data@;
    let b = fee_config_bytes(c);
    assert(d.subrange(8, d.len() as int) =~= b);
    assert(d.subrange(0, 8) =~= FEE_CONFIG_DISCRIMINATOR@);
    assert(b.len() == 65 + 40 * n1 + 40 * n2);
    assert(b[0] == c.bump);
    assert(key_at(b, 1) =~= c.admin@);
    assert(b.subrange(33, 57) =~= fees_bytes(c.flat_fees));
    assert(b.subrange(57, 61) =~= spec_u32_to_le_bytes(n1 as u32));
    assert(u32_at(b, 57) == n1);
    assert(b.subrange(61, 61 + 40 * n1) =~= tier_list_bytes(c.fee_tiers@));
    let s = 61 + 40 * n1;
    assert(b.subrange(s, s + 4) =~= spec_u32_to_le_bytes(n2 as u32));
    assert(u32_at(b, s) == n2);
    assert(b.subrange(s + 4, s + 4 + 40 * n2) =~= tier_list_bytes(c.stable_fee_tiers@));
    let x = r->0->PumpFunFeeConfigAccount_0.fee_config;
    lemma_pubkey_eq(x.admin, c.admin);
    lemma_fees_at(b, 33, c.flat_fees, x.flat_fees);
    lemma_tiers_at(b, 57, c.fee_tiers@, x.fee_tiers@);
    lemma_tiers_at(b, s, c.stable_fee_tiers@, x.stable_fee_tiers@);
}


/// The leading trade fields, through the volume-tracking block: mint, SOL
/// and token amounts, the buy flag, user, timestamp, the four reserves, fee
/// recipient, fee rate, fee, creator, creator fee rate, creator fee, the
/// volume-tracking flag, the unclaimed and claimed tokens, the SOL volume and
/// the last update time.
pub open spec fn trade_head_bytes(t: PumpFunTradeEvent) -> Seq<u8> {
    t.mint@ + spec_u64_to_le_bytes(t.sol_amount) + spec_u64_to_le_bytes(t.token_amount) + seq![
        flag_byte(t.is_buy),
    ] + t.user@ + i64_le_bytes(t.timestamp) + spec_u64_to_le_bytes(t.virtual_sol_reserves)
        + spec_u64_to_le_bytes(t.virtual_token_reserves) + spec_u64_to_le_bytes(t.real_sol_reserves)
        + spec_u64_to_le_bytes(t.real_token_reserves) + t.fee_recipient@ + spec_u64_to_le_bytes(
        t.fee_basis_points,
    ) + spec_u64_to_le_bytes(t.fee) + t.creator@ + spec_u64_to_le_bytes(t.creator_fee_basis_points)
        + spec_u64_to_le_bytes(t.creator_fee) + seq![flag_byte(t.track_volume)]
        + spec_u64_to_le_bytes(t.total_unclaimed_tokens) + spec_u64_to_le_bytes(
        t.total_claimed_tokens,
    ) + spec_u64_to_le_bytes(t.current_sol_volume) + i64_le_bytes(t.last_update_timestamp)
}

/// The fields after the instruction name: the mayhem flag, the cashback fee
/// rate and cashback.
pub open spec fn trade_cashback_bytes(t: PumpFunTradeEvent) -> Seq<u8> {
    seq![flag_byte(t.mayhem_mode)] + spec_u64_to_le_bytes(t.cashback_fee_basis_points)
        + spec_u64_to_le_bytes(t.cashback)
}

/// The extensions: buyback fee rate and fee, the shareholder count and
/// shareholders, quote mint, quote amount, virtual and real quote reserves,
/// holder-reward rate and holder rewards.
pub open spec fn trade_extension_bytes(t: PumpFunTradeEvent) -> Seq<u8> {
    spec_u64_to_le_bytes(t.buyback_fee_basis_points) + spec_u64_to_le_bytes(t.buyback_fee)
        + spec_u32_to_le_bytes(t.shareholders@.len() as u32) + holder_list_bytes(t.shareholders@)
        + t.quote_mint@ + spec_u64_to_le_bytes(t.quote_amount) + spec_u64_to_le_bytes(
        t.virtual_quote_reserves,
    ) + spec_u64_to_le_bytes(t.real_quote_reserves) + spec_u64_to_le_bytes(t.holder_rewards_bps)
        + spec_u64_to_le_bytes(t.holder_rewards)
}

/// A complete trade event body: the leading fields, the instruction name,
/// the cashback fields and the extensions.
pub open spec fn trade_bytes(t: PumpFunTradeEvent) -> Seq<u8> {
    trade_head_bytes(t) + str_bytes(t.ix_name@) + trade_cashback_bytes(t) + trade_extension_bytes(t)
}

/// A trade event written in on-chain order, with at most 64 shareholders,
/// decodes through `parse_trade_from_data` (and so through `parse_log` and the
/// buy / sell selectors) to the fields written; an all-zero quote mint reads
/// as wrapped SOL.
#[verifier::rlimit(80)]
pub proof fn law_trade_roundtrip(
    t: PumpFunTradeEvent,
    metadata: EventMetadata,
    is_created_buy: bool,
    r: Option<DexEvent>,
)
    requires
        encode_utf8(t.ix_name@).len() <= u32::MAX,
        t.shareholders@.len() <= 64,
        trade_result(r, trade_bytes(t), metadata, is_created_buy),
    ensures
        r is Some,
        ({
            let e = trade_payload(r->0);
            &&& e.metadata == metadata
            &&& e.is_created_buy == is_created_buy
            &&& e.mint == t.mint
            &&& e.sol_amount == t.sol_amount
            &&& e.token_amount == t.token_amount
            &&& e.is_buy == t.is_buy
            &&& e.user == t.user
            &&& e.timestamp == t.timestamp
            &&& e.virtual_sol_reserves == t.virtual_sol_reserves
            &&& e.virtual_token_reserves == t.virtual_token_reserves
            &&& e.real_sol_reserves == t.real_sol_reserves
            &&& e.real_token_reserves == t.real_token_reserves
            &&& e.fee_recipient == t.fee_recipient
            &&& e.fee_basis_points == t.fee_basis_points
            &&& e.fee == t.fee
            &&& e.creator == t.creator
            &&& e.creator_fee_basis_points == t.creator_fee_basis_points
            &&& e.creator_fee == t.creator_fee
            &&& e.track_volume == t.track_volume
            &&& e.total_unclaimed_tokens == t.total_unclaimed_tokens
            &&& e.total_claimed_tokens == t.total_claimed_tokens
            &&& e.current_sol_volume == t.current_sol_volume
            &&& e.last_update_timestamp == t.last_update_timestamp
            &&& e.ix_name@ == t.ix_name@
            &&& e.mayhem_mode == t.mayhem_mode
            &&& e.cashback_fee_basis_points == t.cashback_fee_basis_points
            &&& e.cashback == t.cashback
            &&& e.buyback_fee_basis_points == t.buyback_fee_basis_points
            &&& e.buyback_fee == t.buyback_fee
            &&& e.shareholders@ == t.shareholders@
            &&& e.quote_mint@ == normalized_quote_mint(t.quote_mint@)
            &&& e.quote_amount == t.quote_amount
            &&& e.virtual_quote_reserves == t.virtual_quote_reserves
            &&& e.real_quote_reserves == t.real_quote_reserves
            &&& e.holder_rewards_bps == t.holder_rewards_bps
            &&& e.holder_rewards == t.holder_rewards
        }),
{
    lemma_auto_spec_u64_to_from_le_bytes();
    lemma_auto_spec_u32_to_from_le_bytes();
    lemma_holder_list_bytes(t.shareholders@);
    let h = trade_head_bytes(t);
    let nb = str_bytes(t.ix_name@);
    let cb = trade_cashback_bytes(t);
    let xb = trade_extension_bytes(t);
    let d = trade_bytes(t);
    let n = t.shareholders@.len() as int;
    assert(h.len() == 250);
    assert(cb.len() == 17);
    assert(xb.len() == 92 + 34 * n);
    // The leading fields.
    assert(d.subrange(0, 250) =~= h);
    assert(key_at(d, 0) =~= t.mint@);
    assert(d.subrange(32, 40) =~= spec_u64_to_le_bytes(t.sol_amount));
    assert(d.subrange(40, 48) =~= spec_u64_to_le_bytes(t.token_amount));
    assert(d[48] == flag_byte(t.is_buy));
    assert(key_at(d, 49) =~= t.user@);
    assert(d.subrange(81, 89) =~= i64_le_bytes(t.timestamp));
    assert(d.subrange(89, 97) =~= spec_u64_to_le_bytes(t.virtual_sol_reserves));
    assert(d.subrange(97, 105) =~= spec_u64_to_le_bytes(t.virtual_token_reserves));
    assert(d.subrange(105, 113) =~= spec_u64_to_le_bytes(t.real_sol_reserves));
    assert(d.subrange(113, 121) =~= spec_u64_to_le_bytes(t.real_token_reserves));
    assert(key_at(d, 121) =~= t.fee_recipient@);
    assert(d.subrange(153, 161) =~= spec_u64_to_le_bytes(t.fee_basis_points));
    assert(d.subrange(161, 169) =~= spec_u64_to_le_bytes(t.fee));
    assert(key_at(d, 169) =~= t.creator@);
    assert(d.subrange(201, 209) =~= spec_u64_to_le_bytes(t.creator_fee_basis_points));
    assert(d.subrange(209, 217) =~= spec_u64_to_le_bytes(t.creator_fee));
    assert(d[217] == flag_byte(t.track_volume));
    assert(d.subrange(218, 226) =~= spec_u64_to_le_bytes(t.total_unclaimed_tokens));
    assert(d.subrange(226, 234) =~= spec_u64_to_le_bytes(t.total_claimed_tokens));
    assert(d.subrange(234, 242) =~= spec_u64_to_le_bytes(t.current_sol_volume));
    assert(d.subrange(242, 250) =~= i64_le_bytes(t.last_update_timestamp));
    let (ts, lu) = (t.timestamp, t.last_update_timestamp);
    assert((ts as u64) as i64 == ts) by (bit_vector);
    assert((lu as u64) as i64 == lu) by (bit_vector);
    // The instruction name.
    assert(d.subrange(250, 250 + nb.len() as int) =~= nb);
    lemma_str_roundtrip(d, 250, t.ix_name@);
    let ne = 250 + nb.len() as int;
    assert(trade_name_end(d) == ne);
    assert(trade_name(d) == t.ix_name@);
    // The cashback fields.
    let r_ = trade_rest(d);
    assert(r_ =~= cb + xb);
    assert(r_[0] == flag_byte(t.mayhem_mode));
    assert(r_.subrange(1, 9) =~= spec_u64_to_le_bytes(t.cashback_fee_basis_points));
    assert(r_.subrange(9, 17) =~= spec_u64_to_le_bytes(t.cashback));
    // The extensions.
    let x = trade_ext(d);
    assert(x =~= xb);
    assert(x.subrange(0, 8) =~= spec_u64_to_le_bytes(t.buyback_fee_basis_points));
    assert(x.subrange(8, 16) =~= spec_u64_to_le_bytes(t.buyback_fee));
    assert(x.subrange(16, 20) =~= spec_u32_to_le_bytes(n as u32));
    assert(u32_at(x, 16) == n);
    assert(ext_holders_at(x, 0) == 16);
    assert(x.subrange(20, 20 + 34 * n) =~= holder_list_bytes(t.shareholders@));
    let q = 20 + 34 * n;
    assert(ext_quote_mint_at(x, 0) == q);
    assert(key_at(x, q) =~= t.quote_mint@);
    assert(x.subrange(q + 32, q + 40) =~= spec_u64_to_le_bytes(t.quote_amount));
    assert(x.subrange(q + 40, q + 48) =~= spec_u64_to_le_bytes(t.virtual_quote_reserves));
    assert(x.subrange(q + 48, q + 56) =~= spec_u64_to_le_bytes(t.real_quote_reserves));
    assert(x.subrange(q + 56, q + 64) =~= spec_u64_to_le_bytes(t.holder_rewards_bps));
    assert(x.subrange(q + 64, q + 72) =~= spec_u64_to_le_bytes(t.holder_rewards));
    assert(trade_accepted(d));
    let e = trade_payload(r->0);
    lemma_holders_at(x, 20, t.shareholders@, e.shareholders@);
    lemma_pubkey_eq(e.mint, t.mint);
    lemma_pubkey_eq(e.user, t.user);
    lemma_pubkey_eq(e.fee_recipient, t.fee_recipient);
    lemma_pubkey_eq(e.creator, t.creator);
}

} // verus!
