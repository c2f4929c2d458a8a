//! Pump.fun program-log events: `Program data:` payloads decoded into typed events.
use vstd::prelude::*;
use vstd::utf8::{decode_utf8, encode_utf8, encode_utf8_decode_utf8, encode_utf8_valid_utf8, valid_utf8};
use vstd::bytes::{spec_u64_from_le_bytes, u64_from_le_bytes};
use crate::logs::decode::{
    base64_standard, decode_base64_into, find_first, first_occurrence, lemma_ascii_is_boundary,
    lemma_boundary_after_ascii_run, lemma_first_occurrence_unique, trim_white_space,
    trim_ws, MAX_PAYLOAD_TEXT, PROGRAM_DATA_TAG,
};
use crate::accounts::program_ids::NATIVE_SOL_MINT;
use crate::accounts::pumpfun::{shareholder_decoded, shareholders_decoded};
use crate::events::{
    DexEvent, EventMetadata, PumpFeesShareholder, PumpFunCreateTokenEvent,
    PumpFunMigrateBondingCurveCreatorEvent, PumpFunMigrateEvent, PumpFunTradeEvent,
};
use crate::layout::{
    lemma_len_fits_usize, fits, i64_at, i64_or_zero, key_at, key_or_zero, load_i64, load_i64_or_zero, load_key,
    load_key_or_zero, load_u16, load_u32, load_u64, load_u64_or_zero, u16_at, u32_at, u64_at,
    u64_or_zero,
};
use crate::pubkey::{zero_key, Pubkey, Signature};

verus! {

// --- discriminators ------------------------------------------------

/// `CreateEvent`: the little-endian reading of `[27, 114, 169, 77, 222, 235, 99, 118]`.
pub const CREATE_EVENT: u64 = 8530921459188068891;

/// `TradeEvent`: the little-endian reading of `[189, 219, 127, 211, 78, 230, 97, 238]`.
pub const TRADE_EVENT: u64 = 17177263679997991869;

/// `CompleteEvent` (migration): the little-endian reading of `[189, 233, 93, 185, 92, 148, 234, 148]`.
pub const MIGRATE_EVENT: u64 = 10730552188131469757;

/// `migrateBondingCurveCreatorEvent`: the little-endian reading of `[155, 167, 104, 220, 213, 108, 243, 3]`.
pub const MIGRATE_BONDING_CURVE_CREATOR_EVENT: u64 = 284690867236153243;

// --- instruction names ---------------------------------------------

/// The instruction name with its `_v2` suffix folded away.
pub open spec fn normalized_ix_name(s: Seq<char>) -> Seq<char> {
    if s == "buy_v2"@ {
        "buy"@
    } else if s == "sell_v2"@ {
        "sell"@
    } else if s == "buy_exact_quote_in_v2"@ {
        "buy_exact_quote_in"@
    } else {
        s
    }
}

/// Character-wise equality of two strings.
fn str_eq(a: &str, b: &str) -> (r: bool)
    ensures
        r == (a@ == b@),
{
    let x = a.as_bytes();
    let y = b.as_bytes();
    proof {
        encode_utf8_decode_utf8(a@);
        encode_utf8_decode_utf8(b@);
    }
    if x.len() != y.len() {
        return false;
    }
    let mut i: usize = 0;
    while i < x.len()
        invariant
            x@.len() == y@.len(),
            x@ == encode_utf8(a@),
            y@ == encode_utf8(b@),
            0 <= i <= x@.len(),
            forall|j: int| 0 <= j < i ==> x@[j] == y@[j],
        decreases x@.len() - i,
    {
        if x[i] != y[i] {
            assert(x@[i as int] != y@[i as int]);
            return false;
        }
        i = i + 1;
    }
    assert(x@ =~= y@);
    true
}

/// Folds the `_v2` instruction names onto their unsuffixed names.
pub fn normalize_pumpfun_ix_name(ix_name: &str) -> (r: &str)
    ensures
        r@ == normalized_ix_name(ix_name@),
{
    if str_eq(ix_name, "buy_v2") {
        "buy"
    } else if str_eq(ix_name, "sell_v2") {
        "sell"
    } else if str_eq(ix_name, "buy_exact_quote_in_v2") {
        "buy_exact_quote_in"
    } else {
        ix_name
    }
}

/// The quote mint with an absent (all-zero) key read as wrapped SOL.
pub open spec fn normalized_quote_mint(k: Seq<u8>) -> Seq<u8> {
    if k == zero_key() {
        NATIVE_SOL_MINT@
    } else {
        k
    }
}

/// Reads an absent (all-zero) quote mint as the wrapped-SOL mint.
pub fn normalize_pumpfun_quote_mint(quote_mint: Pubkey) -> (r: Pubkey)
    ensures
        r@ == normalized_quote_mint(quote_mint@),
{
    let zero = Pubkey::default();
    if quote_mint.equals(&zero) {
        Pubkey::new_from_array(NATIVE_SOL_MINT)
    } else {
        quote_mint
    }
}

// --- binary_read ---------------------------------------------------

/// The byte at `off` is present and equal to 1.
pub open spec fn flag_at(s: Seq<u8>, off: int) -> bool {
    0 <= off < s.len() && s[off] == 1
}

/// Reads the `u64` at `offset`, which must fit.
pub fn read_u64_unchecked(data: &[u8], offset: usize) -> (r: u64)
    requires
        fits(data@, offset as int, 8),
    ensures
        r == u64_at(data@, offset as int),
{
    load_u64(data, offset)
}

/// Reads the `i64` at `offset`, which must fit.
pub fn read_i64_unchecked(data: &[u8], offset: usize) -> (r: i64)
    requires
        fits(data@, offset as int, 8),
    ensures
        r == i64_at(data@, offset as int),
{
    load_i64(data, offset)
}

/// Reads the byte at `offset`, which must exist, as a flag that is set when it is 1.
pub fn read_bool_unchecked(data: &[u8], offset: usize) -> (r: bool)
    requires
        offset < data@.len(),
    ensures
        r == (data@[offset as int] == 1),
{
    data[offset] == 1
}

/// Reads the key at `offset`, which must fit.
pub fn read_pubkey_unchecked(data: &[u8], offset: usize) -> (r: Pubkey)
    requires
        fits(data@, offset as int, 32),
    ensures
        r@ == key_at(data@, offset as int),
{
    load_key(data, offset)
}

/// Reads the `u32` at `offset`, which must fit.
pub fn read_u32_unchecked(data: &[u8], offset: usize) -> (r: u32)
    requires
        fits(data@, offset as int, 4),
    ensures
        r == u32_at(data@, offset as int),
{
    load_u32(data, offset)
}

/// Reads the `u16` at `offset`, which must fit.
pub fn read_u16_unchecked(data: &[u8], offset: usize) -> (r: u16)
    requires
        fits(data@, offset as int, 2),
    ensures
        r == u16_at(data@, offset as int),
{
    load_u16(data, offset)
}

/// Reads the flag at `offset`, or `false` past the end.
fn read_flag(data: &[u8], offset: usize) -> (r: bool)
    ensures
        r == flag_at(data@, offset as int),
{
    offset < data.len() && data[offset] == 1
}

/// The length-prefixed UTF-8 string at `off`: its characters and the number
/// of bytes it spans, prefix included.
pub open spec fn str_at(d: Seq<u8>, off: int) -> Option<(Seq<char>, int)> {
    if fits(d, off, 4) && fits(d, off + 4, u32_at(d, off) as int) && valid_utf8(
        d.subrange(off + 4, off + 4 + u32_at(d, off)),
    ) {
        Some((decode_utf8(d.subrange(off + 4, off + 4 + u32_at(d, off))), 4 + u32_at(d, off)))
    } else {
        None
    }
}

/// Calls `std::str::from_utf8(bytes).ok()`: the text of `bytes` when they
/// are well-formed UTF-8.
#[verifier::external_body]
fn utf8_text(bytes: &[u8]) -> (r: Option<&str>)
    ensures
        r is Some <==> valid_utf8(bytes@),
        r matches Some(s) ==> s@ == decode_utf8(bytes@),
{
    std::str::from_utf8(bytes).ok()
}

/// Reads the length-prefixed UTF-8 string at `offset`, with the number of
/// bytes it spans; `None` when it is truncated or not UTF-8.
pub fn read_str_unchecked(data: &[u8], offset: usize) -> (r: Option<(&str, usize)>)
    ensures
        r is Some <==> str_at(data@, offset as int) is Some,
        r matches Some((s, n)) ==> str_at(data@, offset as int) == Some((s@, n as int)),
{
    let n = data.len();
    let start = match offset.checked_add(4) {
        Some(s) => s,
        None => return None,
    };
    if start > data.len() {
        return None;
    }
    let len = load_u32(data, offset) as usize;
    let end = match start.checked_add(len) {
        Some(e) => e,
        None => return None,
    };
    if end > data.len() {
        return None;
    }
    let s = match utf8_text(&data[start..end]) {
        Some(s) => s,
        None => return None,
    };
    Some((s, 4 + len))
}

// --- trade event extensions ------------------------------------------

/// Most shareholders a trade event may carry.
pub const MAX_TRADE_SHAREHOLDERS: usize = 64;

/// The fields appended to trade events after the cashback fields.
pub type TradeEventExtensions = (u64, u64, Vec<PumpFeesShareholder>, Pubkey, u64, u64, u64, u64, u64);

/// Position after an optional `u64` at `p`: past it when it fits, else unchanged.
pub open spec fn u64_step(x: Seq<u8>, p: int) -> int {
    if fits(x, p, 8) {
        p + 8
    } else {
        p
    }
}

/// Position after an optional key at `p`.
pub open spec fn key_step(x: Seq<u8>, p: int) -> int {
    if fits(x, p, 32) {
        p + 32
    } else {
        p
    }
}

/// The shareholder list at `p` is absent (no room for its count) or complete and not over-long.
pub open spec fn holders_ok(x: Seq<u8>, p: int) -> bool {
    !fits(x, p, 4) || (u32_at(x, p) <= MAX_TRADE_SHAREHOLDERS && fits(x, p, 4 + 34 * u32_at(x, p)))
}

/// Number of shareholders listed at `p` (none when absent).
pub open spec fn holders_count(x: Seq<u8>, p: int) -> int {
    if fits(x, p, 4) {
        u32_at(x, p) as int
    } else {
        0
    }
}

/// Position after the shareholder list at `p`.
pub open spec fn holders_end(x: Seq<u8>, p: int) -> int {
    if fits(x, p, 4) {
        p + 4 + 34 * u32_at(x, p)
    } else {
        p
    }
}

pub open spec fn ext_holders_at(x: Seq<u8>, p: int) -> int {
    u64_step(x, u64_step(x, p))
}

pub open spec fn ext_quote_mint_at(x: Seq<u8>, p: int) -> int {
    holders_end(x, ext_holders_at(x, p))
}

pub open spec fn ext_quote_amount_at(x: Seq<u8>, p: int) -> int {
    key_step(x, ext_quote_mint_at(x, p))
}

pub open spec fn ext_virtual_quote_at(x: Seq<u8>, p: int) -> int {
    u64_step(x, ext_quote_amount_at(x, p))
}

pub open spec fn ext_real_quote_at(x: Seq<u8>, p: int) -> int {
    u64_step(x, ext_virtual_quote_at(x, p))
}

pub open spec fn ext_holder_rewards_bps_at(x: Seq<u8>, p: int) -> int {
    u64_step(x, ext_real_quote_at(x, p))
}

pub open spec fn ext_holder_rewards_at(x: Seq<u8>, p: int) -> int {
    u64_step(x, ext_holder_rewards_bps_at(x, p))
}

/// Position after all trade event extensions read from `p`.
pub open spec fn ext_end(x: Seq<u8>, p: int) -> int {
    u64_step(x, ext_holder_rewards_at(x, p))
}

/// Whether the extensions from `p` decode.
pub open spec fn extensions_ok(x: Seq<u8>, p: int) -> bool {
    holders_ok(x, ext_holders_at(x, p))
}

/// `t` holds the extensions laid out from `p`; absent fields take their zero value.
pub open spec fn extensions_decoded(t: TradeEventExtensions, x: Seq<u8>, p: int) -> bool {
    &&& t.0 == u64_or_zero(x, p)
    &&& t.1 == u64_or_zero(x, u64_step(x, p))
    &&& shareholders_decoded(
        t.2@,
        x,
        ext_holders_at(x, p) + 4,
        holders_count(x, ext_holders_at(x, p)),
    )
    &&& t.3@ == normalized_quote_mint(key_or_zero(x, ext_quote_mint_at(x, p)))
    &&& t.4 == u64_or_zero(x, ext_quote_amount_at(x, p))
    &&& t.5 == u64_or_zero(x, ext_virtual_quote_at(x, p))
    &&& t.6 == u64_or_zero(x, ext_real_quote_at(x, p))
    &&& t.7 == u64_or_zero(x, ext_holder_rewards_bps_at(x, p))
    &&& t.8 == u64_or_zero(x, ext_holder_rewards_at(x, p))
}

/// Reads an optional `u64`, advancing past it only when it fits.
fn read_optional_u64(data: &[u8], offset: &mut usize) -> (r: u64)
    requires
        *old(offset) <= data@.len(),
    ensures
        r == u64_or_zero(data@, *old(offset) as int),
        *final(offset) == u64_step(data@, *old(offset) as int),
        *final(offset) <= data@.len(),
{
    if data.len() - *offset >= 8 {
        let v = load_u64(data, *offset);
        *offset = *offset + 8;
        v
    } else {
        0
    }
}

/// Reads an optional key, advancing past it only when it fits.
fn read_optional_pubkey(data: &[u8], offset: &mut usize) -> (r: Pubkey)
    requires
        *old(offset) <= data@.len(),
    ensures
        r@ == key_or_zero(data@, *old(offset) as int),
        *final(offset) == key_step(data@, *old(offset) as int),
        *final(offset) <= data@.len(),
{
    if data.len() - *offset >= 32 {
        let v = load_key(data, *offset);
        *offset = *offset + 32;
        v
    } else {
        Pubkey::default()
    }
}

/// Reads the optional shareholder list: empty when there is no room for its
/// count, `None` when it is over-long or truncated.
fn read_trade_shareholders(data: &[u8], offset: &mut usize) -> (r: Option<Vec<PumpFeesShareholder>>)
    requires
        *old(offset) <= data@.len(),
    ensures
        r is Some <==> holders_ok(data@, *old(offset) as int),
        r matches Some(v) ==> shareholders_decoded(
            v@,
            data@,
            *old(offset) + 4,
            holders_count(data@, *old(offset) as int),
        ) && *final(offset) == holders_end(data@, *old(offset) as int) && *final(offset)
            <= data@.len(),
        r is None ==> *final(offset) == *old(offset),
{
    let len = data.len();
    let start = *offset;
    if len - start < 4 {
        return Some(Vec::new());
    }
    let n = load_u32(data, start) as usize;
    if n > MAX_TRADE_SHAREHOLDERS {
        return None;
    }
    let bytes = 4 + 34 * n;
    if len - start < bytes {
        return None;
    }
    let mut out: Vec<PumpFeesShareholder> = Vec::new();
    let mut i: usize = 0;
    while i < n
        invariant
            len == data@.len(),
            start + 4 + 34 * n <= len,
            n <= MAX_TRADE_SHAREHOLDERS,
            0 <= i <= n,
            out@.len() == i,
            forall|j: int|
                0 <= j < i ==> shareholder_decoded(#[trigger] out@[j], data@, start + 4 + 34 * j),
        decreases n - i,
    {
        let at = start + 4 + 34 * i;
        out.push(PumpFeesShareholder { address: load_key(data, at), share_bps: load_u16(data, at + 32) });
        i = i + 1;
    }
    *offset = start + bytes;
    Some(out)
}

/// Reads the fields appended to trade events: buyback fee, shareholders,
/// quote mint and amounts, and holder rewards.
pub(crate) fn read_trade_event_extensions(data: &[u8], offset: &mut usize) -> (r: Option<
    TradeEventExtensions,
>)
    requires
        *old(offset) <= data@.len(),
    ensures
        r is Some <==> extensions_ok(data@, *old(offset) as int),
        r matches Some(t) ==> extensions_decoded(t, data@, *old(offset) as int) && *final(offset)
            == ext_end(data@, *old(offset) as int),
{
    let buyback_fee_basis_points = read_optional_u64(data, offset);
    let buyback_fee = read_optional_u64(data, offset);
    let shareholders = match read_trade_shareholders(data, offset) {
        Some(s) => s,
        None => return None,
    };
    let quote_mint = normalize_pumpfun_quote_mint(read_optional_pubkey(data, offset));
    let quote_amount = read_optional_u64(data, offset);
    let virtual_quote_reserves = read_optional_u64(data, offset);
    let real_quote_reserves = read_optional_u64(data, offset);
    let holder_rewards_bps = read_optional_u64(data, offset);
    let holder_rewards = read_optional_u64(data, offset);
    Some(
        (
            buyback_fee_basis_points,
            buyback_fee,
            shareholders,
            quote_mint,
            quote_amount,
            virtual_quote_reserves,
            real_quote_reserves,
            holder_rewards_bps,
            holder_rewards,
        ),
    )
}

// --- trade event ---------------------------------------------------

/// Bytes of the trade fields that every trade event carries.
pub const TRADE_FIXED_LEN: usize = 217;

/// Offset of the instruction name, after the optional volume-tracking fields.
pub const TRADE_NAME_OFFSET: usize = 250;

/// The trade event carries an instruction name (there is room for its length).
pub open spec fn trade_name_present(d: Seq<u8>) -> bool {
    fits(d, TRADE_NAME_OFFSET as int, 4)
}

/// The instruction name of a trade event, empty when absent.
pub open spec fn trade_name(d: Seq<u8>) -> Seq<char> {
    if trade_name_present(d) {
        str_at(d, TRADE_NAME_OFFSET as int).unwrap().0
    } else {
        Seq::empty()
    }
}

/// Offset just past the instruction name (the name offset when absent).
pub open spec fn trade_name_end(d: Seq<u8>) -> int {
    if trade_name_present(d) {
        TRADE_NAME_OFFSET + str_at(d, TRADE_NAME_OFFSET as int).unwrap().1
    } else {
        TRADE_NAME_OFFSET as int
    }
}

/// The bytes after the instruction name.
pub open spec fn trade_rest(d: Seq<u8>) -> Seq<u8> {
    if trade_name_end(d) <= d.len() {
        d.subrange(trade_name_end(d), d.len() as int)
    } else {
        Seq::empty()
    }
}

/// The bytes after the mayhem and cashback fields, where the extensions start.
pub open spec fn trade_ext(d: Seq<u8>) -> Seq<u8> {
    let r = trade_rest(d);
    if r.len() >= 17 {
        r.subrange(17, r.len() as int)
    } else {
        Seq::empty()
    }
}

/// Whether a trade event body decodes.
pub open spec fn trade_accepted(d: Seq<u8>) -> bool {
    &&& d.len() >= TRADE_FIXED_LEN
    &&& trade_name_present(d) ==> str_at(d, TRADE_NAME_OFFSET as int) is Some
    &&& extensions_ok(trade_ext(d), 0)
}

/// `e` holds the trade event laid out in `d`.
pub open spec fn trade_decoded(
    e: PumpFunTradeEvent,
    d: Seq<u8>,
    metadata: EventMetadata,
    is_created_buy: bool,
) -> bool {
    let r = trade_rest(d);
    let x = trade_ext(d);
    &&& e.metadata == metadata
    &&& e.mint@ == key_at(d, 0)
    &&& e.sol_amount == u64_at(d, 32)
    &&& e.token_amount == u64_at(d, 40)
    &&& e.is_buy == (d[48] == 1)
    &&& e.is_created_buy == is_created_buy
    &&& e.user@ == key_at(d, 49)
    &&& e.timestamp == i64_at(d, 81)
    &&& e.virtual_sol_reserves == u64_at(d, 89)
    &&& e.virtual_token_reserves == u64_at(d, 97)
    &&& e.real_sol_reserves == u64_at(d, 105)
    &&& e.real_token_reserves == u64_at(d, 113)
    &&& e.fee_recipient@ == key_at(d, 121)
    &&& e.fee_basis_points == u64_at(d, 153)
    &&& e.fee == u64_at(d, 161)
    &&& e.creator@ == key_at(d, 169)
    &&& e.creator_fee_basis_points == u64_at(d, 201)
    &&& e.creator_fee == u64_at(d, 209)
    &&& e.track_volume == flag_at(d, 217)
    &&& e.total_unclaimed_tokens == u64_or_zero(d, 218)
    &&& e.total_claimed_tokens == u64_or_zero(d, 226)
    &&& e.current_sol_volume == u64_or_zero(d, 234)
    &&& e.last_update_timestamp == i64_or_zero(d, 242)
    &&& e.ix_name@ == trade_name(d)
    &&& e.mayhem_mode == flag_at(r, 0)
    &&& e.cashback_fee_basis_points == u64_or_zero(r, 1)
    &&& e.cashback == u64_or_zero(r, 9)
    &&& extensions_decoded(
        (
            e.buyback_fee_basis_points,
            e.buyback_fee,
            e.shareholders,
            e.quote_mint,
            e.quote_amount,
            e.virtual_quote_reserves,
            e.real_quote_reserves,
            e.holder_rewards_bps,
            e.holder_rewards,
        ),
        x,
        0,
    )
    &&& e.is_cashback_coin == (e.cashback_fee_basis_points > 0)
    &&& e.amount == 0
    &&& e.max_sol_cost == 0
    &&& e.min_sol_output == 0
    &&& e.spendable_sol_in == 0
    &&& e.spendable_quote_in == 0
    &&& e.min_tokens_out == 0
    &&& e.global@ == zero_key()
    &&& e.bonding_curve@ == zero_key()
    &&& e.associated_bonding_curve@ == zero_key()
    &&& e.associated_user@ == zero_key()
    &&& e.system_program@ == zero_key()
    &&& e.creator_vault@ == zero_key()
    &&& e.event_authority@ == zero_key()
    &&& e.program@ == zero_key()
    &&& e.global_volume_accumulator@ == zero_key()
    &&& e.user_volume_accumulator@ == zero_key()
    &&& e.fee_config@ == zero_key()
    &&& e.fee_program@ == zero_key()
    &&& e.token_program@ == zero_key()
    &&& e.account is None
}

/// The event variant a trade takes from its (normalized) instruction name.
pub open spec fn trade_wrapped(ev: DexEvent, kind: Seq<char>, e: PumpFunTradeEvent) -> bool {
    if kind == "buy"@ || kind == "buy_exact_quote_in"@ {
        ev == DexEvent::PumpFunBuy(e)
    } else if kind == "sell"@ {
        ev == DexEvent::PumpFunSell(e)
    } else if kind == "buy_exact_sol_in"@ {
        ev == DexEvent::PumpFunBuyExactSolIn(e)
    } else {
        ev == DexEvent::PumpFunTrade(e)
    }
}

/// The trade record inside a trade-kind event.
pub open spec fn trade_payload(ev: DexEvent) -> PumpFunTradeEvent {
    match ev {
        DexEvent::PumpFunBuy(e) => e,
        DexEvent::PumpFunSell(e) => e,
        DexEvent::PumpFunBuyExactSolIn(e) => e,
        DexEvent::PumpFunTrade(e) => e,
        _ => arbitrary(),
    }
}

/// `ev` is the trade event decoded from `d`.
pub open spec fn trade_event_of(ev: DexEvent, d: Seq<u8>, metadata: EventMetadata, is_created_buy: bool) -> bool {
    &&& trade_wrapped(ev, normalized_ix_name(trade_name(d)), trade_payload(ev))
    &&& trade_decoded(trade_payload(ev), d, metadata, is_created_buy)
}

/// `r` is what the trade decoder yields for `d`.
pub open spec fn trade_result(r: Option<DexEvent>, d: Seq<u8>, metadata: EventMetadata, is_created_buy: bool) -> bool {
    &&& r is Some <==> trade_accepted(d)
    &&& r matches Some(ev) ==> trade_event_of(ev, d, metadata, is_created_buy)
}

/// Decodes a trade event body (the bytes after the discriminator). The
/// variant follows the instruction name: buy, sell, buy-exact-SOL-in, or a
/// plain trade for unknown or absent names.
pub fn parse_trade_from_data(data: &[u8], metadata: EventMetadata, is_created_buy: bool) -> (r:
    Option<DexEvent>)
    ensures
        trade_result(r, data@, metadata, is_created_buy),
{
    let len = data.len();
    if len < TRADE_FIXED_LEN {
        return None;
    }
    let (ix_name, name_end): (String, usize) = if len >= TRADE_NAME_OFFSET && len
        - TRADE_NAME_OFFSET >= 4 {
        match read_str_unchecked(data, TRADE_NAME_OFFSET) {
            Some((s, n)) => (s.to_owned(), TRADE_NAME_OFFSET + n),
            None => return None,
        }
    } else {
        (String::new(), TRADE_NAME_OFFSET)
    };
    let start = if name_end <= len {
        name_end
    } else {
        len
    };
    let rest = &data[start..len];
    let ext_start = if rest.len() >= 17 {
        17
    } else {
        rest.len()
    };
    let ext = &rest[ext_start..rest.len()];
    assert(ext@ =~= trade_ext(data@));
    let mut off: usize = 0;
    let extensions = match read_trade_event_extensions(ext, &mut off) {
        Some(t) => t,
        None => return None,
    };
    let (
        buyback_fee_basis_points,
        buyback_fee,
        shareholders,
        quote_mint,
        quote_amount,
        virtual_quote_reserves,
        real_quote_reserves,
        holder_rewards_bps,
        holder_rewards,
    ) = extensions;
    let kind = normalize_pumpfun_ix_name(ix_name.as_str());
    let variant: u8 = if str_eq(kind, "buy") || str_eq(kind, "buy_exact_quote_in") {
        0
    } else if str_eq(kind, "sell") {
        1
    } else if str_eq(kind, "buy_exact_sol_in") {
        2
    } else {
        3
    };
    let cashback_fee_basis_points = load_u64_or_zero(rest, 1);
    let z = Pubkey::default();
    let trade_event = PumpFunTradeEvent {
        metadata,
        mint: load_key(data, 0),
        sol_amount: load_u64(data, 32),
        token_amount: load_u64(data, 40),
        is_buy: data[48] == 1,
        is_created_buy,
        user: load_key(data, 49),
        timestamp: load_i64(data, 81),
        virtual_sol_reserves: load_u64(data, 89),
        virtual_token_reserves: load_u64(data, 97),
        real_sol_reserves: load_u64(data, 105),
        real_token_reserves: load_u64(data, 113),
        fee_recipient: load_key(data, 121),
        fee_basis_points: load_u64(data, 153),
        fee: load_u64(data, 161),
        creator: load_key(data, 169),
        creator_fee_basis_points: load_u64(data, 201),
        creator_fee: load_u64(data, 209),
        track_volume: read_flag(data, 217),
        total_unclaimed_tokens: load_u64_or_zero(data, 218),
        total_claimed_tokens: load_u64_or_zero(data, 226),
        current_sol_volume: load_u64_or_zero(data, 234),
        last_update_timestamp: load_i64_or_zero(data, 242),
        ix_name,
        mayhem_mode: read_flag(rest, 0),
        cashback_fee_basis_points,
        cashback: load_u64_or_zero(rest, 9),
        buyback_fee_basis_points,
        buyback_fee,
        shareholders,
        quote_mint,
        quote_amount,
        virtual_quote_reserves,
        real_quote_reserves,
        holder_rewards_bps,
        holder_rewards,
        is_cashback_coin: cashback_fee_basis_points > 0,
        amount: 0,
        max_sol_cost: 0,
        min_sol_output: 0,
        spendable_sol_in: 0,
        spendable_quote_in: 0,
        min_tokens_out: 0,
        global: z,
        bonding_curve: z,
        associated_bonding_curve: z,
        associated_user: z,
        system_program: z,
        creator_vault: z,
        event_authority: z,
        program: z,
        global_volume_accumulator: z,
        user_volume_accumulator: z,
        fee_config: z,
        fee_program: z,
        token_program: z,
        account: None,
    };
    if variant == 0 {
        Some(DexEvent::PumpFunBuy(trade_event))
    } else if variant == 1 {
        Some(DexEvent::PumpFunSell(trade_event))
    } else if variant == 2 {
        Some(DexEvent::PumpFunBuyExactSolIn(trade_event))
    } else {
        Some(DexEvent::PumpFunTrade(trade_event))
    }
}

/// The trade in `d` is selected as a buy (including exact-quote-in buys).
pub open spec fn buy_selected(d: Seq<u8>) -> bool {
    trade_accepted(d) && (normalized_ix_name(trade_name(d)) == "buy"@ || normalized_ix_name(
        trade_name(d),
    ) == "buy_exact_quote_in"@)
}

/// The trade in `d` is selected as a sell.
pub open spec fn sell_selected(d: Seq<u8>) -> bool {
    trade_accepted(d) && normalized_ix_name(trade_name(d)) == "sell"@
}

/// The trade in `d` is selected as a buy with an exact SOL input.
pub open spec fn buy_exact_sol_in_selected(d: Seq<u8>) -> bool {
    trade_accepted(d) && normalized_ix_name(trade_name(d)) == "buy_exact_sol_in"@
}

/// The four trade-kind names are pairwise distinct.
pub proof fn lemma_trade_kind_names_distinct()
    ensures
        "sell"@ != "buy"@,
        "sell"@ != "buy_exact_quote_in"@,
        "buy_exact_sol_in"@ != "sell"@,
        "buy_exact_sol_in"@ != "buy"@,
        "buy_exact_sol_in"@ != "buy_exact_quote_in"@,
        "buy"@ != "buy_exact_quote_in"@,
{
    reveal_strlit("buy");
    reveal_strlit("buy_exact_quote_in");
    reveal_strlit("sell");
    reveal_strlit("buy_exact_sol_in");
    assert("sell"@.len() == 4);
    assert("buy_exact_sol_in"@.len() == 16);
    assert("buy_exact_quote_in"@.len() == 18);
    assert("buy"@.len() == 3);
}

/// `r` is what a trade-kind selector yields for `d`: an event exactly when
/// the trade is selected (`selected`), and then the decoded trade.
pub open spec fn selected_trade_result(
    r: Option<DexEvent>,
    selected: bool,
    d: Seq<u8>,
    metadata: EventMetadata,
    is_created_buy: bool,
) -> bool {
    &&& r is Some <==> selected
    &&& r matches Some(ev) ==> trade_event_of(ev, d, metadata, is_created_buy)
}

/// Decodes a trade event body and keeps it only when it is a buy.
pub fn parse_buy_from_data(data: &[u8], metadata: EventMetadata, is_created_buy: bool) -> (r:
    Option<DexEvent>)
    ensures
        selected_trade_result(r, buy_selected(data@), data@, metadata, is_created_buy),
{
    let event = match parse_trade_from_data(data, metadata, is_created_buy) {
        Some(e) => e,
        None => return None,
    };
    match &event {
        DexEvent::PumpFunBuy(_) => Some(event),
        _ => None,
    }
}

/// Decodes a trade event body and keeps it only when it is a sell.
pub fn parse_sell_from_data(data: &[u8], metadata: EventMetadata, is_created_buy: bool) -> (r:
    Option<DexEvent>)
    ensures
        selected_trade_result(r, sell_selected(data@), data@, metadata, is_created_buy),
{
    proof {
        lemma_trade_kind_names_distinct();
    }
    let event = match parse_trade_from_data(data, metadata, is_created_buy) {
        Some(e) => e,
        None => return None,
    };
    match &event {
        DexEvent::PumpFunSell(_) => Some(event),
        _ => None,
    }
}

/// Decodes a trade event body and keeps it only when it is a buy with an
/// exact SOL input.
pub fn parse_buy_exact_sol_in_from_data(
    data: &[u8],
    metadata: EventMetadata,
    is_created_buy: bool,
) -> (r: Option<DexEvent>)
    ensures
        selected_trade_result(r, buy_exact_sol_in_selected(data@), data@, metadata, is_created_buy),
{
    proof {
        lemma_trade_kind_names_distinct();
    }
    let event = match parse_trade_from_data(data, metadata, is_created_buy) {
        Some(e) => e,
        None => return None,
    };
    match &event {
        DexEvent::PumpFunBuyExactSolIn(_) => Some(event),
        _ => None,
    }
}

// --- create event --------------------------------------------------

/// Bytes of the create fields that must follow the three strings.
pub const CREATE_FIXED_LEN: usize = 201;

/// The name, symbol and uri strings that open a create event, with the
/// offset just past them.
pub open spec fn create_strings(d: Seq<u8>) -> Option<(Seq<char>, Seq<char>, Seq<char>, int)> {
    match str_at(d, 0) {
        None => None,
        Some((name, n1)) => match str_at(d, n1) {
            None => None,
            Some((symbol, n2)) => match str_at(d, n1 + n2) {
                None => None,
                Some((uri, n3)) => Some((name, symbol, uri, n1 + n2 + n3)),
            },
        },
    }
}

/// Whether a create event body decodes.
pub open spec fn create_accepted(d: Seq<u8>) -> bool {
    &&& create_strings(d) is Some
    &&& d.len() >= create_strings(d).unwrap().3 + CREATE_FIXED_LEN
}

/// `e` holds the create event laid out in `d`.
pub open spec fn create_decoded(e: PumpFunCreateTokenEvent, d: Seq<u8>, metadata: EventMetadata) -> bool {
    let (name, symbol, uri, o) = create_strings(d).unwrap();
    let t = d.subrange(o, d.len() as int);
    &&& e.metadata == metadata
    &&& e.name@ == name
    &&& e.symbol@ == symbol
    &&& e.uri@ == uri
    &&& e.mint@ == key_at(t, 0)
    &&& e.bonding_curve@ == key_at(t, 32)
    &&& e.user@ == key_at(t, 64)
    &&& e.creator@ == key_at(t, 96)
    &&& e.timestamp == i64_at(t, 128)
    &&& e.virtual_token_reserves == u64_at(t, 136)
    &&& e.virtual_sol_reserves == u64_at(t, 144)
    &&& e.real_token_reserves == u64_at(t, 152)
    &&& e.token_total_supply == u64_at(t, 160)
    &&& e.token_program@ == key_at(t, 168)
    &&& e.is_mayhem_mode == flag_at(t, 200)
    &&& e.is_cashback_enabled == flag_at(t, 201)
    &&& e.quote_mint@ == normalized_quote_mint(key_or_zero(t, 202))
    &&& e.virtual_quote_reserves == u64_or_zero(t, 234)
    &&& e.creator_fee_bps == u64_or_zero(t, 242)
    &&& e.is_holder_reward == flag_at(t, 250)
    &&& e.ix_name@ == "create"@
}

/// `r` is what the create decoder yields for `d`.
pub open spec fn create_result(r: Option<DexEvent>, d: Seq<u8>, metadata: EventMetadata) -> bool {
    &&& r is Some <==> create_accepted(d)
    &&& r matches Some(ev) ==> ev matches DexEvent::PumpFunCreate(e) && create_decoded(e, d, metadata)
}

/// Decodes a create event body (the bytes after the discriminator).
pub fn parse_create_from_data(data: &[u8], metadata: EventMetadata) -> (r: Option<DexEvent>)
    ensures
        create_result(r, data@, metadata),
{
    let len = data.len();
    let (name, n1) = match read_str_unchecked(data, 0) {
        Some(x) => x,
        None => return None,
    };
    let (symbol, n2) = match read_str_unchecked(data, n1) {
        Some(x) => x,
        None => return None,
    };
    let (uri, n3) = match read_str_unchecked(data, n1 + n2) {
        Some(x) => x,
        None => return None,
    };
    let o = n1 + n2 + n3;
    if len - o < CREATE_FIXED_LEN {
        return None;
    }
    let t = &data[o..len];
    Some(
        DexEvent::PumpFunCreate(
            PumpFunCreateTokenEvent {
                metadata,
                name: name.to_owned(),
                symbol: symbol.to_owned(),
                uri: uri.to_owned(),
                mint: load_key(t, 0),
                bonding_curve: load_key(t, 32),
                user: load_key(t, 64),
                creator: load_key(t, 96),
                timestamp: load_i64(t, 128),
                virtual_token_reserves: load_u64(t, 136),
                virtual_sol_reserves: load_u64(t, 144),
                real_token_reserves: load_u64(t, 152),
                token_total_supply: load_u64(t, 160),
                token_program: load_key(t, 168),
                is_mayhem_mode: read_flag(t, 200),
                is_cashback_enabled: read_flag(t, 201),
                quote_mint: normalize_pumpfun_quote_mint(load_key_or_zero(t, 202)),
                virtual_quote_reserves: load_u64_or_zero(t, 234),
                creator_fee_bps: load_u64_or_zero(t, 242),
                is_holder_reward: read_flag(t, 250),
                ix_name: "create".to_owned(),
            },
        ),
    )
}

// --- migrate events ------------------------------------------------

/// Bytes of a migrate event body.
pub const MIGRATE_LEN: usize = 160;

/// `e` holds the migrate event laid out in `d`.
pub open spec fn migrate_decoded(e: PumpFunMigrateEvent, d: Seq<u8>, metadata: EventMetadata) -> bool {
    &&& e.metadata == metadata
    &&& e.user@ == key_at(d, 0)
    &&& e.mint@ == key_at(d, 32)
    &&& e.mint_amount == u64_at(d, 64)
    &&& e.sol_amount == u64_at(d, 72)
    &&& e.pool_migration_fee == u64_at(d, 80)
    &&& e.bonding_curve@ == key_at(d, 88)
    &&& e.timestamp == i64_at(d, 120)
    &&& e.pool@ == key_at(d, 128)
}

/// `r` is what the migrate decoder yields for `d`.
pub open spec fn migrate_result(r: Option<DexEvent>, d: Seq<u8>, metadata: EventMetadata) -> bool {
    &&& r is Some <==> d.len() >= MIGRATE_LEN
    &&& r matches Some(ev) ==> ev matches DexEvent::PumpFunMigrate(e) && migrate_decoded(e, d, metadata)
}

/// Decodes a migrate event body (the bytes after the discriminator).
pub fn parse_migrate_from_data(data: &[u8], metadata: EventMetadata) -> (r: Option<DexEvent>)
    ensures
        migrate_result(r, data@, metadata),
{
    if data.len() < MIGRATE_LEN {
        return None;
    }
    Some(
        DexEvent::PumpFunMigrate(
            PumpFunMigrateEvent {
                metadata,
                user: load_key(data, 0),
                mint: load_key(data, 32),
                mint_amount: load_u64(data, 64),
                sol_amount: load_u64(data, 72),
                pool_migration_fee: load_u64(data, 80),
                bonding_curve: load_key(data, 88),
                timestamp: load_i64(data, 120),
                pool: load_key(data, 128),
            },
        ),
    )
}

/// Bytes of a bonding-curve creator migration event body.
pub const MIGRATE_CREATOR_LEN: usize = 168;

/// `e` holds the creator migration event laid out in `d`.
pub open spec fn migrate_creator_decoded(
    e: PumpFunMigrateBondingCurveCreatorEvent,
    d: Seq<u8>,
    metadata: EventMetadata,
) -> bool {
    &&& e.metadata == metadata
    &&& e.timestamp == i64_at(d, 0)
    &&& e.mint@ == key_at(d, 8)
    &&& e.bonding_curve@ == key_at(d, 40)
    &&& e.sharing_config@ == key_at(d, 72)
    &&& e.old_creator@ == key_at(d, 104)
    &&& e.new_creator@ == key_at(d, 136)
}

/// `r` is what the creator migration decoder yields for `d`.
pub open spec fn migrate_creator_result(r: Option<DexEvent>, d: Seq<u8>, metadata: EventMetadata) -> bool {
    &&& r is Some <==> d.len() >= MIGRATE_CREATOR_LEN
    &&& r matches Some(ev) ==> ev matches DexEvent::PumpFunMigrateBondingCurveCreator(e)
        && migrate_creator_decoded(e, d, metadata)
}

/// Decodes a bonding-curve creator migration event body.
pub fn parse_migrate_bonding_curve_creator_from_data(data: &[u8], metadata: EventMetadata) -> (r:
    Option<DexEvent>)
    ensures
        migrate_creator_result(r, data@, metadata),
{
    if data.len() < MIGRATE_CREATOR_LEN {
        return None;
    }
    Some(
        DexEvent::PumpFunMigrateBondingCurveCreator(
            PumpFunMigrateBondingCurveCreatorEvent {
                metadata,
                timestamp: load_i64(data, 0),
                mint: load_key(data, 8),
                bonding_curve: load_key(data, 40),
                sharing_config: load_key(data, 72),
                old_creator: load_key(data, 104),
                new_creator: load_key(data, 136),
            },
        ),
    )
}

// --- log_decode ----------------------------------------------------

/// Length of the `Program data: ` tag; the payload follows it.
pub const PROGRAM_DATA_TAG_LEN: usize = 14;

/// The UTF-8 bytes `h` contain the tag.
pub open spec fn has_tag(h: Seq<u8>) -> bool {
    exists|i: int| first_occurrence(h, PROGRAM_DATA_TAG@, i)
}

/// Where the tag first occurs in `h`.
pub open spec fn tag_position(h: Seq<u8>) -> int {
    choose|i: int| first_occurrence(h, PROGRAM_DATA_TAG@, i)
}

/// The text after the tag at `i`, trimmed of white space, as UTF-8 bytes.
pub open spec fn payload_text(h: Seq<u8>, i: int) -> Seq<u8> {
    encode_utf8(trim_ws(decode_utf8(h.subrange(i + PROGRAM_DATA_TAG_LEN, h.len() as int))))
}

/// The trimmed payload text of the first `Program data: ` in `log`.
pub open spec fn log_payload_text(log: Seq<char>) -> Option<Seq<u8>> {
    let h = encode_utf8(log);
    if has_tag(h) {
        Some(payload_text(h, tag_position(h)))
    } else {
        None
    }
}

/// The bytes that the first `Program data: ` payload of `log` decodes to.
pub open spec fn program_data(log: Seq<char>) -> Option<Seq<u8>> {
    match log_payload_text(log) {
        None => None,
        Some(p) => if p.len() <= MAX_PAYLOAD_TEXT {
            base64_standard(p)
        } else {
            None
        },
    }
}

/// Finds the first `Program data: ` tag of `log` and returns the trimmed
/// payload text after it, as a string slice of `log`.
fn payload_of(log: &str) -> (r: Option<&str>)
    ensures
        r is Some <==> log_payload_text(log@) is Some,
        r matches Some(t) ==> log_payload_text(log@) == Some(encode_utf8(t@)),
{
    let h = log.as_bytes();
    proof { lemma_len_fits_usize(h); }
    let pos = match find_first(h, PROGRAM_DATA_TAG.as_slice()) {
        Some(p) => p,
        None => {
            assert(!has_tag(h@));
            return None;
        },
    };
    proof {
        let ghost hs = h@;
        encode_utf8_valid_utf8(log@);
        assert(hs.subrange(pos as int, pos + 14) == PROGRAM_DATA_TAG@);
        assert(forall|k: int| pos <= k < pos + 14 ==> hs[k] == #[trigger] PROGRAM_DATA_TAG@[k - pos]);
        lemma_ascii_is_boundary(hs, pos as int);
        lemma_boundary_after_ascii_run(hs, pos as int, 14);
        lemma_first_occurrence_unique(hs, PROGRAM_DATA_TAG@, pos as int, tag_position(hs));
    }
    let (_, tail) = log.split_at(pos + PROGRAM_DATA_TAG_LEN);
    proof {
        encode_utf8_decode_utf8(tail@);
    }
    let trimmed = trim_white_space(tail);
    Some(trimmed)
}

/// Decodes the base64 payload of the first `Program data: ` tag in `log`
/// into `buf` and returns the decoded bytes (at most 2025 of them); `None`
/// when there is no tag, the trimmed payload is longer than 2700 characters,
/// or it is not valid base64.
pub fn extract_program_data_zero_copy<'a>(log: &'a str, buf: &'a mut [u8; 2048]) -> (r: Option<
    &'a [u8],
>)
    ensures
        r is Some <==> program_data(log@) is Some,
        r matches Some(v) ==> v@.len() <= 2025,
        r matches Some(v) ==> program_data(log@) == Some(v@) && final(buf)@.subrange(
            0,
            v@.len() as int,
        ) == v@,
{
    let trimmed = match payload_of(log) {
        Some(t) => t,
        None => return None,
    };
    let text = trimmed.as_bytes();
    if text.len() > MAX_PAYLOAD_TEXT {
        return None;
    }
    let m = match decode_base64_into(text, buf) {
        Some(m) => m,
        None => return None,
    };
    let decoded: &'a [u8; 2048] = buf;
    Some(&decoded.as_slice()[0..m])
}

/// The first eight bytes of `v`, zero-filled past its end.
pub open spec fn first_eight(v: Seq<u8>) -> Seq<u8> {
    Seq::new(8, |k: int| if k < v.len() { v[k] } else { 0u8 })
}

/// The discriminator of the first `Program data: ` payload of `log`, decoded
/// from its first 16 base64 characters alone.
pub open spec fn log_discriminator(log: Seq<char>) -> Option<u64> {
    match log_payload_text(log) {
        None => None,
        Some(p) => if p.len() < 16 {
            None
        } else {
            match base64_standard(p.subrange(0, 16)) {
                None => None,
                Some(v) => Some(spec_u64_from_le_bytes(first_eight(v))),
            }
        },
    }
}

/// Reads the event discriminator of a `Program data: ` line by decoding
/// only the first 16 base64 characters of its payload.
pub fn extract_discriminator_simd(log: &str) -> (r: Option<u64>)
    ensures
        r == log_discriminator(log@),
{
    let trimmed = match payload_of(log) {
        Some(t) => t,
        None => return None,
    };
    let text = trimmed.as_bytes();
    if text.len() < 16 {
        return None;
    }
    let mut out = [0u8; 2048];
    let m = match decode_base64_into(&text[0..16], &mut out) {
        Some(m) => m,
        None => return None,
    };
    let decoded = &out.as_slice()[0..m];
    let mut buf = [0u8; 8];
    let mut k: usize = 0;
    while k < 8
        invariant
            0 <= k <= 8,
            buf@.len() == 8,
            forall|j: int| 0 <= j < k ==> buf@[j] == first_eight(decoded@)[j],
            forall|j: int| k <= j < 8 ==> buf@[j] == 0,
        decreases 8 - k,
    {
        if k < decoded.len() {
            buf[k] = decoded[k];
        }
        k = k + 1;
    }
    assert(buf@ =~= first_eight(decoded@));
    Some(u64_from_le_bytes(buf.as_slice()))
}

/// The discriminator of a log line, as `extract_discriminator_simd` reads it.
pub fn get_event_type_fast(log: &str) -> (r: Option<u64>)
    ensures
        r == log_discriminator(log@),
{
    extract_discriminator_simd(log)
}

/// Whether the log line carries the given event discriminator.
pub fn is_event_type(log: &str, discriminator: u64) -> (r: bool)
    ensures
        r == (log_discriminator(log@) == Some(discriminator)),
{
    match extract_discriminator_simd(log) {
        Some(d) => d == discriminator,
        None => false,
    }
}

// --- main parser ---------------------------------------------------

/// The metadata attached to an event decoded from a log line.
pub open spec fn log_metadata(
    signature: Signature,
    slot: u64,
    tx_index: u64,
    block_time_us: Option<i64>,
    grpc_recv_us: i64,
) -> EventMetadata {
    EventMetadata {
        signature,
        slot,
        tx_index,
        block_time_us: match block_time_us {
            Some(t) => t,
            None => 0,
        },
        grpc_recv_us,
        recent_blockhash: None,
    }
}

fn make_metadata(
    signature: Signature,
    slot: u64,
    tx_index: u64,
    block_time_us: Option<i64>,
    grpc_recv_us: i64,
) -> (r: EventMetadata)
    ensures
        r == log_metadata(signature, slot, tx_index, block_time_us, grpc_recv_us),
{
    EventMetadata {
        signature,
        slot,
        tx_index,
        block_time_us: match block_time_us {
            Some(t) => t,
            None => 0,
        },
        grpc_recv_us,
        recent_blockhash: None,
    }
}

/// `r` is what a decoded `Program data:` payload `pd` yields: the event that
/// the body after its 8-byte discriminator decodes to under that
/// discriminator, `None` for short payloads and other discriminators.
pub open spec fn payload_event_result(
    r: Option<DexEvent>,
    pd: Seq<u8>,
    metadata: EventMetadata,
    is_created_buy: bool,
) -> bool {
    if pd.len() < 8 {
        r is None
    } else {
        let d = pd.subrange(8, pd.len() as int);
        let disc = u64_at(pd, 0);
        if disc == CREATE_EVENT {
            create_result(r, d, metadata)
        } else if disc == TRADE_EVENT {
            trade_result(r, d, metadata, is_created_buy)
        } else if disc == MIGRATE_EVENT {
            migrate_result(r, d, metadata)
        } else if disc == MIGRATE_BONDING_CURVE_CREATOR_EVENT {
            migrate_creator_result(r, d, metadata)
        } else {
            r is None
        }
    }
}

/// `r` is what the log decoder yields for `log`: what the first
/// `Program data:` payload yields, `None` when there is none.
pub open spec fn log_event_result(
    r: Option<DexEvent>,
    log: Seq<char>,
    metadata: EventMetadata,
    is_created_buy: bool,
) -> bool {
    match program_data(log) {
        None => r is None,
        Some(pd) => payload_event_result(r, pd, metadata, is_created_buy),
    }
}

/// Decodes a Pump.fun `Program data:` log line into its event.
pub fn parse_log(
    log: &str,
    signature: Signature,
    slot: u64,
    tx_index: u64,
    block_time_us: Option<i64>,
    grpc_recv_us: i64,
    is_created_buy: bool,
) -> (r: Option<DexEvent>)
    ensures
        log_event_result(
            r,
            log@,
            log_metadata(signature, slot, tx_index, block_time_us, grpc_recv_us),
            is_created_buy,
        ),
{
    let mut buf = [0u8; 2048];
    let pd = match extract_program_data_zero_copy(log, &mut buf) {
        Some(v) => v,
        None => return None,
    };
    parse_program_data(pd, signature, slot, tx_index, block_time_us, grpc_recv_us, is_created_buy)
}

/// Decodes an already extracted `Program data:` payload (discriminator and
/// body) under log-line metadata, as `parse_log` does after extraction.
pub fn parse_program_data(
    pd: &[u8],
    signature: Signature,
    slot: u64,
    tx_index: u64,
    block_time_us: Option<i64>,
    grpc_recv_us: i64,
    is_created_buy: bool,
) -> (r: Option<DexEvent>)
    ensures
        payload_event_result(
            r,
            pd@,
            log_metadata(signature, slot, tx_index, block_time_us, grpc_recv_us),
            is_created_buy,
        ),
{
    if pd.len() < 8 {
        return None;
    }
    let discriminator = read_u64_unchecked(pd, 0);
    let data = &pd[8..pd.len()];
    if discriminator == CREATE_EVENT {
        parse_create_event_optimized(data, signature, slot, tx_index, block_time_us, grpc_recv_us)
    } else if discriminator == TRADE_EVENT {
        parse_trade_event_optimized(
            data,
            signature,
            slot,
            tx_index,
            block_time_us,
            grpc_recv_us,
            is_created_buy,
        )
    } else if discriminator == MIGRATE_EVENT {
        parse_migrate_event_optimized(data, signature, slot, tx_index, block_time_us, grpc_recv_us)
    } else if discriminator == MIGRATE_BONDING_CURVE_CREATOR_EVENT {
        parse_migrate_bonding_curve_creator_event_optimized(
            data,
            signature,
            slot,
            tx_index,
            block_time_us,
            grpc_recv_us,
        )
    } else {
        None
    }
}

/// Decodes a create event body under log-line metadata.
fn parse_create_event_optimized(
    data: &[u8],
    signature: Signature,
    slot: u64,
    tx_index: u64,
    block_time_us: Option<i64>,
    grpc_recv_us: i64,
) -> (r: Option<DexEvent>)
    ensures
        create_result(
            r,
            data@,
            log_metadata(signature, slot, tx_index, block_time_us, grpc_recv_us),
        ),
{
    let metadata = make_metadata(signature, slot, tx_index, block_time_us, grpc_recv_us);
    parse_create_from_data(data, metadata)
}

/// Decodes a trade event body under log-line metadata.
fn parse_trade_event_optimized(
    data: &[u8],
    signature: Signature,
    slot: u64,
    tx_index: u64,
    block_time_us: Option<i64>,
    grpc_recv_us: i64,
    is_created_buy: bool,
) -> (r: Option<DexEvent>)
    ensures
        trade_result(
            r,
            data@,
            log_metadata(signature, slot, tx_index, block_time_us, grpc_recv_us),
            is_created_buy,
        ),
{
    let metadata = make_metadata(signature, slot, tx_index, block_time_us, grpc_recv_us);
    parse_trade_from_data(data, metadata, is_created_buy)
}

/// Decodes a migrate event body under log-line metadata.
fn parse_migrate_event_optimized(
    data: &[u8],
    signature: Signature,
    slot: u64,
    tx_index: u64,
    block_time_us: Option<i64>,
    grpc_recv_us: i64,
) -> (r: Option<DexEvent>)
    ensures
        migrate_result(
            r,
            data@,
            log_metadata(signature, slot, tx_index, block_time_us, grpc_recv_us),
        ),
{
    let metadata = make_metadata(signature, slot, tx_index, block_time_us, grpc_recv_us);
    parse_migrate_from_data(data, metadata)
}

/// Decodes a creator migration event body under log-line metadata.
fn parse_migrate_bonding_curve_creator_event_optimized(
    data: &[u8],
    signature: Signature,
    slot: u64,
    tx_index: u64,
    block_time_us: Option<i64>,
    grpc_recv_us: i64,
) -> (r: Option<DexEvent>)
    ensures
        migrate_creator_result(
            r,
            data@,
            log_metadata(signature, slot, tx_index, block_time_us, grpc_recv_us),
        ),
{
    let metadata = make_metadata(signature, slot, tx_index, block_time_us, grpc_recv_us);
    parse_migrate_bonding_curve_creator_from_data(data, metadata)
}

// --- cursor readers ------------------------------------------------

/// Reads the `i64` at `*o` and advances past it; leaves `*o` unchanged when it does not fit.
#[allow(dead_code)]
fn read_i64_at(data: &[u8], o: &mut usize) -> (r: Option<i64>)
    requires
        *old(o) + 8 <= usize::MAX,
    ensures
        r is Some <==> fits(data@, *old(o) as int, 8),
        r matches Some(v) ==> v == i64_at(data@, *old(o) as int) && *final(o) == *old(o) + 8,
        r is None ==> *final(o) == *old(o),
{
    if data.len() < *o + 8 {
        return None;
    }
    let v = load_i64(data, *o);
    *o = *o + 8;
    Some(v)
}

/// Reads the `u16` at `*o` and advances past it; leaves `*o` unchanged when it does not fit.
#[allow(dead_code)]
fn read_u16_at(data: &[u8], o: &mut usize) -> (r: Option<u16>)
    requires
        *old(o) + 2 <= usize::MAX,
    ensures
        r is Some <==> fits(data@, *old(o) as int, 2),
        r matches Some(v) ==> v == u16_at(data@, *old(o) as int) && *final(o) == *old(o) + 2,
        r is None ==> *final(o) == *old(o),
{
    if data.len() < *o + 2 {
        return None;
    }
    let v = load_u16(data, *o);
    *o = *o + 2;
    Some(v)
}

/// Reads the `u32` at `*o` and advances past it; leaves `*o` unchanged when it does not fit.
#[allow(dead_code)]
fn read_u32_at(data: &[u8], o: &mut usize) -> (r: Option<u32>)
    requires
        *old(o) + 4 <= usize::MAX,
    ensures
        r is Some <==> fits(data@, *old(o) as int, 4),
        r matches Some(v) ==> v == u32_at(data@, *old(o) as int) && *final(o) == *old(o) + 4,
        r is None ==> *final(o) == *old(o),
{
    if data.len() < *o + 4 {
        return None;
    }
    let v = load_u32(data, *o);
    *o = *o + 4;
    Some(v)
}

/// Reads the key at `*o` and advances past it; leaves `*o` unchanged when it does not fit.
#[allow(dead_code)]
fn read_pubkey_at(data: &[u8], o: &mut usize) -> (r: Option<Pubkey>)
    requires
        *old(o) + 32 <= usize::MAX,
    ensures
        r is Some <==> fits(data@, *old(o) as int, 32),
        r matches Some(k) ==> k@ == key_at(data@, *old(o) as int) && *final(o) == *old(o) + 32,
        r is None ==> *final(o) == *old(o),
{
    if data.len() < *o + 32 {
        return None;
    }
    let k = load_key(data, *o);
    *o = *o + 32;
    Some(k)
}

} // verus!
