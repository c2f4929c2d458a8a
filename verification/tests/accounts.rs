use sol_parser_sdk::accounts::nonce::parse_nonce_account;
use sol_parser_sdk::accounts::parse_account_unified;
use sol_parser_sdk::accounts::program_ids::{PUMPFUN_PROGRAM_ID, PUMPSWAP_PROGRAM_ID};
use sol_parser_sdk::accounts::pumpswap::{
    discriminators, parse_pool, POOL_BOOST_SIZE, POOL_CREATOR_FEE_SIZE, POOL_LEGACY_SIZE, POOL_SIZE,
};
use sol_parser_sdk::events::{AccountData, DexEvent, EventMetadata, PumpSwapPool};
use sol_parser_sdk::filter::{EventType, EventTypeFilter};
use sol_parser_sdk::pubkey::{Pubkey, Signature};

fn unique_key(seed: u8) -> Pubkey {
    let mut bytes = [0xa5u8; 32];
    bytes[0] = seed;
    bytes[31] = seed.wrapping_mul(7);
    Pubkey::new_from_array(bytes)
}

fn metadata() -> EventMetadata {
    EventMetadata {
        signature: Signature::default(),
        slot: 1,
        tx_index: 0,
        block_time_us: 0,
        grpc_recv_us: 0,
        recent_blockhash: None,
    }
}

fn push_pk(out: &mut Vec<u8>, seed: u8) -> Pubkey {
    let key = Pubkey::new_from_array([seed; 32]);
    out.extend_from_slice(&key.0);
    key
}

#[test]
fn parse_pumpfun_bonding_curve_reads_quote_fields() {
    let mut data = vec![23, 183, 248, 55, 96, 216, 172, 96];
    data.extend_from_slice(&100u64.to_le_bytes());
    data.extend_from_slice(&4_292_000_000u64.to_le_bytes());
    data.extend_from_slice(&200u64.to_le_bytes());
    data.extend_from_slice(&3_000_000_000u64.to_le_bytes());
    data.extend_from_slice(&1_000u64.to_le_bytes());
    data.push(1);
    let creator = push_pk(&mut data, 7);
    data.push(1);
    data.push(0);
    let quote_mint = push_pk(&mut data, 8);
    data.extend_from_slice(&250u64.to_le_bytes());
    data.push(1);
    data.push(1);
    let account = AccountData {
        pubkey: unique_key(1),
        executable: false,
        lamports: 0,
        owner: Pubkey::new_from_array(PUMPFUN_PROGRAM_ID),
        rent_epoch: 0,
        data,
    };
    let filter = EventTypeFilter::include_only(vec![EventType::AccountPumpFunBondingCurve]);

    let ev = parse_account_unified(&account, metadata(), Some(&filter)).expect("event");

    match ev {
        DexEvent::PumpFunBondingCurveAccount(e) => {
            assert_eq!(e.bonding_curve.virtual_quote_reserves, 4_292_000_000);
            assert_eq!(e.bonding_curve.real_quote_reserves, 3_000_000_000);
            assert_eq!(e.bonding_curve.creator, creator);
            assert_eq!(e.bonding_curve.quote_mint, quote_mint);
            assert!(e.bonding_curve.complete);
            assert!(e.bonding_curve.is_mayhem_mode);
            assert!(!e.bonding_curve.is_cashback_coin);
            assert_eq!(e.bonding_curve.creator_fee_bps, 250);
            assert!(e.bonding_curve.can_edit_creator_fee);
            assert!(e.bonding_curve.is_holder_reward);
        }
        other => panic!("expected bonding curve account, got {other:?}"),
    }

    for body_len in 108..115 {
        let mut partial = account.clone();
        partial.data.truncate(8 + body_len);
        assert!(parse_account_unified(&partial, metadata(), Some(&filter)).is_none());
    }

    let mut creator_fee_layout = account.clone();
    creator_fee_layout.data.truncate(8 + 116);
    assert!(parse_account_unified(&creator_fee_layout, metadata(), Some(&filter)).is_some());
}

#[test]
fn parse_unified_known_dex_owner_does_not_fall_through_to_token_parser() {
    let mut data = vec![0u8; 82];
    data[36..44].copy_from_slice(&1_000_000u64.to_le_bytes());
    data[44] = 6;
    let account = AccountData {
        pubkey: unique_key(2),
        executable: false,
        lamports: 0,
        owner: Pubkey::new_from_array(PUMPFUN_PROGRAM_ID),
        rent_epoch: 0,
        data,
    };

    assert!(parse_account_unified(&account, metadata(), None).is_none());
}

fn pool_account(virtual_quote_reserves: Option<i128>, allocated_len: usize) -> AccountData {
    let mut data = Vec::with_capacity(allocated_len);
    data.extend_from_slice(&discriminators::POOL_ACCOUNT);
    data.push(7); // pool_bump
    data.extend_from_slice(&42u16.to_le_bytes()); // index
    for seed in 1..=6 {
        let key = Pubkey::new_from_array([seed; 32]);
        data.extend_from_slice(&key.0);
    }
    data.extend_from_slice(&123456789u64.to_le_bytes()); // lp_supply
    let coin_creator = Pubkey::new_from_array([7; 32]);
    data.extend_from_slice(&coin_creator.0);
    data.push(1); // is_mayhem_mode
    data.push(1); // is_cashback_coin
    if let Some(value) = virtual_quote_reserves {
        data.extend_from_slice(&value.to_le_bytes());
    } else {
        data.extend_from_slice(&[0u8; 7]); // legacy reserved tail
    }
    data.resize(allocated_len, 0);

    AccountData {
        pubkey: unique_key(3),
        owner: unique_key(4),
        data,
        executable: false,
        lamports: 1,
        rent_epoch: 0,
    }
}

fn parsed_pool(account: &AccountData) -> PumpSwapPool {
    let event = parse_pool(account, EventMetadata::default()).expect("pool account should parse");
    let DexEvent::PumpSwapPoolAccount(event) = event else {
        panic!("expected PumpSwapPoolAccount");
    };
    event.pool
}

#[test]
fn parse_boost_261_byte_pool_reads_virtual_reserves() {
    let account = pool_account(Some(-987_654_321), 8 + POOL_BOOST_SIZE);
    let pool = parsed_pool(&account);

    assert_eq!(account.data.len(), 261);
    assert_eq!(pool.pool_bump, 7);
    assert_eq!(pool.index, 42);
    assert_eq!(pool.creator, Pubkey::new_from_array([1; 32]));
    assert_eq!(pool.lp_supply, 123456789);
    assert!(pool.is_mayhem_mode);
    assert!(pool.is_cashback_coin);
    assert_eq!(pool.virtual_quote_reserves, -987_654_321);
    assert_eq!(pool.creator_fee_bps, 0);
    assert!(!pool.can_edit_creator_fee);
    assert!(!pool.is_holder_reward);
}

#[test]
fn parse_current_271_byte_pool_reads_creator_fee_fields() {
    let mut account = pool_account(Some(-987_654_321), 8 + POOL_SIZE);
    account.data[261..269].copy_from_slice(&250u64.to_le_bytes());
    account.data[269] = 1;
    account.data[270] = 1;
    let pool = parsed_pool(&account);

    assert_eq!(account.data.len(), 271);
    assert_eq!(pool.virtual_quote_reserves, -987_654_321);
    assert_eq!(pool.creator_fee_bps, 250);
    assert!(pool.can_edit_creator_fee);
    assert!(pool.is_holder_reward);
}

#[test]
fn parse_creator_fee_270_byte_pool_defaults_holder_reward() {
    let mut account = pool_account(Some(-987_654_321), 8 + POOL_CREATOR_FEE_SIZE);
    account.data[261..269].copy_from_slice(&250u64.to_le_bytes());
    account.data[269] = 1;
    let pool = parsed_pool(&account);

    assert_eq!(pool.creator_fee_bps, 250);
    assert!(pool.can_edit_creator_fee);
    assert!(!pool.is_holder_reward);
}

#[test]
fn parse_300_byte_pool_reads_virtual_reserves() {
    let account = pool_account(Some(987_654_321), 300);
    let pool = parsed_pool(&account);

    assert_eq!(pool.virtual_quote_reserves, 987_654_321);
}

#[test]
fn parse_legacy_252_byte_pool_defaults_virtual_reserves() {
    let account = pool_account(None, 8 + POOL_LEGACY_SIZE);
    let pool = parsed_pool(&account);

    assert_eq!(account.data.len(), 252);
    assert_eq!(pool.virtual_quote_reserves, 0);
}

#[test]
fn parse_pool_rejects_partial_current_layout() {
    for body_len in (245..253).chain(254..261) {
        let account = pool_account(Some(987_654_321), 8 + body_len);
        assert!(parse_pool(&account, EventMetadata::default()).is_none());
    }
}

#[test]
fn nonce_dispatch_requires_system_owned_initialized_state() {
    let mut a = AccountData {
        pubkey: unique_key(5),
        owner: Pubkey::default(),
        executable: false,
        lamports: 1,
        rent_epoch: 0,
        data: vec![0; 80],
    };
    a.data[..8].copy_from_slice(&[1, 0, 0, 0, 1, 0, 0, 0]);
    assert!(matches!(
        parse_account_unified(&a, EventMetadata::default(), None),
        Some(DexEvent::NonceAccount(_))
    ));
    for mutation in 0..5 {
        let mut bad = a.clone();
        match mutation {
            0 => bad.owner = unique_key(6),
            1 => bad.data[4] = 0,
            2 => bad.data[0] = 0,
            3 => bad.data.push(0),
            _ => bad.executable = true,
        };
        assert!(parse_nonce_account(&bad, EventMetadata::default()).is_none());
        assert!(!matches!(
            parse_account_unified(&bad, EventMetadata::default(), None),
            Some(DexEvent::NonceAccount(_))
        ));
    }
}

#[test]
fn pumpswap_owner_routes_pool_accounts() {
    let mut account = pool_account(Some(5), 8 + POOL_SIZE);
    account.owner = Pubkey::new_from_array(PUMPSWAP_PROGRAM_ID);
    assert!(matches!(
        parse_account_unified(&account, metadata(), None),
        Some(DexEvent::PumpSwapPoolAccount(_))
    ));
    let pool_only = EventTypeFilter::include_only(vec![EventType::AccountPumpSwapPool]);
    assert!(parse_account_unified(&account, metadata(), Some(&pool_only)).is_some());
    let config_only = EventTypeFilter::include_only(vec![EventType::AccountPumpSwapGlobalConfig]);
    assert!(parse_account_unified(&account, metadata(), Some(&config_only)).is_none());
    let trades_only = EventTypeFilter::include_only(vec![EventType::PumpFunTrade]);
    assert!(parse_account_unified(&account, metadata(), Some(&trades_only)).is_none());
    let exclude_pool = EventTypeFilter::exclude_types(vec![EventType::AccountPumpSwapPool]);
    assert!(parse_account_unified(&account, metadata(), Some(&exclude_pool)).is_none());
    account.owner = unique_key(9);
    assert!(parse_account_unified(&account, metadata(), None).is_none());
}

#[test]
fn unified_decoder_accepts_only_known_layout_lengths() {
    let mut curve = vec![23, 183, 248, 55, 96, 216, 172, 96];
    curve.resize(125, 0x11);
    let mut pool = discriminators::POOL_ACCOUNT.to_vec();
    pool.resize(271, 0x11);
    let cases = [
        (curve, PUMPFUN_PROGRAM_ID, vec![49usize, 81, 82, 83, 115, 123, 124], 125usize),
        (pool, PUMPSWAP_PROGRAM_ID, vec![211usize, 243, 244, 245, 261, 269, 270], 271usize),
    ];
    for (full, owner, valid, current) in cases {
        let mut account = AccountData {
            pubkey: unique_key(9),
            executable: false,
            lamports: 1,
            owner: Pubkey::new_from_array(owner),
            rent_epoch: 0,
            data: full.clone(),
        };
        assert!(parse_account_unified(&account, EventMetadata::default(), None).is_some());
        for len in 8..current {
            account.data = full[..len].to_vec();
            let parsed = parse_account_unified(&account, EventMetadata::default(), None);
            assert_eq!(parsed.is_some(), valid.contains(&len), "length {len}");
        }
        account.data = full;
        account.owner = unique_key(10);
        assert!(parse_account_unified(&account, EventMetadata::default(), None).is_none());
    }
}

#[test]
fn filter_keeps_the_unfiltered_event() {
    let mut account = pool_account(Some(5), 8 + POOL_SIZE);
    account.owner = Pubkey::new_from_array(PUMPSWAP_PROGRAM_ID);
    let unfiltered = parse_account_unified(&account, metadata(), None);
    let pool_only = EventTypeFilter::include_only(vec![EventType::AccountPumpSwapPool]);
    let filtered = parse_account_unified(&account, metadata(), Some(&pool_only));
    assert!(filtered.is_some());
    assert_eq!(format!("{filtered:?}"), format!("{unfiltered:?}"));
}
