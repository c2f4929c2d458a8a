use sol_parser_sdk::accounts::program_ids::NATIVE_SOL_MINT;
use sol_parser_sdk::events::{DexEvent, EventMetadata};
use sol_parser_sdk::logs::pump::{
    extract_discriminator_simd, extract_program_data_zero_copy, get_event_type_fast,
    is_event_type, normalize_pumpfun_ix_name, normalize_pumpfun_quote_mint,
    parse_buy_exact_sol_in_from_data, parse_buy_from_data, parse_create_from_data, parse_log,
    parse_migrate_bonding_curve_creator_from_data, parse_migrate_from_data, parse_sell_from_data,
    parse_program_data, parse_trade_from_data, read_str_unchecked, CREATE_EVENT, MIGRATE_BONDING_CURVE_CREATOR_EVENT,
    MIGRATE_EVENT, TRADE_EVENT,
};
use sol_parser_sdk::pubkey::{Pubkey, Signature};

fn key(seed: u8) -> Pubkey {
    Pubkey::new_from_array([seed; 32])
}

fn push_str(out: &mut Vec<u8>, s: &str) {
    out.extend_from_slice(&(s.len() as u32).to_le_bytes());
    out.extend_from_slice(s.as_bytes());
}

/// A trade body: the fixed fields, the volume fields, then an optional name and `tail`.
fn trade_body(name: Option<&str>, tail: &[u8]) -> Vec<u8> {
    let mut d = Vec::new();
    d.extend_from_slice(&key(1).0);
    d.extend_from_slice(&1000u64.to_le_bytes());
    d.extend_from_slice(&2000u64.to_le_bytes());
    d.push(1);
    d.extend_from_slice(&key(2).0);
    d.extend_from_slice(&1_700_000_000i64.to_le_bytes());
    for v in [3u64, 4, 5, 6] {
        d.extend_from_slice(&v.to_le_bytes());
    }
    d.extend_from_slice(&key(3).0);
    d.extend_from_slice(&95u64.to_le_bytes());
    d.extend_from_slice(&7u64.to_le_bytes());
    d.extend_from_slice(&key(4).0);
    d.extend_from_slice(&30u64.to_le_bytes());
    d.extend_from_slice(&8u64.to_le_bytes());
    assert_eq!(d.len(), 217);
    d.push(1);
    for v in [9u64, 10, 11] {
        d.extend_from_slice(&v.to_le_bytes());
    }
    d.extend_from_slice(&(-12i64).to_le_bytes());
    assert_eq!(d.len(), 250);
    if let Some(n) = name {
        push_str(&mut d, n);
    }
    d.extend_from_slice(tail);
    d
}

fn trade_of(ev: &DexEvent) -> &sol_parser_sdk::events::PumpFunTradeEvent {
    match ev {
        DexEvent::PumpFunBuy(e)
        | DexEvent::PumpFunSell(e)
        | DexEvent::PumpFunBuyExactSolIn(e)
        | DexEvent::PumpFunTrade(e) => e,
        other => panic!("not a trade: {other:?}"),
    }
}

#[test]
fn trade_fixed_fields_and_volume_fields_are_read() {
    let body = trade_body(Some("buy"), &[]);
    let ev = parse_trade_from_data(&body, EventMetadata::default(), true).expect("trade");
    assert!(matches!(ev, DexEvent::PumpFunBuy(_)));
    let t = trade_of(&ev);
    assert_eq!(t.mint, key(1));
    assert_eq!(t.sol_amount, 1000);
    assert_eq!(t.token_amount, 2000);
    assert!(t.is_buy);
    assert!(t.is_created_buy);
    assert_eq!(t.user, key(2));
    assert_eq!(t.timestamp, 1_700_000_000);
    assert_eq!(t.virtual_sol_reserves, 3);
    assert_eq!(t.virtual_token_reserves, 4);
    assert_eq!(t.real_sol_reserves, 5);
    assert_eq!(t.real_token_reserves, 6);
    assert_eq!(t.fee_recipient, key(3));
    assert_eq!(t.fee_basis_points, 95);
    assert_eq!(t.fee, 7);
    assert_eq!(t.creator, key(4));
    assert_eq!(t.creator_fee_basis_points, 30);
    assert_eq!(t.creator_fee, 8);
    assert!(t.track_volume);
    assert_eq!(t.total_unclaimed_tokens, 9);
    assert_eq!(t.total_claimed_tokens, 10);
    assert_eq!(t.current_sol_volume, 11);
    assert_eq!(t.last_update_timestamp, -12);
    assert_eq!(t.ix_name, "buy");
    assert!(!t.mayhem_mode);
    assert_eq!(t.cashback_fee_basis_points, 0);
    assert!(!t.is_cashback_coin);
    assert!(t.shareholders.is_empty());
    assert_eq!(t.quote_mint, Pubkey::new_from_array(NATIVE_SOL_MINT));
    assert_eq!(t.global, Pubkey::default());
}

#[test]
fn trade_variant_follows_instruction_name() {
    let md = EventMetadata::default();
    let cases: [(&str, u8); 8] = [
        ("buy", 0),
        ("buy_v2", 0),
        ("buy_exact_quote_in", 0),
        ("buy_exact_quote_in_v2", 0),
        ("sell", 1),
        ("sell_v2", 1),
        ("buy_exact_sol_in", 2),
        ("swap", 3),
    ];
    for (name, want) in cases {
        let body = trade_body(Some(name), &[]);
        let ev = parse_trade_from_data(&body, md, false).expect("trade");
        let got = match ev {
            DexEvent::PumpFunBuy(_) => 0,
            DexEvent::PumpFunSell(_) => 1,
            DexEvent::PumpFunBuyExactSolIn(_) => 2,
            DexEvent::PumpFunTrade(_) => 3,
            _ => 9,
        };
        assert_eq!(got, want, "{name}");
        assert_eq!(trade_of(&ev).ix_name, name);
        assert_eq!(parse_buy_from_data(&body, md, false).is_some(), want == 0);
        assert_eq!(parse_sell_from_data(&body, md, false).is_some(), want == 1);
        assert_eq!(parse_buy_exact_sol_in_from_data(&body, md, false).is_some(), want == 2);
    }
}

#[test]
fn trade_without_name_is_a_plain_trade_with_defaults() {
    let mut body = trade_body(None, &[]);
    body.truncate(217);
    let ev = parse_trade_from_data(&body, EventMetadata::default(), false).expect("trade");
    let t = trade_of(&ev);
    assert!(matches!(ev, DexEvent::PumpFunTrade(_)));
    assert!(!t.track_volume);
    assert_eq!(t.total_unclaimed_tokens, 0);
    assert_eq!(t.last_update_timestamp, 0);
    assert_eq!(t.ix_name, "");
    assert!(parse_trade_from_data(&body[..216], EventMetadata::default(), false).is_none());
}

#[test]
fn malformed_trade_name_is_rejected() {
    let mut body = trade_body(Some("buy"), &[]);
    assert!(parse_trade_from_data(&body, EventMetadata::default(), false).is_some());
    body[254] = 0xff;
    assert!(parse_trade_from_data(&body, EventMetadata::default(), false).is_none());
    body[250..254].copy_from_slice(&u32::MAX.to_le_bytes());
    assert!(parse_trade_from_data(&body, EventMetadata::default(), false).is_none());
}

#[test]
fn trade_extensions_are_read_in_order() {
    let mut tail = Vec::new();
    tail.push(1); // mayhem
    tail.extend_from_slice(&25u64.to_le_bytes()); // cashback bps
    tail.extend_from_slice(&26u64.to_le_bytes()); // cashback
    tail.extend_from_slice(&40u64.to_le_bytes()); // buyback bps
    tail.extend_from_slice(&41u64.to_le_bytes()); // buyback fee
    tail.extend_from_slice(&2u32.to_le_bytes());
    tail.extend_from_slice(&key(9).0);
    tail.extend_from_slice(&6000u16.to_le_bytes());
    tail.extend_from_slice(&key(10).0);
    tail.extend_from_slice(&4000u16.to_le_bytes());
    tail.extend_from_slice(&key(11).0); // quote mint
    for v in [50u64, 51, 52, 53, 54] {
        tail.extend_from_slice(&v.to_le_bytes());
    }
    let body = trade_body(Some("sell_v2"), &tail);
    let ev = parse_trade_from_data(&body, EventMetadata::default(), false).expect("trade");
    assert!(matches!(ev, DexEvent::PumpFunSell(_)));
    let t = trade_of(&ev);
    assert!(t.mayhem_mode);
    assert_eq!(t.cashback_fee_basis_points, 25);
    assert!(t.is_cashback_coin);
    assert_eq!(t.cashback, 26);
    assert_eq!(t.buyback_fee_basis_points, 40);
    assert_eq!(t.buyback_fee, 41);
    assert_eq!(t.shareholders.len(), 2);
    assert_eq!(t.shareholders[0].address, key(9));
    assert_eq!(t.shareholders[0].share_bps, 6000);
    assert_eq!(t.shareholders[1].address, key(10));
    assert_eq!(t.shareholders[1].share_bps, 4000);
    assert_eq!(t.quote_mint, key(11));
    assert_eq!(t.quote_amount, 50);
    assert_eq!(t.virtual_quote_reserves, 51);
    assert_eq!(t.real_quote_reserves, 52);
    assert_eq!(t.holder_rewards_bps, 53);
    assert_eq!(t.holder_rewards, 54);
}

#[test]
fn trade_shareholder_list_must_be_complete_and_short() {
    let mut tail = vec![0u8; 17 + 16];
    tail.extend_from_slice(&65u32.to_le_bytes());
    let body = trade_body(Some("buy"), &tail);
    assert!(parse_trade_from_data(&body, EventMetadata::default(), false).is_none());

    let mut tail = vec![0u8; 17 + 16];
    tail.extend_from_slice(&1u32.to_le_bytes());
    tail.extend_from_slice(&[5u8; 33]);
    let body = trade_body(Some("buy"), &tail);
    assert!(parse_trade_from_data(&body, EventMetadata::default(), false).is_none());

    let mut tail = vec![0u8; 17 + 16];
    tail.extend_from_slice(&[1u8, 0, 0]);
    let body = trade_body(Some("buy"), &tail);
    let ev = parse_trade_from_data(&body, EventMetadata::default(), false).expect("trade");
    assert!(trade_of(&ev).shareholders.is_empty());
}

fn create_body(fixed_extra: usize) -> Vec<u8> {
    let mut d = Vec::new();
    push_str(&mut d, "Coin");
    push_str(&mut d, "CN");
    push_str(&mut d, "https://x/y");
    for s in [1u8, 2, 3, 4] {
        d.extend_from_slice(&key(s).0);
    }
    d.extend_from_slice(&77i64.to_le_bytes());
    for v in [10u64, 20, 30, 40] {
        d.extend_from_slice(&v.to_le_bytes());
    }
    d.extend_from_slice(&key(5).0);
    d.push(1);
    d.extend_from_slice(&vec![0u8; fixed_extra]);
    d
}

#[test]
fn create_event_reads_strings_and_fields() {
    let body = create_body(0);
    let ev = parse_create_from_data(&body, EventMetadata::default()).expect("create");
    let DexEvent::PumpFunCreate(e) = ev else { panic!("not create") };
    assert_eq!(e.name, "Coin");
    assert_eq!(e.symbol, "CN");
    assert_eq!(e.uri, "https://x/y");
    assert_eq!(e.mint, key(1));
    assert_eq!(e.bonding_curve, key(2));
    assert_eq!(e.user, key(3));
    assert_eq!(e.creator, key(4));
    assert_eq!(e.timestamp, 77);
    assert_eq!(e.virtual_token_reserves, 10);
    assert_eq!(e.virtual_sol_reserves, 20);
    assert_eq!(e.real_token_reserves, 30);
    assert_eq!(e.token_total_supply, 40);
    assert_eq!(e.token_program, key(5));
    assert!(e.is_mayhem_mode);
    assert!(!e.is_cashback_enabled);
    assert_eq!(e.quote_mint, Pubkey::new_from_array(NATIVE_SOL_MINT));
    assert_eq!(e.ix_name, "create");
    let short = &body[..body.len() - 1];
    assert!(parse_create_from_data(short, EventMetadata::default()).is_none());
}

#[test]
fn migrate_event_needs_all_fields() {
    let mut d = Vec::new();
    d.extend_from_slice(&key(1).0);
    d.extend_from_slice(&key(2).0);
    for v in [3u64, 4, 5] {
        d.extend_from_slice(&v.to_le_bytes());
    }
    d.extend_from_slice(&key(6).0);
    d.extend_from_slice(&(-7i64).to_le_bytes());
    d.extend_from_slice(&key(8).0);
    let ev = parse_migrate_from_data(&d, EventMetadata::default()).expect("migrate");
    let DexEvent::PumpFunMigrate(e) = ev else { panic!("not migrate") };
    assert_eq!(e.user, key(1));
    assert_eq!(e.mint, key(2));
    assert_eq!(e.mint_amount, 3);
    assert_eq!(e.sol_amount, 4);
    assert_eq!(e.pool_migration_fee, 5);
    assert_eq!(e.bonding_curve, key(6));
    assert_eq!(e.timestamp, -7);
    assert_eq!(e.pool, key(8));
    assert!(parse_migrate_from_data(&d[..159], EventMetadata::default()).is_none());
}

#[test]
fn migrate_bonding_curve_creator_roundtrip_from_data() {
    let ts: i64 = 1_777_920_719;
    let mint = key(21);
    let bonding_curve = key(22);
    let sharing_config = key(23);
    let old_creator = key(24);
    let new_creator = key(25);

    let mut buf = Vec::with_capacity(200);
    buf.extend_from_slice(&ts.to_le_bytes());
    buf.extend_from_slice(&mint.0);
    buf.extend_from_slice(&bonding_curve.0);
    buf.extend_from_slice(&sharing_config.0);
    buf.extend_from_slice(&old_creator.0);
    buf.extend_from_slice(&new_creator.0);

    let metadata = EventMetadata {
        signature: Signature::default(),
        slot: 0,
        tx_index: 0,
        block_time_us: 0,
        grpc_recv_us: 0,
        recent_blockhash: None,
    };

    let ev = parse_migrate_bonding_curve_creator_from_data(&buf, metadata).expect("parse");
    match ev {
        DexEvent::PumpFunMigrateBondingCurveCreator(e) => {
            assert_eq!(e.timestamp, ts);
            assert_eq!(e.mint, mint);
            assert_eq!(e.bonding_curve, bonding_curve);
            assert_eq!(e.sharing_config, sharing_config);
            assert_eq!(e.old_creator, old_creator);
            assert_eq!(e.new_creator, new_creator);
        }
        _ => panic!("wrong variant"),
    }
}

fn log_line(disc: u64, body: &[u8]) -> String {
    let mut raw = disc.to_le_bytes().to_vec();
    raw.extend_from_slice(body);
    format!("Program data: {}", base64_simd::STANDARD.encode_to_string(&raw))
}

#[test]
fn parse_log_dispatches_on_discriminator() {
    let sig = Signature([3u8; 64]);
    let body = trade_body(Some("buy"), &[]);
    let log = log_line(TRADE_EVENT, &body);
    let ev = parse_log(&log, sig, 42, 3, Some(99), 7, true).expect("trade log");
    let t = trade_of(&ev);
    assert_eq!(t.metadata.slot, 42);
    assert_eq!(t.metadata.tx_index, 3);
    assert_eq!(t.metadata.block_time_us, 99);
    assert_eq!(t.metadata.grpc_recv_us, 7);
    assert_eq!(t.metadata.signature, sig);
    assert!(t.is_created_buy);

    let ev = parse_log(&log_line(CREATE_EVENT, &create_body(0)), sig, 1, 0, None, 0, false)
        .expect("create log");
    let DexEvent::PumpFunCreate(c) = ev else { panic!("not create") };
    assert_eq!(c.metadata.block_time_us, 0);

    let migrate = vec![0u8; 160];
    assert!(matches!(
        parse_log(&log_line(MIGRATE_EVENT, &migrate), sig, 1, 0, None, 0, false),
        Some(DexEvent::PumpFunMigrate(_))
    ));
    let creator = vec![0u8; 168];
    assert!(matches!(
        parse_log(&log_line(MIGRATE_BONDING_CURVE_CREATOR_EVENT, &creator), sig, 1, 0, None, 0, false),
        Some(DexEvent::PumpFunMigrateBondingCurveCreator(_))
    ));
    assert!(parse_log(&log_line(12345, &creator), sig, 1, 0, None, 0, false).is_none());
    assert!(parse_log("Program log: Instruction: Buy", sig, 1, 0, None, 0, false).is_none());
}

#[test]
fn program_data_payload_is_trimmed_and_checked() {
    let mut buf = [0u8; 2048];
    let line = format!("  noise Program data: {}\n", base64_simd::STANDARD.encode_to_string([1u8, 2, 3]));
    assert_eq!(extract_program_data_zero_copy(&line, &mut buf), Some(&[1u8, 2, 3][..]));
    let mut buf = [0u8; 2048];
    assert!(extract_program_data_zero_copy("Program data: ***", &mut buf).is_none());
    let mut buf = [0u8; 2048];
    assert!(extract_program_data_zero_copy("Program log: AAAA", &mut buf).is_none());
    let long = format!("Program data: {}", "A".repeat(2704));
    let mut buf = [0u8; 2048];
    assert!(extract_program_data_zero_copy(&long, &mut buf).is_none());
    let max = format!("Program data: {}", "A".repeat(2700));
    let mut buf = [0u8; 2048];
    assert_eq!(extract_program_data_zero_copy(&max, &mut buf).map(|d| d.len()), Some(2025));
}

#[test]
fn test_discriminator_simd() {
    let log = "Program data: G3Kp5Dfe605nAAAAAAAAAAA=";
    let disc = extract_discriminator_simd(log);
    assert!(disc.is_some());
}

#[test]
fn discriminator_is_read_from_the_payload_prefix() {
    let log = "Program data: vdt/007mYe4AAAAAAAAAAAAA";
    assert_eq!(get_event_type_fast(log), Some(TRADE_EVENT));
    assert!(is_event_type(log, TRADE_EVENT));
    assert!(!is_event_type(log, CREATE_EVENT));
    assert_eq!(extract_discriminator_simd("Program data: vdt/007mYe4="), None);
    assert_eq!(extract_discriminator_simd("no tag here"), None);
}

#[test]
fn test_parse_performance() {
    let log = "Program data: G3Kp5Dfe605nAAAAAAAAAAA=";
    let sig = Signature::default();

    let start = std::time::Instant::now();
    for _ in 0..1000 {
        let _ = parse_log(log, sig, 0, 0, Some(0), 0, false);
    }
    let elapsed = start.elapsed();

    println!("Average parse time: {} ns", elapsed.as_nanos() / 1000);
}

#[test]
fn ix_names_fold_v2_suffixes_once() {
    assert_eq!(normalize_pumpfun_ix_name("buy_v2"), "buy");
    assert_eq!(normalize_pumpfun_ix_name("sell_v2"), "sell");
    assert_eq!(normalize_pumpfun_ix_name("buy_exact_quote_in_v2"), "buy_exact_quote_in");
    assert_eq!(normalize_pumpfun_ix_name("buy"), "buy");
    assert_eq!(normalize_pumpfun_ix_name("create_v2"), "create_v2");
    for n in ["buy_v2", "sell", "x"] {
        let once = normalize_pumpfun_ix_name(n);
        assert_eq!(normalize_pumpfun_ix_name(once), once);
    }
}

#[test]
fn quote_mint_defaults_to_wrapped_sol() {
    assert_eq!(normalize_pumpfun_quote_mint(Pubkey::default()), Pubkey::new_from_array(NATIVE_SOL_MINT));
    assert_eq!(normalize_pumpfun_quote_mint(key(3)), key(3));
}

#[test]
fn read_str_rejects_truncated_overflowing_and_invalid_text() {
    let mut d = Vec::new();
    push_str(&mut d, "héllo");
    assert_eq!(read_str_unchecked(&d, 0), Some(("héllo", 10)));
    assert!(read_str_unchecked(&d[..9], 0).is_none());
    assert!(read_str_unchecked(&d, usize::MAX - 1).is_none());
    d[5] = 0xff;
    assert!(read_str_unchecked(&d, 0).is_none());
}

#[test]
fn log_line_and_body_decoders_give_the_same_event() {
    let sig = Signature([3u8; 64]);
    let metadata = EventMetadata {
        signature: sig,
        slot: 42,
        tx_index: 3,
        block_time_us: 0,
        grpc_recv_us: 7,
        recent_blockhash: None,
    };
    let body = trade_body(Some("sell_v2"), &[]);
    let from_log = parse_log(&log_line(TRADE_EVENT, &body), sig, 42, 3, None, 7, false);
    let from_body = parse_trade_from_data(&body, metadata, false);
    assert_eq!(format!("{from_log:?}"), format!("{from_body:?}"));
    let create = create_body(0);
    let from_log = parse_log(&log_line(CREATE_EVENT, &create), sig, 42, 3, None, 7, false);
    let from_body = parse_create_from_data(&create, metadata);
    assert!(from_body.is_some());
    assert_eq!(format!("{from_log:?}"), format!("{from_body:?}"));
}

#[test]
fn selectors_keep_the_trade_decoders_event() {
    for name in ["buy_v2", "sell", "buy_exact_sol_in", "unknown"] {
        let body = trade_body(Some(name), &[]);
        let md = EventMetadata::default();
        let trade = format!("{:?}", parse_trade_from_data(&body, md, true));
        let picks = [
            parse_buy_from_data(&body, md, true),
            parse_sell_from_data(&body, md, true),
            parse_buy_exact_sol_in_from_data(&body, md, true),
        ];
        let kept: Vec<_> = picks.iter().filter(|p| p.is_some()).collect();
        if name == "unknown" {
            assert!(kept.is_empty());
        } else {
            assert_eq!(kept.len(), 1, "{name}");
            assert_eq!(format!("{:?}", kept[0]), trade);
        }
    }
}

#[test]
fn payload_decoder_matches_body_decoders() {
    let sig = Signature([4u8; 64]);
    let metadata = EventMetadata {
        signature: sig,
        slot: 9,
        tx_index: 1,
        block_time_us: 77,
        grpc_recv_us: 5,
        recent_blockhash: None,
    };
    let body = trade_body(Some("buy_exact_sol_in"), &[]);
    let mut pd = TRADE_EVENT.to_le_bytes().to_vec();
    pd.extend_from_slice(&body);
    let from_payload = parse_program_data(&pd, sig, 9, 1, Some(77), 5, true);
    let from_body = parse_trade_from_data(&body, metadata, true);
    assert!(matches!(from_payload, Some(DexEvent::PumpFunBuyExactSolIn(_))));
    assert_eq!(format!("{from_payload:?}"), format!("{from_body:?}"));
    let create = create_body(0);
    let mut pd = CREATE_EVENT.to_le_bytes().to_vec();
    pd.extend_from_slice(&create);
    let from_payload = parse_program_data(&pd, sig, 9, 1, Some(77), 5, false);
    let from_body = parse_create_from_data(&create, metadata);
    assert!(from_body.is_some());
    assert_eq!(format!("{from_payload:?}"), format!("{from_body:?}"));
    assert!(parse_program_data(&pd[..7], sig, 9, 1, Some(77), 5, false).is_none());
}
