use sol_parser_sdk::accounts::parse_account_unified;
use sol_parser_sdk::accounts::program_ids::{PUMPFUN_PROGRAM_ID, PUMPSWAP_PROGRAM_ID, PUMP_FEES_PROGRAM_ID};
use sol_parser_sdk::accounts::pumpfun::{
    BONDING_CURVE_DISCRIMINATOR, FEE_CONFIG_DISCRIMINATOR, GLOBAL_DISCRIMINATOR,
    GLOBAL_VOLUME_ACCUMULATOR_DISCRIMINATOR, SHARING_CONFIG_DISCRIMINATOR,
    USER_VOLUME_ACCUMULATOR_DISCRIMINATOR,
};
use sol_parser_sdk::accounts::pumpswap::{discriminators, is_global_config_account, is_pool_account, parse_global_config};
use sol_parser_sdk::events::{AccountData, DexEvent, EventMetadata, PumpFeesConfigStatus};
use sol_parser_sdk::filter::{EventType, EventTypeFilter};
use sol_parser_sdk::pubkey::Pubkey;

fn account(owner: [u8; 32], data: Vec<u8>) -> AccountData {
    AccountData {
        pubkey: Pubkey::new_from_array([77; 32]),
        executable: false,
        lamports: 5,
        owner: Pubkey::new_from_array(owner),
        rent_epoch: 0,
        data,
    }
}

fn key(seed: u8) -> Pubkey {
    Pubkey::new_from_array([seed; 32])
}

#[test]
fn fee_config_reads_both_tier_lists() {
    let mut d = FEE_CONFIG_DISCRIMINATOR.to_vec();
    d.push(254);
    d.extend_from_slice(&key(1).0);
    for v in [1u64, 2, 3] {
        d.extend_from_slice(&v.to_le_bytes());
    }
    d.extend_from_slice(&1u32.to_le_bytes());
    d.extend_from_slice(&1000u128.to_le_bytes());
    for v in [4u64, 5, 6] {
        d.extend_from_slice(&v.to_le_bytes());
    }
    d.extend_from_slice(&2u32.to_le_bytes());
    for t in [2000u128, 3000] {
        d.extend_from_slice(&t.to_le_bytes());
        for v in [7u64, 8, 9] {
            d.extend_from_slice(&v.to_le_bytes());
        }
    }
    let acc = account(PUMP_FEES_PROGRAM_ID, d.clone());
    let ev = parse_account_unified(&acc, EventMetadata::default(), None).expect("fee config");
    let DexEvent::PumpFunFeeConfigAccount(e) = ev else { panic!("wrong kind") };
    assert_eq!(e.fee_config.bump, 254);
    assert_eq!(e.fee_config.admin, key(1));
    assert_eq!(e.fee_config.flat_fees.creator_fee_bps, 3);
    assert_eq!(e.fee_config.fee_tiers.len(), 1);
    assert_eq!(e.fee_config.fee_tiers[0].market_cap_lamports_threshold, 1000);
    assert_eq!(e.fee_config.fee_tiers[0].fees.protocol_fee_bps, 5);
    assert_eq!(e.fee_config.stable_fee_tiers.len(), 2);
    assert_eq!(e.fee_config.stable_fee_tiers[1].market_cap_lamports_threshold, 3000);

    let mut truncated = acc.clone();
    truncated.data.pop();
    assert!(parse_account_unified(&truncated, EventMetadata::default(), None).is_none());

    let mut too_many = d.clone();
    too_many[8 + 57..8 + 61].copy_from_slice(&65u32.to_le_bytes());
    assert!(parse_account_unified(&account(PUMP_FEES_PROGRAM_ID, too_many), EventMetadata::default(), None).is_none());
}

#[test]
fn sharing_config_reads_status_and_shareholders() {
    let mut d = SHARING_CONFIG_DISCRIMINATOR.to_vec();
    d.push(1);
    d.push(2);
    d.push(1);
    d.extend_from_slice(&key(3).0);
    d.extend_from_slice(&key(4).0);
    d.push(1);
    d.extend_from_slice(&2u32.to_le_bytes());
    d.extend_from_slice(&key(5).0);
    d.extend_from_slice(&7000u16.to_le_bytes());
    d.extend_from_slice(&key(6).0);
    d.extend_from_slice(&3000u16.to_le_bytes());
    let ev = parse_account_unified(&account(PUMP_FEES_PROGRAM_ID, d.clone()), EventMetadata::default(), None)
        .expect("sharing config");
    let DexEvent::PumpFunSharingConfigAccount(e) = ev else { panic!("wrong kind") };
    let c = e.sharing_config;
    assert_eq!((c.bump, c.version), (1, 2));
    assert_eq!(c.status, PumpFeesConfigStatus::Active);
    assert_eq!(c.mint, key(3));
    assert_eq!(c.admin, key(4));
    assert!(c.admin_revoked);
    assert_eq!(c.shareholders.len(), 2);
    assert_eq!(c.shareholders[1].address, key(6));
    assert_eq!(c.shareholders[1].share_bps, 3000);

    let mut bad_status = d.clone();
    bad_status[10] = 2;
    assert!(parse_account_unified(&account(PUMP_FEES_PROGRAM_ID, bad_status), EventMetadata::default(), None).is_none());
    let mut paused = d;
    paused[10] = 0;
    let ev = parse_account_unified(&account(PUMP_FEES_PROGRAM_ID, paused), EventMetadata::default(), None).unwrap();
    let DexEvent::PumpFunSharingConfigAccount(e) = ev else { panic!("wrong kind") };
    assert_eq!(e.sharing_config.status, PumpFeesConfigStatus::Paused);
}

#[test]
fn volume_accumulators_read_all_fields() {
    let mut d = GLOBAL_VOLUME_ACCUMULATOR_DISCRIMINATOR.to_vec();
    for v in [10i64, 20, 86400] {
        d.extend_from_slice(&v.to_le_bytes());
    }
    d.extend_from_slice(&key(9).0);
    for v in 0u64..60 {
        d.extend_from_slice(&(v * 3).to_le_bytes());
    }
    let ev = parse_account_unified(&account(PUMPFUN_PROGRAM_ID, d.clone()), EventMetadata::default(), None)
        .expect("global volume");
    let DexEvent::PumpFunGlobalVolumeAccumulatorAccount(e) = ev else { panic!("wrong kind") };
    let g = e.global_volume_accumulator;
    assert_eq!((g.start_time, g.end_time, g.seconds_in_a_day), (10, 20, 86400));
    assert_eq!(g.mint, key(9));
    assert_eq!(g.total_token_supply[29], 87);
    assert_eq!(g.sol_volumes[0], 90);
    assert_eq!(g.sol_volumes[29], 177);
    d.pop();
    assert!(parse_account_unified(&account(PUMPFUN_PROGRAM_ID, d), EventMetadata::default(), None).is_none());

    let mut u = USER_VOLUME_ACCUMULATOR_DISCRIMINATOR.to_vec();
    u.extend_from_slice(&key(2).0);
    u.push(1);
    for v in [1u64, 2, 3] {
        u.extend_from_slice(&v.to_le_bytes());
    }
    u.extend_from_slice(&(-4i64).to_le_bytes());
    u.push(0);
    for v in [5u64, 6, 7, 8] {
        u.extend_from_slice(&v.to_le_bytes());
    }
    let ev = parse_account_unified(&account(PUMPFUN_PROGRAM_ID, u), EventMetadata::default(), None)
        .expect("user volume");
    let DexEvent::PumpFunUserVolumeAccumulatorAccount(e) = ev else { panic!("wrong kind") };
    let v = e.user_volume_accumulator;
    assert_eq!(v.user, key(2));
    assert!(v.needs_claim);
    assert_eq!(v.current_sol_volume, 3);
    assert_eq!(v.last_update_timestamp, -4);
    assert!(!v.has_total_claimed_tokens);
    assert_eq!(v.total_stable_cashback_claimed, 8);
}

#[test]
fn global_reads_every_field() {
    let mut d = GLOBAL_DISCRIMINATOR.to_vec();
    let body_start = d.len();
    d.resize(body_start + 1037, 0);
    let b = &mut d[body_start..];
    b[0] = 1;
    b[1..33].copy_from_slice(&[11; 32]);
    b[97..105].copy_from_slice(&100u64.to_le_bytes());
    b[154 + 32 * 6..154 + 32 * 7].copy_from_slice(&[12; 32]);
    b[732] = 1;
    b[733 + 32 * 7..733 + 32 * 8].copy_from_slice(&[13; 32]);
    b[997..1005].copy_from_slice(&555u64.to_le_bytes());
    b[1005..1037].copy_from_slice(&[14; 32]);
    let ev = parse_account_unified(&account(PUMPFUN_PROGRAM_ID, d.clone()), EventMetadata::default(), None)
        .expect("global");
    let DexEvent::PumpFunGlobalAccount(e) = ev else { panic!("wrong kind") };
    let g = e.global;
    assert!(g.initialized);
    assert_eq!(g.authority, key(11));
    assert_eq!(g.fee_basis_points, 100);
    assert_eq!(g.fee_recipients[6], key(12));
    assert!(g.is_cashback_enabled);
    assert_eq!(g.buyback_fee_recipients[7], key(13));
    assert_eq!(g.initial_virtual_quote_reserves, 555);
    assert_eq!(g.whitelisted_quote_mints[0], key(14));
    d.pop();
    assert!(parse_account_unified(&account(PUMPFUN_PROGRAM_ID, d), EventMetadata::default(), None).is_none());
}

#[test]
fn padded_bonding_curve_reads_like_the_current_layout() {
    let mut d = BONDING_CURVE_DISCRIMINATOR.to_vec();
    for v in [1u64, 2, 3, 4, 5] {
        d.extend_from_slice(&v.to_le_bytes());
    }
    d.push(0);
    d.resize(8 + 117, 9);
    let exact = parse_account_unified(&account(PUMPFUN_PROGRAM_ID, d.clone()), EventMetadata::default(), None);
    d.extend_from_slice(&[0xee; 40]);
    let padded = parse_account_unified(&account(PUMPFUN_PROGRAM_ID, d), EventMetadata::default(), None);
    let (Some(DexEvent::PumpFunBondingCurveAccount(a)), Some(DexEvent::PumpFunBondingCurveAccount(b))) = (exact, padded) else {
        panic!("expected two curves")
    };
    assert_eq!(a.bonding_curve.creator, b.bonding_curve.creator);
    assert_eq!(a.bonding_curve.creator_fee_bps, b.bonding_curve.creator_fee_bps);
    assert_eq!(a.bonding_curve.is_holder_reward, b.bonding_curve.is_holder_reward);
    assert!(!a.bonding_curve.complete);
    assert_eq!(a.bonding_curve.token_total_supply, 5);
}

#[test]
fn historical_bonding_curve_defaults_missing_fields() {
    let mut d = BONDING_CURVE_DISCRIMINATOR.to_vec();
    for v in [1u64, 2, 3, 4, 5] {
        d.extend_from_slice(&v.to_le_bytes());
    }
    d.push(1);
    let ev = parse_account_unified(&account(PUMPFUN_PROGRAM_ID, d), EventMetadata::default(), None).expect("curve");
    let DexEvent::PumpFunBondingCurveAccount(e) = ev else { panic!("wrong kind") };
    assert_eq!(e.bonding_curve.creator, Pubkey::default());
    assert_eq!(e.bonding_curve.quote_mint, Pubkey::default());
    assert_eq!(e.bonding_curve.creator_fee_bps, 0);
    assert!(e.bonding_curve.complete);
}

#[test]
fn pumpswap_global_config_reads_recipient_lists() {
    let mut d = discriminators::GLOBAL_CONFIG_ACCOUNT.to_vec();
    let start = d.len();
    d.resize(start + 634, 0);
    let b = &mut d[start..];
    b[0..32].copy_from_slice(&[1; 32]);
    b[32..40].copy_from_slice(&20u64.to_le_bytes());
    b[48] = 3;
    b[49 + 32 * 7..49 + 32 * 8].copy_from_slice(&[2; 32]);
    b[409] = 1;
    b[410 + 32 * 6..410 + 32 * 7].copy_from_slice(&[4; 32]);
    assert!(is_global_config_account(&d));
    assert!(!is_pool_account(&d));
    let acc = account(PUMPSWAP_PROGRAM_ID, d.clone());
    let ev = parse_global_config(&acc, EventMetadata::default()).expect("config");
    let DexEvent::PumpSwapGlobalConfigAccount(e) = ev else { panic!("wrong kind") };
    let g = e.global_config;
    assert_eq!(g.admin, key(1));
    assert_eq!(g.lp_fee_basis_points, 20);
    assert_eq!(g.disable_flags, 3);
    assert_eq!(g.protocol_fee_recipients[7], key(2));
    assert!(g.mayhem_mode_enabled);
    assert_eq!(g.reserved_fee_recipients[6], key(4));
    assert_eq!(e.lamports, 5);
    let filter = EventTypeFilter::include_only(vec![EventType::AccountPumpSwapGlobalConfig]);
    assert!(parse_account_unified(&acc, EventMetadata::default(), Some(&filter)).is_some());
    d.pop();
    assert!(parse_global_config(&account(PUMPSWAP_PROGRAM_ID, d), EventMetadata::default()).is_none());
}
