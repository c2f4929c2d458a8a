use sol_parser_sdk::accounts::nonce::{is_nonce_account, parse_nonce_account};
use sol_parser_sdk::accounts::utils::{
    has_discriminator, is_token_program_account, read_pubkey, read_u16_le, read_u64_le, read_u8,
    user_wallet_pubkey_for_onchain_account,
};
use sol_parser_sdk::events::{AccountData, DexEvent, EventMetadata};
use sol_parser_sdk::pubkey::Pubkey;

#[test]
fn readers_return_none_past_the_end() {
    let data: Vec<u8> = (0u8..16).collect();
    assert_eq!(read_u64_le(&data, 8), Some(u64::from_le_bytes([8, 9, 10, 11, 12, 13, 14, 15])));
    assert_eq!(read_u64_le(&data, 9), None);
    assert_eq!(read_u16_le(&data, 14), Some(0x0f0e));
    assert_eq!(read_u16_le(&data, 15), None);
    assert_eq!(read_u8(&data, 15), Some(15));
    assert_eq!(read_u8(&data, 16), None);
    assert_eq!(read_pubkey(&data, 0), None);
    let wide = vec![4u8; 40];
    assert_eq!(read_pubkey(&wide, 8), Some(Pubkey::new_from_array([4; 32])));
}

#[test]
fn discriminator_prefix_check() {
    assert!(has_discriminator(&[1, 2, 3, 4], &[1, 2]));
    assert!(!has_discriminator(&[1, 2, 3, 4], &[2]));
    assert!(!has_discriminator(&[1], &[1, 2]));
    assert!(has_discriminator(&[1], &[]));
}

#[test]
fn token_program_owners_are_recognized() {
    let spl = Pubkey::new_from_array(spl_token::ID.to_bytes());
    let t22 = Pubkey::new_from_array(spl_token_2022::ID.to_bytes());
    assert!(is_token_program_account(&spl));
    assert!(is_token_program_account(&t22));
    assert!(!is_token_program_account(&Pubkey::default()));
}

#[test]
fn user_wallet_follows_owner_program() {
    let address = Pubkey::new_from_array([9; 32]);
    let system = Pubkey::default();
    assert_eq!(user_wallet_pubkey_for_onchain_account(&address, &system, &[], false), Some(address));
    assert_eq!(user_wallet_pubkey_for_onchain_account(&address, &system, &[0], false), None);
    assert_eq!(user_wallet_pubkey_for_onchain_account(&address, &system, &[], true), None);

    let spl = Pubkey::new_from_array(spl_token::ID.to_bytes());
    let mut token = vec![0u8; 165];
    token[32..64].copy_from_slice(&[7u8; 32]);
    token[108] = 1;
    assert_eq!(
        user_wallet_pubkey_for_onchain_account(&address, &spl, &token, false),
        Some(Pubkey::new_from_array([7; 32]))
    );
    token[108] = 0;
    assert_eq!(user_wallet_pubkey_for_onchain_account(&address, &spl, &token, false), None);
    token[108] = 1;
    token[72] = 2;
    assert_eq!(user_wallet_pubkey_for_onchain_account(&address, &spl, &token, false), None);
    assert_eq!(
        user_wallet_pubkey_for_onchain_account(&address, &Pubkey::new_from_array([3; 32]), &token, false),
        None
    );
}

#[test]
fn nonce_fields_are_base58_text() {
    let mut data = vec![0u8; 80];
    data[..8].copy_from_slice(&[1, 0, 0, 0, 1, 0, 0, 0]);
    data[8..40].copy_from_slice(&[1u8; 32]);
    data[40..72].copy_from_slice(&[2u8; 32]);
    assert!(is_nonce_account(&data));
    let account = AccountData {
        pubkey: Pubkey::new_from_array([5; 32]),
        executable: false,
        lamports: 10,
        owner: Pubkey::default(),
        rent_epoch: 3,
        data,
    };
    let ev = parse_nonce_account(&account, EventMetadata::default()).expect("nonce");
    let DexEvent::NonceAccount(e) = ev else { panic!("not nonce") };
    assert_eq!(e.authority, "4vJ9JU1bJJE96FWSJKvHsmmFADCg4gpZQff4P3bkLKi");
    assert_eq!(e.nonce, "8qbHbw2BbbTHBW1sbeqakYXVKRQM8Ne7pLK7m6CVfeR");
    assert_eq!(e.lamports, 10);
    assert_eq!(e.rent_epoch, 3);
}

#[test]
fn user_wallet_reads_token_2022_accounts_with_extensions() {
    let address = Pubkey::new_from_array([9; 32]);
    let t22 = Pubkey::new_from_array(spl_token_2022::ID.to_bytes());
    let spl = Pubkey::new_from_array(spl_token::ID.to_bytes());
    let mut token = vec![0u8; 165];
    token[32..64].copy_from_slice(&[7u8; 32]);
    token[108] = 1;
    assert_eq!(
        user_wallet_pubkey_for_onchain_account(&address, &t22, &token, false),
        Some(Pubkey::new_from_array([7; 32]))
    );
    // Account-type tag, then an ImmutableOwner extension entry (type 7, length 0).
    let mut extended = token.clone();
    extended.extend_from_slice(&[2, 7, 0, 0, 0]);
    assert_eq!(
        user_wallet_pubkey_for_onchain_account(&address, &t22, &extended, false),
        Some(Pubkey::new_from_array([7; 32]))
    );
    assert_eq!(user_wallet_pubkey_for_onchain_account(&address, &spl, &extended, false), None);
    let mut mint_tagged = extended.clone();
    mint_tagged[165] = 1;
    assert_eq!(user_wallet_pubkey_for_onchain_account(&address, &t22, &mint_tagged, false), None);
    let mut uninitialized = extended.clone();
    uninitialized[108] = 0;
    assert_eq!(user_wallet_pubkey_for_onchain_account(&address, &t22, &uninitialized, false), None);
    let mut multisig_sized = extended.clone();
    multisig_sized.resize(355, 0);
    assert_eq!(user_wallet_pubkey_for_onchain_account(&address, &t22, &multisig_sized, false), None);
    assert_eq!(user_wallet_pubkey_for_onchain_account(&address, &t22, &token[..164], false), None);
}

#[test]
fn nonce_text_keeps_leading_zero_bytes_as_ones() {
    let mut data = vec![0u8; 80];
    data[..8].copy_from_slice(&[1, 0, 0, 0, 1, 0, 0, 0]);
    data[39] = 58;
    let account = AccountData {
        pubkey: Pubkey::new_from_array([5; 32]),
        executable: false,
        lamports: 1,
        owner: Pubkey::default(),
        rent_epoch: 0,
        data,
    };
    let ev = parse_nonce_account(&account, EventMetadata::default()).expect("nonce");
    let DexEvent::NonceAccount(e) = ev else { panic!("not nonce") };
    assert_eq!(e.authority, format!("{}21", "1".repeat(31)));
    assert_eq!(e.nonce, "1".repeat(32));
}
