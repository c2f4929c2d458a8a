//! Checked readers over account data.
use vstd::prelude::*;
use vstd::bytes::*;
use crate::layout::{fits, key_at, u16_at, u64_at};
use crate::accounts::program_ids::{SYSTEM_PROGRAM_ID, TOKEN_2022_PROGRAM_ID, TOKEN_PROGRAM_ID};
use crate::accounts::nonce::nonce_shaped;
use crate::pubkey::{zero_key, Pubkey};
use spl_token::solana_program::program_pack::Pack;

verus! {

/// Reads the 32-byte key at `offset`, or `None` when it does not fit.
pub fn read_pubkey(data: &[u8], offset: usize) -> (r: Option<Pubkey>)
    requires
        offset + 32 <= usize::MAX,
    ensures
        r is Some <==> fits(data@, offset as int, 32),
        r matches Some(k) ==> k@ == key_at(data@, offset as int),
{
    if data.len() < offset + 32 {
        return None;
    }
    let mut bytes = [0u8; 32];
    let mut i: usize = 0;
    while i < 32
        invariant
            0 <= i <= 32,
            offset + 32 <= data@.len(),
            offset + 32 <= usize::MAX,
            bytes@.len() == 32,
            forall|j: int| 0 <= j < i ==> bytes@[j] == data@[offset + j],
        decreases 32 - i,
    {
        bytes[i] = data[offset + i];
        i = i + 1;
    }
    let k = Pubkey::new_from_array(bytes);
    assert(k@ =~= key_at(data@, offset as int));
    Some(k)
}

/// Reads the little-endian `u64` at `offset`, or `None` when it does not fit.
pub fn read_u64_le(data: &[u8], offset: usize) -> (r: Option<u64>)
    requires
        offset + 8 <= usize::MAX,
    ensures
        r is Some <==> fits(data@, offset as int, 8),
        r matches Some(v) ==> v == u64_at(data@, offset as int),
{
    if data.len() < offset + 8 {
        return None;
    }
    Some(u64_from_le_bytes(&data[offset..offset + 8]))
}

/// Reads the little-endian `u16` at `offset`, or `None` when it does not fit.
pub fn read_u16_le(data: &[u8], offset: usize) -> (r: Option<u16>)
    requires
        offset + 2 <= usize::MAX,
    ensures
        r is Some <==> fits(data@, offset as int, 2),
        r matches Some(v) ==> v == u16_at(data@, offset as int),
{
    if data.len() < offset + 2 {
        return None;
    }
    Some(u16_from_le_bytes(&data[offset..offset + 2]))
}

/// Reads the byte at `offset`, or `None` past the end.
pub fn read_u8(data: &[u8], offset: usize) -> (r: Option<u8>)
    ensures
        r is Some <==> offset < data@.len(),
        r matches Some(v) ==> v == data@[offset as int],
{
    if offset < data.len() {
        Some(data[offset])
    } else {
        None
    }
}

/// `data` begins with `discriminator`.
pub open spec fn starts_with(data: Seq<u8>, discriminator: Seq<u8>) -> bool {
    discriminator.len() <= data.len() && data.subrange(0, discriminator.len() as int)
        == discriminator
}

/// Whether `data` begins with the bytes of `discriminator`.
pub fn has_discriminator(data: &[u8], discriminator: &[u8]) -> (r: bool)
    ensures
        r == starts_with(data@, discriminator@),
{
    if data.len() < discriminator.len() {
        return false;
    }
    let n = discriminator.len();
    let mut i: usize = 0;
    while i < n
        invariant
            n == discriminator@.len(),
            n <= data@.len(),
            0 <= i <= n,
            forall|j: int| 0 <= j < i ==> data@[j] == discriminator@[j],
        decreases n - i,
    {
        if data[i] != discriminator[i] {
            assert(data@.subrange(0, n as int)[i as int] != discriminator@[i as int]);
            return false;
        }
        i = i + 1;
    }
    assert(data@.subrange(0, n as int) =~= discriminator@);
    true
}

/// Whether `data` looks like an initialized nonce account.
pub fn is_nonce_account(data: &[u8]) -> (r: bool)
    ensures
        r == nonce_shaped(data@),
{
    crate::accounts::nonce::is_nonce_account(data)
}

/// Calls `spl_token::ID.to_bytes()`: the address the `spl-token` crate
/// declares for the SPL Token program, the fixed key `TOKEN_PROGRAM_ID`.
#[verifier::external_body]
fn spl_token_id() -> (r: Pubkey)
    ensures
        r@ == TOKEN_PROGRAM_ID@,
{
    Pubkey(spl_token::ID.to_bytes())
}

/// Calls `spl_token_2022::ID.to_bytes()`: the address the `spl-token-2022`
/// crate declares for the Token-2022 program, the fixed key `TOKEN_2022_PROGRAM_ID`.
#[verifier::external_body]
fn spl_token_2022_id() -> (r: Pubkey)
    ensures
        r@ == TOKEN_2022_PROGRAM_ID@,
{
    Pubkey(spl_token_2022::ID.to_bytes())
}

/// The owner is one of the two SPL token programs.
pub open spec fn is_token_program(owner: Seq<u8>) -> bool {
    owner == TOKEN_PROGRAM_ID@ || owner == TOKEN_2022_PROGRAM_ID@
}

/// Whether `owner` is the SPL Token or the Token-2022 program.
pub fn is_token_program_account(owner: &Pubkey) -> (r: bool)
    ensures
        r == is_token_program(owner@),
{
    owner.equals(&spl_token_id()) || owner.equals(&spl_token_2022_id())
}

/// The 4-byte tag of an optional field at `off` is "absent" or "present".
pub open spec fn option_tag_ok(d: Seq<u8>, off: int) -> bool {
    d.subrange(off, off + 4) == seq![0u8, 0u8, 0u8, 0u8] || d.subrange(off, off + 4) == seq![
        1u8,
        0u8,
        0u8,
        0u8,
    ]
}

/// `d` is a well-formed, initialized SPL token account: 165 bytes, valid
/// tags for the delegate, native-amount and close-authority options, and an
/// initialized or frozen state.
pub open spec fn token_account_unpacks(d: Seq<u8>) -> bool {
    &&& d.len() == 165
    &&& option_tag_ok(d, 72)
    &&& 1 <= d[108] <= 2
    &&& option_tag_ok(d, 109)
    &&& option_tag_ok(d, 129)
}

/// Calls `<spl_token::state::Account as Pack>::unpack(data)` and keeps the
/// account owner: it succeeds exactly on well-formed initialized token
/// accounts, and the owner is bytes 32..64.
#[verifier::external_body]
fn unpack_token_account_owner(data: &[u8]) -> (r: Option<Pubkey>)
    ensures
        r is Some <==> token_account_unpacks(data@),
        r matches Some(k) ==> k@ == data@.subrange(32, 64),
{
    match spl_token::state::Account::unpack(data) {
        Ok(account) => Some(Pubkey(account.owner.to_bytes())),
        Err(_) => None,
    }
}

/// `d` is a Token-2022 token account, with or without extensions: it is
/// not the size of a multisig (355 bytes), its first 165 bytes form a
/// well-formed initialized token account, and any bytes past those start
/// with the account-type tag 2 (a token account).
pub open spec fn token_2022_account_unpacks(d: Seq<u8>) -> bool {
    &&& d.len() >= 165
    &&& d.len() != 355
    &&& token_account_unpacks(d.subrange(0, 165))
    &&& d.len() > 165 ==> d[165] == 2
}

/// Calls `StateWithExtensions::<spl_token_2022::state::Account>::unpack(data)`
/// and keeps the account owner: it succeeds exactly when the length is at
/// least 165 and not 355, the base 165 bytes unpack as an initialized token
/// account, and a longer account carries the account-type tag 2 at byte
/// 165; the owner is bytes 32..64. The extension entries after the tag are
/// not read by this call.
#[verifier::external_body]
fn unpack_token_2022_account_owner(data: &[u8]) -> (r: Option<Pubkey>)
    ensures
        r is Some <==> token_2022_account_unpacks(data@),
        r matches Some(k) ==> k@ == data@.subrange(32, 64),
{
    match spl_token_2022::extension::StateWithExtensions::<spl_token_2022::state::Account>::unpack(data) {
        Ok(state) => Some(Pubkey(state.base.owner.to_bytes())),
        Err(_) => None,
    }
}

/// The user wallet that an on-chain account stands for, from its owner,
/// data and executable flag: the address itself for an empty system-owned
/// account; the token owner for an SPL Token account or a Token-2022
/// account (extensions included); otherwise `None`.
pub fn user_wallet_pubkey_for_onchain_account(
    address: &Pubkey,
    owner: &Pubkey,
    data: &[u8],
    executable: bool,
) -> (r: Option<Pubkey>)
    ensures
        executable ==> r is None,
        !executable && owner@ == zero_key() ==> r == (if data@.len() == 0 {
            Some(*address)
        } else {
            None
        }),
        !executable && owner@ == TOKEN_PROGRAM_ID@ ==> (r is Some <==> token_account_unpacks(
            data@,
        )),
        !executable && owner@ == TOKEN_2022_PROGRAM_ID@ ==> (r is Some
            <==> token_2022_account_unpacks(data@)),
        !executable && owner@ != zero_key() && !is_token_program(owner@) ==> r is None,
        !executable && owner@ != zero_key() ==> (r matches Some(k) ==> k@ == data@.subrange(32, 64)),
{
    proof {
        assert(TOKEN_PROGRAM_ID@[4] != TOKEN_2022_PROGRAM_ID@[4]);
        assert(TOKEN_PROGRAM_ID@[0] != zero_key()[0]);
        assert(TOKEN_2022_PROGRAM_ID@[0] != zero_key()[0]);
    }
    if executable {
        return None;
    }
    let system = Pubkey(SYSTEM_PROGRAM_ID);
    assert(system@ =~= zero_key());
    if owner.equals(&system) {
        return if data.len() == 0 {
            Some(*address)
        } else {
            None
        };
    }
    if owner.equals(&spl_token_2022_id()) {
        return unpack_token_2022_account_owner(data);
    }
    if owner.equals(&spl_token_id()) && data.len() == 165 {
        return unpack_token_account_owner(data);
    }
    None
}

} // verus!
