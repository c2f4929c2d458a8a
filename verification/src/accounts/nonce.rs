//! Durable-nonce accounts of the system program.
use vstd::prelude::*;
use crate::accounts::program_ids::SYSTEM_PROGRAM_ID;
use crate::events::{AccountData, DexEvent, EventMetadata, NonceAccountEvent};
use crate::pubkey::{zero_key, Pubkey};

verus! {

/// Size of a nonce account.
pub const NONCE_ACCOUNT_SIZE: usize = 80;

/// Offset of the nonce authority.
pub const AUTHORITY_OFFSET: usize = 8;

/// Offset of the stored blockhash.
pub const NONCE_OFFSET: usize = 40;

/// Version and state tags of an initialized current-version nonce account.
pub const NONCE_DISCRIMINATOR: [u8; 8] = [1, 0, 0, 0, 1, 0, 0, 0];

/// The digit of value `d` (below 58) in the Bitcoin base58 alphabet
/// `123456789ABCDEFGHJKLMNPQRSTUVWXYZabcdefghijkmnopqrstuvwxyz`.
pub open spec fn base58_digit(d: int) -> char {
    if d < 9 {
        ('1' as int + d) as char
    } else if d < 17 {
        ('A' as int + (d - 9)) as char
    } else if d < 22 {
        ('J' as int + (d - 17)) as char
    } else if d < 33 {
        ('P' as int + (d - 22)) as char
    } else if d < 44 {
        ('a' as int + (d - 33)) as char
    } else {
        ('m' as int + (d - 44)) as char
    }
}

/// The number that `bytes` spell in big-endian order.
pub open spec fn big_endian_value(bytes: Seq<u8>) -> nat
    decreases bytes.len(),
{
    if bytes.len() == 0 {
        0
    } else {
        big_endian_value(bytes.drop_last()) * 256 + bytes.last() as nat
    }
}

/// How many zero bytes open `bytes`.
pub open spec fn leading_zero_bytes(bytes: Seq<u8>) -> nat
    decreases bytes.len(),
{
    if bytes.len() > 0 && bytes[0] == 0 {
        1 + leading_zero_bytes(bytes.drop_first())
    } else {
        0
    }
}

/// The base58 digits of `n`, most significant first; none for zero.
pub open spec fn base58_digits(n: nat) -> Seq<char>
    decreases n,
{
    if n == 0 {
        Seq::empty()
    } else {
        base58_digits(n / 58).push(base58_digit((n % 58) as int))
    }
}

/// The base58 text of `bytes`: a `1` for each leading zero byte, then the
/// big-endian value of `bytes` written in base 58.
pub open spec fn base58_text(bytes: Seq<u8>) -> Seq<char> {
    Seq::new(leading_zero_bytes(bytes), |i: int| '1') + base58_digits(big_endian_value(bytes))
}

/// Calls `bs58::encode(bytes).into_string()`: the base58 text of `bytes` in
/// the Bitcoin alphabet (the crate's default), leading zero bytes as `1`.
#[verifier::external_body]
fn encode_base58(bytes: &[u8]) -> (r: String)
    ensures
        r@ == base58_text(bytes@),
{
    bs58::encode(bytes).into_string()
}

/// `data` has the size and leading tags of an initialized nonce account.
pub open spec fn nonce_shaped(data: Seq<u8>) -> bool {
    data.len() == NONCE_ACCOUNT_SIZE && data.subrange(0, 8) == NONCE_DISCRIMINATOR@
}

/// Whether `data` looks like an initialized nonce account.
pub fn is_nonce_account(data: &[u8]) -> (r: bool)
    ensures
        r == nonce_shaped(data@),
{
    if data.len() != NONCE_ACCOUNT_SIZE {
        return false;
    }
    let mut i: usize = 0;
    while i < 8
        invariant
            0 <= i <= 8,
            data@.len() == NONCE_ACCOUNT_SIZE,
            forall|j: int| 0 <= j < i ==> data@[j] == NONCE_DISCRIMINATOR@[j],
        decreases 8 - i,
    {
        if data[i] != NONCE_DISCRIMINATOR[i] {
            assert(data@.subrange(0, 8)[i as int] != NONCE_DISCRIMINATOR@[i as int]);
            return false;
        }
        i = i + 1;
    }
    assert(data@.subrange(0, 8) =~= NONCE_DISCRIMINATOR@);
    true
}

/// Whether `account` decodes as a nonce account: owned by the system
/// program, not executable, and nonce-shaped.
pub open spec fn nonce_accepted(account: AccountData) -> bool {
    &&& account.owner@ == zero_key()
    &&& !account.executable
    &&& nonce_shaped(account.data@)
}

/// `e` is the nonce event for `account`, observed with `metadata`.
pub open spec fn nonce_event_of(e: NonceAccountEvent, account: AccountData, metadata: EventMetadata) -> bool {
    &&& e.metadata == metadata
    &&& e.pubkey == account.pubkey
    &&& e.executable == account.executable
    &&& e.lamports == account.lamports
    &&& e.owner == account.owner
    &&& e.rent_epoch == account.rent_epoch
    &&& e.authority@ == base58_text(account.data@.subrange(8, 40))
    &&& e.nonce@ == base58_text(account.data@.subrange(40, 72))
}

/// Decodes a durable-nonce account: its authority and stored blockhash, in base58.
pub fn parse_nonce_account(account: &AccountData, metadata: EventMetadata) -> (r: Option<DexEvent>)
    ensures
        r is Some <==> nonce_accepted(*account),
        r matches Some(ev) ==> ev matches DexEvent::NonceAccount(e) && nonce_event_of(
            e,
            *account,
            metadata,
        ),
{
    let data = account.data.as_slice();
    let system = Pubkey::new_from_array(SYSTEM_PROGRAM_ID);
    assert(system@ =~= zero_key());
    if !account.owner.equals(&system) || account.executable || !is_nonce_account(data) {
        return None;
    }
    let authority = encode_base58(&data[AUTHORITY_OFFSET..AUTHORITY_OFFSET + 32]);
    let nonce = encode_base58(&data[NONCE_OFFSET..NONCE_OFFSET + 32]);
    Some(
        DexEvent::NonceAccount(
            NonceAccountEvent {
                metadata,
                pubkey: account.pubkey,
                executable: account.executable,
                lamports: account.lamports,
                owner: account.owner,
                rent_epoch: account.rent_epoch,
                nonce,
                authority,
            },
        ),
    )
}

} // verus!
