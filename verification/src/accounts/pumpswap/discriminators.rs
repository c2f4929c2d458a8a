//! Leading bytes that identify each PumpSwap account kind.
use vstd::prelude::*;

verus! {

/// Discriminator of the global config account.
pub const GLOBAL_CONFIG_ACCOUNT: [u8; 8] = [149, 8, 156, 202, 160, 252, 176, 217];

/// Discriminator of a pool account.
pub const POOL_ACCOUNT: [u8; 8] = [241, 154, 109, 4, 17, 177, 109, 188];

} // verus!
