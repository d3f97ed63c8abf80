//! Protocol constants of the delegation program and limits of the sync service.

use vstd::prelude::*;

use crate::types::Pubkey;

verus! {

/// Size of a Solana public key in bytes.
pub const PUBKEY_LEN: usize = 32;

/// Delegation program address, base58 encoded.
pub const DELEGATION_PROGRAM: &'static str = "DELeGGvXpWV2fqJUhqcF5ZSYMS4JTLjteaAMARRSaeSh";

/// Delegation program address as raw bytes: the base58 decoding of
/// [`DELEGATION_PROGRAM`].
pub const DELEGATION_PROGRAM_PUBKEY: Pubkey = [
    181, 183, 0, 225, 242, 87, 58, 192, 204, 6, 34, 1, 52, 74, 207, 151, 184, 53, 6, 235, 140, 229,
    25, 152, 204, 98, 126, 24, 147, 128, 167, 62,
];

/// Size of a delegation record account in bytes.
pub const DELEGATION_RECORD_SIZE: u64 = 96;

/// Instruction discriminator for undelegate operations.
pub const UNDELEGATE_DISCRIMINATOR: u8 = 3;

/// Length of an instruction discriminator.
pub const DISCRIMINATOR_LEN: usize = 8;

/// Position, in the account list of an undelegate instruction, of the
/// account that the service reports as the undelegated record. The value
/// belongs to the version of the delegation program that the service follows.
pub const DELEGATION_RECORD_ACCOUNT_INDEX: usize = 7;

/// Maximum pending subscription/unsubscription requests.
pub const MAX_PENDING_REQUESTS: usize = 256;

/// Maximum pending account/transaction updates.
pub const MAX_PENDING_UPDATES: usize = 8192;

/// Maximum reconnection attempts to the feed.
pub const MAX_RECONNECT_ATTEMPTS: u32 = 16;

/// Seconds to wait for the first update of a freshly opened feed.
pub const HEALTH_CHECK_TIMEOUT_SECS: u64 = 5;

} // verus!
