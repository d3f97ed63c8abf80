//! Identifiers, errors and the updates published to subscribers.

use vstd::prelude::*;

use helius_laserstream::LaserstreamError;

use crate::consts::PUBKEY_LEN;

verus! {

/// Opaque declaration of the feed client's error type,
/// `helius_laserstream::LaserstreamError`. The library only carries its
/// values; nothing is claimed of what they hold.
#[verifier::external_type_specification]
#[verifier::external_body]
pub struct ExLaserstreamError(helius_laserstream::LaserstreamError);

/// Solana public key (32 bytes).
pub type Pubkey = [u8; 32];

/// Solana slot number.
pub type Slot = u64;

/// The byte sequences of a list of pubkeys.
pub open spec fn pubkeys_view(records: Seq<Pubkey>) -> Seq<Seq<u8>> {
    records.map_values(|record: Pubkey| record@)
}

/// Whether `bytes` equals the pubkey `key`, byte for byte.
pub fn pubkey_equals(key: &Pubkey, bytes: &[u8]) -> (same: bool)
    ensures
        same == (key@ == bytes@),
{
    if bytes.len() != PUBKEY_LEN {
        return false;
    }
    let mut i: usize = 0;
    while i < PUBKEY_LEN
        invariant
            0 <= i <= PUBKEY_LEN,
            bytes@.len() == PUBKEY_LEN,
            forall|j: int| 0 <= j < i ==> key@[j] == bytes@[j],
        decreases PUBKEY_LEN - i,
    {
        if key[i] != bytes[i] {
            return false;
        }
        i += 1;
    }
    assert(key@ =~= bytes@);
    true
}

/// Copies `bytes` into a pubkey where it has exactly the width of one.
pub fn pubkey_from_bytes(bytes: &[u8]) -> (key: Option<Pubkey>)
    ensures
        match key {
            Some(key) => key@ == bytes@,
            None => bytes@.len() != PUBKEY_LEN,
        },
{
    if bytes.len() != PUBKEY_LEN {
        return None;
    }
    let mut key: Pubkey = [0u8; 32];
    let mut i: usize = 0;
    while i < PUBKEY_LEN
        invariant
            0 <= i <= PUBKEY_LEN,
            bytes@.len() == PUBKEY_LEN,
            forall|j: int| 0 <= j < i ==> key@[j] == bytes@[j],
        decreases PUBKEY_LEN - i,
    {
        key[i] = bytes[i];
        i += 1;
    }
    assert(key@ =~= bytes@);
    Some(key)
}

/// Errors that can occur during DLP synchronization.
#[derive(Debug)]
pub enum DlpSyncError {
    /// Connection-related error.
    Connection(&'static str),
    /// Error reported by the feed client.
    LaserStream(LaserstreamError),
}

/// Account updates published to subscribers.
#[derive(Debug, Clone, PartialEq, Eq)]
pub enum AccountUpdate {
    /// A delegation record was updated.
    Delegated {
        /// The delegation record pubkey.
        record: Pubkey,
        /// The account data.
        data: Vec<u8>,
        /// The slot at which the update occurred.
        slot: Slot,
    },
    /// A delegation record was undelegated.
    Undelegated {
        /// The delegation record pubkey.
        record: Pubkey,
        /// The slot at which the undelegation occurred.
        slot: Slot,
    },
    /// The sync service has terminated.
    SyncTerminated,
}

/// Mathematical value of an [`AccountUpdate`].
pub enum UpdateView {
    Delegated { record: Seq<u8>, data: Seq<u8>, slot: Slot },
    Undelegated { record: Seq<u8>, slot: Slot },
    SyncTerminated,
}

impl View for AccountUpdate {
    type V = UpdateView;

    open spec fn view(&self) -> UpdateView {
        match *self {
            AccountUpdate::Delegated { record, data, slot } => UpdateView::Delegated {
                record: record@,
                data: data@,
                slot,
            },
            AccountUpdate::Undelegated { record, slot } => UpdateView::Undelegated {
                record: record@,
                slot,
            },
            AccountUpdate::SyncTerminated => UpdateView::SyncTerminated,
        }
    }
}

} // verus!
