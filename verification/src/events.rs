use vstd::prelude::*;

use crate::types::{AccountId, SonicMsgInner};

verus! {

/// Emitted when a new session is opened.
#[derive(Clone, Copy, Debug, PartialEq, Eq, Structural)]
pub struct SessionOpened {
    /// Storage key of the session record.
    pub session: AccountId,
    /// Session owner.
    pub owner: AccountId,
    /// Target grid id.
    pub grid_id: u64,
    /// Time-to-live in slots.
    pub ttl_slots: u64,
    /// Fee cap for the session.
    pub fee_cap: u64,
}

/// Emitted when an entry is committed to the outbox.
#[derive(Clone, Debug)]
pub struct EntryCommitted {
    /// The entry's content digest; 32 bytes.
    pub entry_id: Vec<u8>,
    /// Storage key of the session the entry was committed under.
    pub session: AccountId,
    /// The committed message payload.
    pub msg: SonicMsgInner,
    /// Fee budget allocated to this entry.
    pub fee_budget: u64,
    /// Zero-based index of the entry in the outbox: the entry count before
    /// this commit.
    pub entry_index: u64,
}

/// Emitted when a session is closed.
#[derive(Clone, Copy, Debug, PartialEq, Eq, Structural)]
pub struct SessionClosed {
    /// Storage key of the session that was closed.
    pub session: AccountId,
    /// Owner that received the refund.
    pub owner: AccountId,
    /// Amount refunded: the vault's whole remaining balance.
    pub refund_amount: u64,
}

} // verus!
