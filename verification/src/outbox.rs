use vstd::prelude::*;

use crate::types::AccountId;

verus! {

/// The append-only commit log for one owner: how many entries were ever
/// committed, and a running digest chaining every committed entry in
/// order. Created lazily by the first send; never closed.
#[derive(Clone, Debug)]
pub struct Outbox {
    /// The owner whose sends append to this outbox.
    pub authority: AccountId,
    /// Total number of entries committed; only ever increases.
    pub entry_count: u64,
    /// Running digest over all committed entries, in order; 32 bytes.
    pub commit_digest: Vec<u8>,
}

impl Outbox {
    /// Well-formedness: the digest is exactly one hash wide.
    pub open spec fn wf(self) -> bool {
        self.commit_digest@.len() == 32
    }

    /// Whether this record has been written at all. The host hands the
    /// first send a zeroed record; a zero authority marks it untouched.
    pub open spec fn initialized_spec(self) -> bool {
        !self.authority.is_zero_spec()
    }
}

} // verus!
