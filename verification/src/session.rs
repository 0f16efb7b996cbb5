use vstd::prelude::*;

use crate::types::{AccountId, EmbeddedOpcode};

verus! {

/// The most entries a session's program whitelist may hold.
pub const MAX_ALLOWED_PROGRAMS: usize = 10;

/// The most entries a session's opcode whitelist may hold.
pub const MAX_ALLOWED_OPCODES: usize = 10;

/// A per-(owner, grid) authorization record: whitelists, time-to-live, fee
/// cap and replay nonce. Created by `open_session` with nonce 0; only
/// `send_message` mutates it, by incrementing the nonce by exactly one per
/// accepted message; destroyed by `close_expired` after expiry.
#[derive(Clone, Debug)]
pub struct Session {
    /// Owner of this session.
    pub owner: AccountId,
    /// Target grid id.
    pub grid_id: u64,
    /// Whitelisted target programs; empty means every program is allowed.
    pub allowed_programs: Vec<AccountId>,
    /// Whitelisted embedded opcodes; empty means every opcode is allowed.
    pub allowed_opcodes: Vec<EmbeddedOpcode>,
    /// Time-to-live in slots; never zero.
    pub ttl_slots: u64,
    /// Largest fee budget one send may carry; never zero.
    pub fee_cap: u64,
    /// Current nonce, for replay protection.
    pub nonce: u128,
    /// The slot the session was created at.
    pub created_at: u64,
    /// Derivation tag for the record's storage key.
    pub bump: u8,
}

impl Session {
    /// Well-formedness: the invariants `open_session` establishes and every
    /// later operation preserves.
    pub open spec fn wf(self) -> bool {
        &&& self.ttl_slots > 0
        &&& self.fee_cap > 0
        &&& self.allowed_programs@.len() <= MAX_ALLOWED_PROGRAMS
        &&& self.allowed_opcodes@.len() <= MAX_ALLOWED_OPCODES
    }

    /// The last slot at which the session is still live: creation slot
    /// plus TTL, saturating at the largest slot. A session whose TTL would
    /// overflow the slot counter never expires.
    pub open spec fn expiry_slot(self) -> int {
        if self.created_at + self.ttl_slots > u64::MAX {
            u64::MAX as int
        } else {
            self.created_at + self.ttl_slots
        }
    }

    /// Whether the session is expired at `current_slot`: strictly past
    /// creation slot plus TTL.
    pub open spec fn is_expired_spec(self, current_slot: u64) -> bool {
        current_slot > self.expiry_slot()
    }

    /// Whether the whitelist admits `program`: an empty whitelist admits
    /// every program, a non-empty one exactly its entries.
    pub open spec fn program_allowed_spec(self, program: AccountId) -> bool {
        self.allowed_programs@.len() == 0 || self.allowed_programs@.contains(program)
    }

    /// Whether the whitelist admits `opcode`: an empty whitelist admits
    /// every opcode, a non-empty one exactly its entries.
    pub open spec fn opcode_allowed_spec(self, opcode: EmbeddedOpcode) -> bool {
        self.allowed_opcodes@.len() == 0 || self.allowed_opcodes@.contains(opcode)
    }

    /// Whether the session is expired at `current_slot`.
    pub fn is_expired(&self, current_slot: u64) -> (r: bool)
        ensures
            r == self.is_expired_spec(current_slot),
    {
        current_slot > self.created_at.saturating_add(self.ttl_slots)
    }

    /// Whether the program whitelist admits `program`.
    pub fn is_program_allowed(&self, program: &AccountId) -> (r: bool)
        ensures
            r == self.program_allowed_spec(*program),
    {
        if self.allowed_programs.len() == 0 {
            return true;
        }
        let mut i: usize = 0;
        while i < self.allowed_programs.len()
            invariant
                i <= self.allowed_programs@.len(),
                forall|j: int| 0 <= j < i ==> self.allowed_programs@[j] != *program,
            decreases self.allowed_programs@.len() - i,
        {
            if self.allowed_programs[i] == *program {
                return true;
            }
            i = i + 1;
        }
        false
    }

    /// Whether the opcode whitelist admits `opcode`.
    pub fn is_opcode_allowed(&self, opcode: EmbeddedOpcode) -> (r: bool)
        ensures
            r == self.opcode_allowed_spec(opcode),
    {
        if self.allowed_opcodes.len() == 0 {
            return true;
        }
        let mut i: usize = 0;
        while i < self.allowed_opcodes.len()
            invariant
                i <= self.allowed_opcodes@.len(),
                forall|j: int| 0 <= j < i ==> self.allowed_opcodes@[j] != opcode,
            decreases self.allowed_opcodes@.len() - i,
        {
            if self.allowed_opcodes[i] == opcode {
                return true;
            }
            i = i + 1;
        }
        false
    }
}

} // verus!
