use vstd::prelude::*;

use crate::classifier::{auth_error_spec, authorize, authorized_spec};
use crate::digest::{chain_digest, sha256_spec, zero_digest, zero_digest_exec};
use crate::errors::RouterError;
use crate::events::EntryCommitted;
use crate::outbox::Outbox;
use crate::session::Session;
use crate::types::{entry_digest, entry_preimage, AccountId, SonicMsg};
use crate::vault::FeeVault;

verus! {

/// The number of entries committed before this send: the outbox's count,
/// or zero for an outbox no send has written yet.
pub open spec fn pre_entry_count(outbox: Outbox) -> int {
    if outbox.initialized_spec() {
        outbox.entry_count as int
    } else {
        0
    }
}

/// The running digest this send chains from: the outbox's digest, or the
/// zero digest for an outbox no send has written yet.
pub open spec fn prev_digest_spec(outbox: Outbox) -> Seq<u8> {
    if outbox.initialized_spec() {
        outbox.commit_digest@
    } else {
        zero_digest()
    }
}

/// The digest of the entry a send commits: the hash over owner, session
/// key, fee budget and nonce.
pub open spec fn entry_id_spec(
    owner: AccountId,
    session_key: AccountId,
    fee_budget: u64,
    nonce: u128,
) -> Seq<u8> {
    sha256_spec(entry_preimage(owner, session_key, fee_budget, nonce))
}

/// Why a send is refused, if it is. The checks run in this order and the
/// first failure wins: the message's grid id, ownership, expiry, nonce,
/// fee cap, vault
/// balance, whitelist authorization, then the two counter overflows, which
/// are detected before any state is touched.
pub open spec fn send_error_spec(
    session: Session,
    vault: FeeVault,
    outbox: Outbox,
    caller: AccountId,
    msg: SonicMsg,
    fee_budget: u64,
    current_slot: u64,
) -> Option<RouterError> {
    if msg.grid_id != session.grid_id {
        Some(RouterError::InvalidGridId)
    } else if session.owner != caller {
        Some(RouterError::UnauthorizedProgram)
    } else if session.is_expired_spec(current_slot) {
        Some(RouterError::SessionExpired)
    } else if msg.nonce != session.nonce {
        Some(RouterError::InvalidNonce)
    } else if fee_budget > session.fee_cap {
        Some(RouterError::FeeCapExceeded)
    } else if vault.balance < fee_budget {
        Some(RouterError::InsufficientFees)
    } else if !authorized_spec(session, msg.inner) {
        Some(auth_error_spec(msg.inner))
    } else if session.nonce == u128::MAX {
        Some(RouterError::ArithmeticOverflow)
    } else if pre_entry_count(outbox) == u64::MAX {
        Some(RouterError::ArithmeticOverflow)
    } else {
        None
    }
}

/// Commits a message to the owner's outbox. All checks precede all
/// effects, so a rejected send leaves the session, the vault and the
/// outbox exactly as they were. An accepted send, as one atomic unit,
/// initializes the outbox if this is the owner's first send, withdraws the
/// fee budget from the vault, increments the session nonce and the entry
/// count by exactly one each, chains the entry's digest onto the running
/// commit digest, and reports the committed entry, indexed by the entry
/// count before the increment. The host authenticated `caller`, supplies
/// the current slot and the session's storage key, and persists the three
/// records only on success.
pub fn send_message(
    session: &mut Session,
    vault: &mut FeeVault,
    outbox: &mut Outbox,
    caller: AccountId,
    session_key: AccountId,
    msg: SonicMsg,
    fee_budget: u64,
    current_slot: u64,
) -> (r: Result<EntryCommitted, RouterError>)
    requires
        old(session).wf(),
    ensures
        final(session).wf(),
        match r {
            Err(e) => {
                &&& Some(e) == send_error_spec(
                    *old(session),
                    *old(vault),
                    *old(outbox),
                    caller,
                    msg,
                    fee_budget,
                    current_slot,
                )
                &&& *final(session) == *old(session)
                &&& *final(vault) == *old(vault)
                &&& *final(outbox) == *old(outbox)
            },
            Ok(ev) => {
                &&& send_error_spec(
                    *old(session),
                    *old(vault),
                    *old(outbox),
                    caller,
                    msg,
                    fee_budget,
                    current_slot,
                ) is None
                &&& final(session).nonce == old(session).nonce + 1
                &&& final(session).owner == old(session).owner
                &&& final(session).grid_id == old(session).grid_id
                &&& final(session).allowed_programs == old(session).allowed_programs
                &&& final(session).allowed_opcodes == old(session).allowed_opcodes
                &&& final(session).ttl_slots == old(session).ttl_slots
                &&& final(session).fee_cap == old(session).fee_cap
                &&& final(session).created_at == old(session).created_at
                &&& final(session).bump == old(session).bump
                &&& final(vault).authority == old(vault).authority
                &&& final(vault).balance == old(vault).balance - fee_budget
                &&& final(outbox).authority == if old(outbox).initialized_spec() {
                    old(outbox).authority
                } else {
                    caller
                }
                &&& final(outbox).entry_count == pre_entry_count(*old(outbox)) + 1
                &&& final(outbox).commit_digest@ == sha256_spec(
                    prev_digest_spec(*old(outbox)) + entry_id_spec(
                        caller,
                        session_key,
                        fee_budget,
                        old(session).nonce,
                    ),
                )
                &&& final(outbox).wf()
                &&& ev.entry_id@ == entry_id_spec(
                    caller,
                    session_key,
                    fee_budget,
                    old(session).nonce,
                )
                &&& ev.session == session_key
                &&& ev.msg == msg.inner
                &&& ev.fee_budget == fee_budget
                &&& ev.entry_index == pre_entry_count(*old(outbox))
            },
        },
{
    if msg.grid_id != session.grid_id {
        return Err(RouterError::InvalidGridId);
    }
    if !(session.owner == caller) {
        return Err(RouterError::UnauthorizedProgram);
    }
    if session.is_expired(current_slot) {
        return Err(RouterError::SessionExpired);
    }
    if msg.nonce != session.nonce {
        return Err(RouterError::InvalidNonce);
    }
    if fee_budget > session.fee_cap {
        return Err(RouterError::FeeCapExceeded);
    }
    if !vault.has_sufficient_balance(fee_budget) {
        return Err(RouterError::InsufficientFees);
    }
    match authorize(session, &msg.inner) {
        Ok(()) => {},
        Err(e) => {
            return Err(e);
        },
    }
    if session.nonce == u128::MAX {
        return Err(RouterError::ArithmeticOverflow);
    }
    let initialized = !outbox.authority.is_zero();
    let pre_count: u64 = if initialized {
        outbox.entry_count
    } else {
        0
    };
    if pre_count == u64::MAX {
        return Err(RouterError::ArithmeticOverflow);
    }
    // Every check has passed: from here on the commit is one atomic unit.
    let entry_id = entry_digest(&caller, &session_key, fee_budget, msg.nonce);
    let prev = if initialized {
        outbox.commit_digest.clone()
    } else {
        zero_digest_exec()
    };
    assert(prev@ =~= prev_digest_spec(*old(outbox)));
    let new_digest = chain_digest(&prev, &entry_id);
    if !initialized {
        outbox.authority = caller;
    }
    outbox.entry_count = pre_count + 1;
    outbox.commit_digest = new_digest;
    match vault.withdraw(fee_budget) {
        Ok(()) => {},
        Err(_) => {
            // The balance check above rules this arm out.
            proof {
                assert(false);
            }
            return Err(RouterError::InsufficientFees);
        },
    }
    session.nonce = session.nonce + 1;
    Ok(
        EntryCommitted {
            entry_id,
            session: session_key,
            msg: msg.inner,
            fee_budget,
            entry_index: pre_count,
        },
    )
}

} // verus!
