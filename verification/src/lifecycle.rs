use vstd::prelude::*;

use crate::errors::RouterError;
use crate::events::{SessionClosed, SessionOpened};
use crate::session::{Session, MAX_ALLOWED_OPCODES, MAX_ALLOWED_PROGRAMS};
use crate::types::{AccountId, EmbeddedOpcode};
use crate::vault::FeeVault;

verus! {

/// Why an open is refused, if it is: the first whitelist that is over its
/// cap, programs checked first.
pub open spec fn open_error_spec(n_programs: int, n_opcodes: int) -> Option<RouterError> {
    if n_programs > MAX_ALLOWED_PROGRAMS {
        Some(RouterError::TooManyAllowedPrograms)
    } else if n_opcodes > MAX_ALLOWED_OPCODES {
        Some(RouterError::TooManyAllowedOpcodes)
    } else {
        None
    }
}

/// Opens a session: builds the session record, with nonce 0 and the given
/// whitelists, a zero-balance fee vault for the same owner, and the
/// `SessionOpened` event. The host authenticated `owner`, supplies the
/// current slot and the derived storage key `session_key`, and persists
/// both records only on success.
pub fn open_session(
    owner: AccountId,
    grid_id: u64,
    allowed_programs: Vec<AccountId>,
    allowed_opcodes: Vec<EmbeddedOpcode>,
    ttl_slots: u64,
    fee_cap: u64,
    current_slot: u64,
    session_key: AccountId,
    bump: u8,
) -> (r: Result<(Session, FeeVault, SessionOpened), RouterError>)
    requires
        ttl_slots > 0,
        fee_cap > 0,
    ensures
        match r {
            Err(e) => Some(e) == open_error_spec(
                allowed_programs@.len() as int,
                allowed_opcodes@.len() as int,
            ),
            Ok((session, vault, ev)) => {
                &&& open_error_spec(
                    allowed_programs@.len() as int,
                    allowed_opcodes@.len() as int,
                ) is None
                &&& session.owner == owner
                &&& session.grid_id == grid_id
                &&& session.allowed_programs == allowed_programs
                &&& session.allowed_opcodes == allowed_opcodes
                &&& session.ttl_slots == ttl_slots
                &&& session.fee_cap == fee_cap
                &&& session.nonce == 0
                &&& session.created_at == current_slot
                &&& session.bump == bump
                &&& session.wf()
                &&& vault == (FeeVault { authority: owner, balance: 0 })
                &&& ev == (SessionOpened { session: session_key, owner, grid_id, ttl_slots, fee_cap })
            },
        },
{
    if allowed_programs.len() > MAX_ALLOWED_PROGRAMS {
        return Err(RouterError::TooManyAllowedPrograms);
    }
    if allowed_opcodes.len() > MAX_ALLOWED_OPCODES {
        return Err(RouterError::TooManyAllowedOpcodes);
    }
    let session = Session {
        owner,
        grid_id,
        allowed_programs,
        allowed_opcodes,
        ttl_slots,
        fee_cap,
        nonce: 0,
        created_at: current_slot,
        bump,
    };
    let vault = FeeVault { authority: owner, balance: 0 };
    let ev = SessionOpened { session: session_key, owner, grid_id, ttl_slots, fee_cap };
    Ok((session, vault, ev))
}

/// Why a close is refused, if it is: the session must be expired at
/// `current_slot`, and the caller must be its owner. The ownership check is
/// redundant with the storage key's derivation but re-verified here.
pub open spec fn close_error_spec(session: Session, caller: AccountId, current_slot: u64) -> Option<
    RouterError,
> {
    if !session.is_expired_spec(current_slot) {
        Some(RouterError::SessionStillActive)
    } else if session.owner != caller {
        Some(RouterError::UnauthorizedProgram)
    } else {
        None
    }
}

/// Closes an expired session: decides whether the close is allowed and, if
/// so, returns the `SessionClosed` event carrying the refund — the vault's
/// whole remaining balance. On success the host transfers that refund to
/// the owner and deletes the session and vault records; on an error it
/// leaves both untouched.
pub fn close_expired(
    session: &Session,
    vault: &FeeVault,
    caller: AccountId,
    session_key: AccountId,
    current_slot: u64,
) -> (r: Result<SessionClosed, RouterError>)
    ensures
        match r {
            Err(e) => Some(e) == close_error_spec(*session, caller, current_slot),
            Ok(ev) => {
                &&& close_error_spec(*session, caller, current_slot) is None
                &&& ev == (SessionClosed {
                    session: session_key,
                    owner: session.owner,
                    refund_amount: vault.balance,
                })
            },
        },
{
    if !session.is_expired(current_slot) {
        return Err(RouterError::SessionStillActive);
    }
    if !(session.owner == caller) {
        return Err(RouterError::UnauthorizedProgram);
    }
    Ok(SessionClosed { session: session_key, owner: session.owner, refund_amount: vault.balance })
}

} // verus!
