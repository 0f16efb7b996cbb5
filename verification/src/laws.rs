use vstd::prelude::*;

use crate::errors::RouterError;
use crate::lifecycle::close_error_spec;
use crate::outbox::Outbox;
use crate::send::send_error_spec;
use crate::session::Session;
use crate::types::{AccountId, EmbeddedOpcode, SonicMsg};
use crate::vault::{deposit_result, withdraw_result, FeeVault};

verus! {

/// Law: a session's nonce counts its successful sends. `open_session`
/// creates the session with nonce 0, and `send_message`'s contract shows
/// that every accepted send takes the nonce from n to exactly n + 1 while
/// a rejected send leaves it unchanged; so after N accepted sends the
/// nonce is exactly N. `nonces` is the session's nonce observed before
/// each accepted send, and after the last one.
pub proof fn lemma_nonce_counts_successful_sends(nonces: Seq<u128>)
    requires
        nonces.len() > 0,
        nonces[0] == 0,
        forall|i: int|
            #![trigger nonces[i]]
            0 <= i < nonces.len() - 1 ==> nonces[i + 1] == nonces[i] + 1,
    ensures
        forall|i: int| 0 <= i < nonces.len() ==> nonces[i] == i,
    decreases nonces.len(),
{
    if nonces.len() > 1 {
        let prefix = nonces.drop_last();
        assert forall|i: int| #![trigger prefix[i]] 0 <= i < prefix.len() - 1 implies prefix[i
            + 1] == prefix[i] + 1 by {
            assert(nonces[i + 1] == nonces[i] + 1);
        }
        lemma_nonce_counts_successful_sends(prefix);
        assert forall|i: int| 0 <= i < nonces.len() implies nonces[i] == i by {
            if i < nonces.len() - 1 {
                assert(prefix[i] == i);
            } else {
                assert(prefix[i - 1] == i - 1);
                assert(nonces[(i - 1) + 1] == nonces[i - 1] + 1);
            }
        }
    }
}

/// Law: the nonce check is exact. For a send that passes the checks ahead
/// of the nonce, a message nonce equal to the session's current nonce is
/// not refused for the nonce, while any other — a replay of an old nonce
/// or a nonce ahead of the session — is refused with `InvalidNonce`.
pub proof fn lemma_nonce_check_is_exact(
    s: Session,
    v: FeeVault,
    o: Outbox,
    caller: AccountId,
    msg: SonicMsg,
    fee_budget: u64,
    current_slot: u64,
)
    requires
        msg.grid_id == s.grid_id,
        s.owner == caller,
        !s.is_expired_spec(current_slot),
    ensures
        msg.nonce != s.nonce ==> send_error_spec(s, v, o, caller, msg, fee_budget, current_slot)
            == Some(RouterError::InvalidNonce),
        msg.nonce == s.nonce ==> send_error_spec(s, v, o, caller, msg, fee_budget, current_slot)
            != Some(RouterError::InvalidNonce),
{
}

/// Law: the outbox's entry count counts successful sends. `send_message`'s
/// contract shows that every accepted send takes the entry count from c to
/// exactly c + 1 while a rejected send leaves it unchanged; so over any
/// run of accepted sends the count grows by exactly one per send. `counts`
/// is the entry count observed before each accepted send, and after the
/// last one.
pub proof fn lemma_entry_count_counts_successful_sends(counts: Seq<u64>)
    requires
        counts.len() > 0,
        forall|i: int|
            #![trigger counts[i]]
            0 <= i < counts.len() - 1 ==> counts[i + 1] == counts[i] + 1,
    ensures
        forall|i: int|
            #![trigger counts[i]]
            0 <= i < counts.len() ==> counts[i] == counts[0] + i,
    decreases counts.len(),
{
    if counts.len() > 1 {
        let prefix = counts.drop_last();
        assert forall|i: int| #![trigger prefix[i]] 0 <= i < prefix.len() - 1 implies prefix[i
            + 1] == prefix[i] + 1 by {
            assert(counts[i + 1] == counts[i] + 1);
        }
        lemma_entry_count_counts_successful_sends(prefix);
        assert forall|i: int| #![trigger counts[i]] 0 <= i < counts.len() implies counts[i]
            == counts[0] + i by {
            if i < counts.len() - 1 {
                assert(prefix[i] == prefix[0] + i);
            } else {
                assert(prefix[i - 1] == prefix[0] + i - 1);
                assert(counts[(i - 1) + 1] == counts[i - 1] + 1);
            }
        }
    }
}

/// Law: expiry is a strict boundary. A session with TTL T created at slot
/// C is not expired at slot C + T and is expired at slot C + T + 1, and
/// `close_expired` at slot C + T fails with `SessionStillActive`. The
/// bound keeps C + T + 1 a representable slot: a session whose TTL
/// saturates the slot counter never expires.
pub proof fn lemma_expiry_boundary(s: Session, caller: AccountId)
    requires
        s.created_at + s.ttl_slots < u64::MAX,
        caller == s.owner,
    ensures
        !s.is_expired_spec((s.created_at + s.ttl_slots) as u64),
        s.is_expired_spec((s.created_at + s.ttl_slots + 1) as u64),
        close_error_spec(s, caller, (s.created_at + s.ttl_slots) as u64) == Some(
            RouterError::SessionStillActive,
        ),
{
}

/// Law: the fee cap is an inclusive bound. For a send that passes the
/// checks ahead of the cap, a fee budget equal to the cap is not refused
/// for the cap, while any budget above it is refused with
/// `FeeCapExceeded`.
pub proof fn lemma_fee_cap_boundary(
    s: Session,
    v: FeeVault,
    o: Outbox,
    caller: AccountId,
    msg: SonicMsg,
    current_slot: u64,
)
    requires
        msg.grid_id == s.grid_id,
        s.owner == caller,
        !s.is_expired_spec(current_slot),
        msg.nonce == s.nonce,
    ensures
        send_error_spec(s, v, o, caller, msg, s.fee_cap, current_slot) != Some(
            RouterError::FeeCapExceeded,
        ),
        forall|fee_budget: u64|
            fee_budget > s.fee_cap ==> send_error_spec(s, v, o, caller, msg, fee_budget,
            current_slot) == Some(RouterError::FeeCapExceeded),
{
}

/// Law: an empty whitelist is the allow-all sentinel. A session whose
/// program whitelist is empty admits every program, and one whose opcode
/// whitelist is empty admits every opcode.
pub proof fn lemma_empty_whitelists_allow_all(s: Session)
    requires
        s.allowed_programs@.len() == 0,
        s.allowed_opcodes@.len() == 0,
    ensures
        forall|p: AccountId| s.program_allowed_spec(p),
        forall|op: EmbeddedOpcode| s.opcode_allowed_spec(op),
{
}

/// Law: a non-empty whitelist admits exactly its entries. A program or
/// opcode is allowed if and only if the whitelist contains it.
pub proof fn lemma_nonempty_whitelists_are_exact(s: Session)
    requires
        s.allowed_programs@.len() > 0,
        s.allowed_opcodes@.len() > 0,
    ensures
        forall|p: AccountId| s.program_allowed_spec(p) <==> s.allowed_programs@.contains(p),
        forall|op: EmbeddedOpcode| s.opcode_allowed_spec(op) <==> s.allowed_opcodes@.contains(op),
{
}

/// Law: deposits and withdrawals round-trip. From an empty vault, a
/// deposit of `a` followed by a withdrawal of `b <= a` both succeed and
/// leave the balance at exactly a - b.
pub proof fn lemma_deposit_withdraw_round_trip(v: FeeVault, a: u64, b: u64)
    requires
        v.balance == 0,
        b <= a,
    ensures
        deposit_result(v, a) is Ok,
        withdraw_result(deposit_result(v, a)->Ok_0, b) is Ok,
        withdraw_result(deposit_result(v, a)->Ok_0, b)->Ok_0.balance == a - b,
{
}

/// Law: an overdraft always fails. Withdrawing more than the balance
/// yields `InsufficientFees`, and `FeeVault::withdraw`'s contract then
/// leaves the vault unchanged.
pub proof fn lemma_overdraw_fails(v: FeeVault, amount: u64)
    requires
        amount > v.balance,
    ensures
        withdraw_result(v, amount) == Err::<FeeVault, RouterError>(RouterError::InsufficientFees),
{
}

} // verus!
