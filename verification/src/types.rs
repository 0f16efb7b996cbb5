use vstd::prelude::*;
use vstd::bytes::{spec_u64_to_le_bytes, spec_u128_to_le_bytes, u64_to_le_bytes, u128_to_le_bytes};

use crate::digest::{sha256, sha256_spec};

verus! {

/// A 32-byte account identity, held as four 64-bit little-endian words so
/// that identities compare structurally in contracts and executable code
/// alike. Word 0 holds the first eight bytes of the identity, word 3 the
/// last eight.
#[derive(Clone, Copy, Debug, PartialEq, Eq, Hash, Structural)]
pub struct AccountId {
    pub w0: u64,
    pub w1: u64,
    pub w2: u64,
    pub w3: u64,
}

impl AccountId {
    /// The identity whose 32 bytes are all zero; an outbox whose authority
    /// is this identity has never been written.
    pub open spec fn is_zero_spec(self) -> bool {
        self.w0 == 0 && self.w1 == 0 && self.w2 == 0 && self.w3 == 0
    }

    pub fn zero() -> (r: AccountId)
        ensures
            r.is_zero_spec(),
    {
        AccountId { w0: 0, w1: 0, w2: 0, w3: 0 }
    }

    pub fn is_zero(&self) -> (r: bool)
        ensures
            r == self.is_zero_spec(),
    {
        self.w0 == 0 && self.w1 == 0 && self.w2 == 0 && self.w3 == 0
    }
}

/// The 32-byte serialization of an account identity: the four words, each
/// little-endian, in order.
pub open spec fn account_id_bytes(a: AccountId) -> Seq<u8> {
    spec_u64_to_le_bytes(a.w0) + spec_u64_to_le_bytes(a.w1) + spec_u64_to_le_bytes(a.w2)
        + spec_u64_to_le_bytes(a.w3)
}

/// Operations a message may name by opcode instead of by target program.
#[derive(Clone, Copy, Debug, PartialEq, Eq, Structural)]
pub enum EmbeddedOpcode {
    /// Swap operation.
    Swap,
}

/// Parameters of an embedded swap.
#[derive(Clone, Copy, Debug, PartialEq, Eq, Structural)]
pub struct EmbeddedParams {
    /// Input token mint.
    pub in_mint: AccountId,
    /// Output token mint.
    pub out_mint: AccountId,
    /// Amount to swap.
    pub amount_in: u64,
    /// Slippage tolerance in basis points.
    pub slippage_bps: u16,
    /// Deadline slot for execution.
    pub deadline_slot: u64,
    /// Expected execution plan hash words, zero when none; laid out like the
    /// words of an `AccountId`.
    pub plan_hash_w0: u64,
    pub plan_hash_w1: u64,
    pub plan_hash_w2: u64,
    pub plan_hash_w3: u64,
}

/// One account an invoked call touches, with its access flags.
#[derive(Clone, Copy, Debug, PartialEq, Eq, Structural)]
pub struct SerializableAccountMeta {
    pub pubkey: AccountId,
    pub is_signer: bool,
    pub is_writable: bool,
}

/// The payload of a message: a closed sum of the shapes the relay
/// understands. The classifier dispatches on this tag and nowhere else.
#[derive(Clone, Debug)]
pub enum SonicMsgInner {
    /// Invoke a program on the remote domain.
    InvokeCall {
        /// Target program to invoke.
        target_program: AccountId,
        /// Accounts required for the call.
        accounts: Vec<SerializableAccountMeta>,
        /// Instruction data.
        data: Vec<u8>,
    },
    /// Run a built-in operation named by opcode.
    EmbeddedOpcode { opcode: EmbeddedOpcode, params: EmbeddedParams },
    /// Mirror a set of accounts to the remote domain; no whitelist applies
    /// to this shape.
    MirrorL1Accounts { accounts: Vec<AccountId> },
}

/// An outbound message as submitted by a caller.
#[derive(Clone, Debug)]
pub struct SonicMsg {
    /// Target grid id.
    pub grid_id: u64,
    /// Nonce for replay protection; must equal the session's current nonce.
    pub nonce: u128,
    /// Time-to-live in slots.
    pub ttl_slots: u64,
    /// Inner message.
    pub inner: SonicMsgInner,
}

/// One committed entry of the outbox. Only its digest survives in the
/// outbox record; the entry itself is handed to off-chain observers.
#[derive(Clone, Debug)]
pub struct OutboxEntry {
    /// Entry owner.
    pub owner: AccountId,
    /// The session the entry was committed under.
    pub session: AccountId,
    /// Fee budget for this entry.
    pub fee_budget: u64,
    /// The committed message.
    pub msg: SonicMsg,
    /// Reserved slot for a future off-chain-computed signature; currently
    /// unpopulated and unverified.
    pub sig: Vec<u8>,
}

/// The bytes an entry's content digest is computed over: owner, session,
/// fee budget and nonce, in order, each little-endian.
pub open spec fn entry_preimage(
    owner: AccountId,
    session: AccountId,
    fee_budget: u64,
    nonce: u128,
) -> Seq<u8> {
    account_id_bytes(owner) + account_id_bytes(session) + spec_u64_to_le_bytes(fee_budget)
        + spec_u128_to_le_bytes(nonce)
}

/// Appends the 32-byte serialization of `a` to `out`.
fn push_account_id_bytes(out: &mut Vec<u8>, a: &AccountId)
    ensures
        final(out)@ == old(out)@ + account_id_bytes(*a),
{
    let mut b0 = u64_to_le_bytes(a.w0);
    let mut b1 = u64_to_le_bytes(a.w1);
    let mut b2 = u64_to_le_bytes(a.w2);
    let mut b3 = u64_to_le_bytes(a.w3);
    out.append(&mut b0);
    out.append(&mut b1);
    out.append(&mut b2);
    out.append(&mut b3);
    assert(out@ =~= old(out)@ + account_id_bytes(*a));
}

/// The content digest of one entry: the hash of its owner, session, fee
/// budget and nonce, serialized as `entry_preimage` lays them out.
pub fn entry_digest(owner: &AccountId, session: &AccountId, fee_budget: u64, nonce: u128) -> (r:
    Vec<u8>)
    ensures
        r@ == sha256_spec(entry_preimage(*owner, *session, fee_budget, nonce)),
        r@.len() == 32,
{
    let mut preimage: Vec<u8> = Vec::new();
    push_account_id_bytes(&mut preimage, owner);
    push_account_id_bytes(&mut preimage, session);
    let mut fee = u64_to_le_bytes(fee_budget);
    preimage.append(&mut fee);
    let mut nonce_bytes = u128_to_le_bytes(nonce);
    preimage.append(&mut nonce_bytes);
    assert(preimage@ =~= entry_preimage(*owner, *session, fee_budget, nonce));
    sha256(&preimage)
}

impl OutboxEntry {
    /// The content digest of this entry: the hash of its owner, session,
    /// fee budget and nonce.
    pub fn hash(&self) -> (r: Vec<u8>)
        ensures
            r@ == sha256_spec(
                entry_preimage(self.owner, self.session, self.fee_budget, self.msg.nonce),
            ),
            r@.len() == 32,
    {
        entry_digest(&self.owner, &self.session, self.fee_budget, self.msg.nonce)
    }
}

} // verus!
