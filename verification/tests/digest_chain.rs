use router::{
    chain_digest, deposit_fee, open_session, send_message, verify_entry_signature, zero_digest_exec,
    AccountId, Outbox, OutboxEntry, SonicMsg, SonicMsgInner,
};

fn account(n: u64) -> AccountId {
    AccountId { w0: n, w1: 0, w2: 0, w3: 0 }
}

fn mirror_msg(grid_id: u64, nonce: u128) -> SonicMsg {
    SonicMsg {
        grid_id,
        nonce,
        ttl_slots: 10,
        inner: SonicMsgInner::MirrorL1Accounts { accounts: Vec::new() },
    }
}

fn entry(owner: AccountId, session: AccountId, fee_budget: u64, nonce: u128) -> OutboxEntry {
    OutboxEntry { owner, session, fee_budget, msg: mirror_msg(1, nonce), sig: vec![0u8; 64] }
}

#[test]
fn entry_hash_is_a_real_digest() {
    // A digest is 32 bytes and is not the preimage handed back: for the
    // all-zero entry a copied prefix of the preimage would be all zeros.
    let zero = AccountId::zero();
    let id = entry(zero, zero, 0, 0).hash();
    assert_eq!(id.len(), 32);
    assert!(id.iter().any(|&b| b != 0));
}

#[test]
fn entry_hash_depends_on_every_committed_field() {
    let base = entry(account(1), account(2), 3, 4).hash();
    assert_ne!(entry(account(9), account(2), 3, 4).hash(), base);
    assert_ne!(entry(account(1), account(9), 3, 4).hash(), base);
    assert_ne!(entry(account(1), account(2), 9, 4).hash(), base);
    assert_ne!(entry(account(1), account(2), 3, 9).hash(), base);
    // The signature slot is not part of the digest.
    let mut signed = entry(account(1), account(2), 3, 4);
    signed.sig = vec![7u8; 64];
    assert_eq!(signed.hash(), base);
}

#[test]
fn commit_digest_chains_the_entries_in_order() {
    let owner = account(21);
    let key = account(22);
    let (mut session, mut vault, _) =
        open_session(owner, 1, Vec::new(), Vec::new(), 10, 100, 0, key, 0).unwrap();
    deposit_fee(&mut vault, 100).unwrap();
    let mut outbox =
        Outbox { authority: AccountId::zero(), entry_count: 0, commit_digest: Vec::new() };

    let first = send_message(
        &mut session,
        &mut vault,
        &mut outbox,
        owner,
        key,
        mirror_msg(1, 0),
        5,
        1,
    )
    .unwrap();
    let expected_first_id = entry(owner, key, 5, 0).hash();
    assert_eq!(first.entry_id, expected_first_id);
    let after_one = chain_digest(&zero_digest_exec(), &expected_first_id);
    assert_eq!(outbox.commit_digest, after_one);

    let second = send_message(
        &mut session,
        &mut vault,
        &mut outbox,
        owner,
        key,
        mirror_msg(1, 1),
        6,
        1,
    )
    .unwrap();
    let expected_second_id = entry(owner, key, 6, 1).hash();
    assert_eq!(second.entry_id, expected_second_id);
    let after_two = chain_digest(&after_one, &expected_second_id);
    assert_eq!(outbox.commit_digest, after_two);

    // The chain is order-dependent: swapping the two entries gives a
    // different running digest.
    let swapped = chain_digest(
        &chain_digest(&zero_digest_exec(), &expected_second_id),
        &expected_first_id,
    );
    assert_ne!(outbox.commit_digest, swapped);
}

#[test]
fn entry_signature_compares_bytes() {
    let mut e = entry(account(1), account(2), 3, 4);
    e.sig = vec![5u8; 64];
    assert_eq!(verify_entry_signature(&e, &vec![5u8; 64]), Ok(true));
    let mut other = vec![5u8; 64];
    other[63] = 6;
    assert_eq!(verify_entry_signature(&e, &other), Ok(false));
    assert_eq!(verify_entry_signature(&e, &vec![5u8; 63]), Ok(false));
}
