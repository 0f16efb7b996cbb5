use vstd::prelude::*;

verus! {

/// The SHA-256 digest of a byte sequence. The digest is a function of the
/// bytes alone; what it is on given bytes is not stated here, only that the
/// outside hasher computes it.
pub uninterp spec fn sha256_spec(data: Seq<u8>) -> Seq<u8>;

/// Relies on solana_sha256_hasher::hash: returns the SHA-256 digest of the
/// given bytes, a function of the bytes alone, 32 bytes long.
#[verifier::external_body]
pub(crate) fn sha256(data: &Vec<u8>) -> (r: Vec<u8>)
    ensures
        r@ == sha256_spec(data@),
        r@.len() == 32,
{
    solana_sha256_hasher::hash(data.as_slice()).to_bytes().to_vec()
}

/// The digest of a fresh outbox: 32 zero bytes, the value the chain of
/// committed entries starts from.
pub open spec fn zero_digest() -> Seq<u8> {
    Seq::new(32, |i: int| 0u8)
}

/// Builds the 32 zero bytes a fresh outbox's chain starts from.
pub fn zero_digest_exec() -> (r: Vec<u8>)
    ensures
        r@ == zero_digest(),
{
    let mut r: Vec<u8> = Vec::new();
    let mut i: usize = 0;
    while i < 32
        invariant
            i <= 32,
            r@ =~= Seq::new(i as nat, |j: int| 0u8),
        decreases 32 - i,
    {
        r.push(0u8);
        i = i + 1;
    }
    assert(r@ =~= zero_digest());
    r
}

/// Extends a running digest by one entry: the new running digest is the
/// hash of the previous running digest followed by the entry's digest, so
/// the chain commits to every entry and to their order.
pub fn chain_digest(prev: &Vec<u8>, entry_id: &Vec<u8>) -> (r: Vec<u8>)
    ensures
        r@ == sha256_spec(prev@ + entry_id@),
        r@.len() == 32,
{
    let mut preimage: Vec<u8> = Vec::new();
    let mut p = prev.clone();
    let mut e = entry_id.clone();
    preimage.append(&mut p);
    preimage.append(&mut e);
    assert(preimage@ =~= prev@ + entry_id@);
    sha256(&preimage)
}

} // verus!
