use vstd::prelude::*;

use crate::errors::RouterError;
use crate::types::OutboxEntry;

verus! {

/// Checks a signature against an entry's reserved signature slot. The
/// signature itself is computed off-chain and is not cryptographically
/// verified here; this only compares the bytes.
pub fn verify_entry_signature(entry: &OutboxEntry, signature: &Vec<u8>) -> (r: Result<
    bool,
    RouterError,
>)
    ensures
        r == Ok::<bool, RouterError>(entry.sig@ == signature@),
{
    if entry.sig.len() != signature.len() {
        return Ok(false);
    }
    let mut i: usize = 0;
    while i < entry.sig.len()
        invariant
            i <= entry.sig@.len(),
            entry.sig@.len() == signature@.len(),
            forall|j: int| 0 <= j < i ==> entry.sig@[j] == signature@[j],
        decreases entry.sig@.len() - i,
    {
        if entry.sig[i] != signature[i] {
            assert(entry.sig@ != signature@);
            return Ok(false);
        }
        i = i + 1;
    }
    assert(entry.sig@ =~= signature@);
    Ok(true)
}

} // verus!
