use vstd::prelude::*;

verus! {

/// A 20-byte account identifier, derived from a public key.
pub type ETHAddress = [u8; 20];

/// A 32-byte block hash (the SHA3-256 of the block's serialization).
pub type BlockHash = [u8; 32];

/// The block-header nonce searched for by the miner.
pub type ProofOfWork = u32;

/// Byte-wise equality of two addresses.
pub fn addr_eq(a: &ETHAddress, b: &ETHAddress) -> (r: bool)
    ensures
        r <==> a@ == b@,
{
    let mut i: usize = 0;
    while i < 20
        invariant
            i <= 20,
            forall|j: int| 0 <= j < i ==> a@[j] == b@[j],
        decreases 20 - i,
    {
        if a[i] != b[i] {
            assert(a@ != b@);
            return false;
        }
        i += 1;
    }
    assert(a@ =~= b@);
    true
}

} // verus!
