use vstd::prelude::*;
use vstd::bytes::{spec_u32_to_le_bytes, spec_u64_to_le_bytes};
use crate::aliases::{BlockHash, ETHAddress, ProofOfWork};
use crate::crypto;
use crate::crypto::sha3_256_of;
use crate::ethtxn::{txn_bytes, txn_eqv, ETHTxn};
use crate::serial;

verus! {

/// A block: the previous block's hash, the miner to credit, the sealed
/// transactions, the difficulty target and the proof-of-work nonce.
#[derive(Debug)]
pub struct ETHBlock {
    pub prev_hash: BlockHash,
    pub miner_id: ETHAddress,
    pub transactions: Vec<ETHTxn>,
    pub difficulty: u32,
    pub nonce: ProofOfWork,
}

/// The concatenated serializations of a transaction sequence.
pub open spec fn txns_bytes(ts: Seq<ETHTxn>) -> Seq<u8>
    decreases ts.len(),
{
    if ts.len() == 0 {
        Seq::empty()
    } else {
        txn_bytes(ts[0]) + txns_bytes(ts.skip(1))
    }
}

/// The byte-exact serialization of a block: previous hash, miner,
/// the transactions (signatures excluded) behind their count, then
/// difficulty and nonce, integers little-endian.
pub open spec fn block_bytes(b: ETHBlock) -> Seq<u8> {
    b.prev_hash@ + b.miner_id@ + spec_u64_to_le_bytes(b.transactions@.len() as u64) + txns_bytes(
        b.transactions@,
    ) + spec_u32_to_le_bytes(b.difficulty) + spec_u32_to_le_bytes(b.nonce)
}

/// The block's hash: SHA3-256 of its serialization.
pub open spec fn block_hash(b: ETHBlock) -> Seq<u8> {
    sha3_256_of(block_bytes(b))
}

/// The difficulty predicate: the first `difficulty / 8` bytes are
/// zero and the next byte is at most `255 >> (difficulty % 8)` — that
/// is, the hash starts with at least `difficulty` zero bits (see
/// `lemma_valid_hash_is_leading_zero_bits`).
pub open spec fn spec_valid_hash(h: Seq<u8>, difficulty: u32) -> bool {
    &&& forall|i: int| 0 <= i < difficulty / 8 ==> h[i] == 0
    &&& (h[(difficulty / 8) as int] as u32) <= 255u32 >> (difficulty % 8)
}

/// The j-th bit of a hash in big-endian bit order: bit 0 is the top
/// bit of the first byte.
pub open spec fn hash_bit(h: Seq<u8>, j: int) -> bool {
    ((h[j / 8] as u32) >> ((7 - (j % 8)) as u32)) & 1 == 1
}

/// The difficulty predicate reads exactly as "the hash starts with at
/// least `difficulty` zero bits".
pub proof fn lemma_valid_hash_is_leading_zero_bits(h: Seq<u8>, difficulty: u32)
    requires
        h.len() == 32,
        difficulty < 256,
    ensures
        spec_valid_hash(h, difficulty) <==> (forall|j: int|
            0 <= j < difficulty ==> !hash_bit(h, j)),
{
    let zb = difficulty as int / 8;
    let zr: u32 = difficulty % 8;
    if spec_valid_hash(h, difficulty) {
        assert forall|j: int| 0 <= j < difficulty implies !hash_bit(h, j) by {
            let bi = j / 8;
            let k = j % 8;
            let x: u32 = h[bi] as u32;
            let s: u32 = (7 - k) as u32;
            if bi < zb {
                assert(h[bi] == 0);
                assert(x == 0 && s < 8 ==> (x >> s) & 1 != 1) by (bit_vector);
            } else {
                assert(bi == zb && k < zr);
                assert(x <= 255u32 >> zr);
                assert(s + zr >= 8);
                assert(x < 256 && zr < 8 && s < 8 && s + zr >= 8 && x <= (255u32 >> zr) ==> (x >> s)
                    & 1 != 1) by (bit_vector);
            }
        }
    }
    if forall|j: int| 0 <= j < difficulty ==> !hash_bit(h, j) {
        assert forall|i: int| 0 <= i < zb implies h[i] == 0 by {
            let x: u32 = h[i] as u32;
            assert(!hash_bit(h, 8 * i));
            assert(!hash_bit(h, 8 * i + 1));
            assert(!hash_bit(h, 8 * i + 2));
            assert(!hash_bit(h, 8 * i + 3));
            assert(!hash_bit(h, 8 * i + 4));
            assert(!hash_bit(h, 8 * i + 5));
            assert(!hash_bit(h, 8 * i + 6));
            assert(!hash_bit(h, 8 * i + 7));
            assert(x < 256 && (x >> 7) & 1 != 1 && (x >> 6) & 1 != 1 && (x >> 5) & 1 != 1 && (x
                >> 4) & 1 != 1 && (x >> 3) & 1 != 1 && (x >> 2) & 1 != 1 && (x >> 1) & 1 != 1 && (x
                >> 0) & 1 != 1 ==> x == 0) by (bit_vector);
        }
        let x: u32 = h[zb] as u32;
        if zr >= 1 {
            assert(!hash_bit(h, 8 * zb));
        }
        if zr >= 2 {
            assert(!hash_bit(h, 8 * zb + 1));
        }
        if zr >= 3 {
            assert(!hash_bit(h, 8 * zb + 2));
        }
        if zr >= 4 {
            assert(!hash_bit(h, 8 * zb + 3));
        }
        if zr >= 5 {
            assert(!hash_bit(h, 8 * zb + 4));
        }
        if zr >= 6 {
            assert(!hash_bit(h, 8 * zb + 5));
        }
        if zr >= 7 {
            assert(!hash_bit(h, 8 * zb + 6));
        }
        assert(x < 256 && zr < 8 && (zr >= 1 ==> (x >> 7) & 1 != 1) && (zr >= 2 ==> (x >> 6) & 1
            != 1) && (zr >= 3 ==> (x >> 5) & 1 != 1) && (zr >= 4 ==> (x >> 4) & 1 != 1) && (zr >= 5
            ==> (x >> 3) & 1 != 1) && (zr >= 6 ==> (x >> 2) & 1 != 1) && (zr >= 7 ==> (x >> 1) & 1
            != 1) ==> x <= (255u32 >> zr)) by (bit_vector);
    }
}

/// Field-by-field equality of two blocks (transactions compared field
/// by field as well).
pub open spec fn block_eqv(a: ETHBlock, b: ETHBlock) -> bool {
    &&& a.prev_hash@ == b.prev_hash@
    &&& a.miner_id@ == b.miner_id@
    &&& a.transactions@.len() == b.transactions@.len()
    &&& forall|i: int|
        0 <= i < a.transactions@.len() ==> txn_eqv(a.transactions@[i], b.transactions@[i])
    &&& a.difficulty == b.difficulty
    &&& a.nonce == b.nonce
}

/// Transactions equal field by field serialize identically.
pub proof fn lemma_txn_bytes_eqv(a: ETHTxn, b: ETHTxn)
    requires
        txn_eqv(a, b),
    ensures
        txn_bytes(a) == txn_bytes(b),
{
}

/// Transaction sequences equal field by field serialize identically.
pub proof fn lemma_txns_bytes_eqv(a: Seq<ETHTxn>, b: Seq<ETHTxn>)
    requires
        a.len() == b.len(),
        forall|i: int| 0 <= i < a.len() ==> txn_eqv(a[i], b[i]),
    ensures
        txns_bytes(a) == txns_bytes(b),
    decreases a.len(),
{
    if a.len() != 0 {
        assert forall|i: int| 0 <= i < a.skip(1).len() implies txn_eqv(
            #[trigger] a.skip(1)[i],
            b.skip(1)[i],
        ) by {
            assert(a.skip(1)[i] == a[i + 1]);
            assert(b.skip(1)[i] == b[i + 1]);
        }
        lemma_txns_bytes_eqv(a.skip(1), b.skip(1));
        lemma_txn_bytes_eqv(a[0], b[0]);
    }
}

/// Hashing is a function of the block's field values alone: two blocks
/// with identical fields have identical hashes. In particular a clone
/// of a block hashes to the same value as the block.
pub proof fn lemma_hash_deterministic(a: ETHBlock, b: ETHBlock)
    requires
        block_eqv(a, b),
    ensures
        block_hash(a) == block_hash(b),
{
    lemma_txns_bytes_eqv(a.transactions@, b.transactions@);
}

impl Clone for ETHBlock {
    /// A copy equal to `self` field by field, hashing identically.
    fn clone(&self) -> (r: Self)
        ensures
            block_eqv(r, *self),
    {
        let mut txns: Vec<ETHTxn> = Vec::new();
        let n = self.transactions.len();
        let mut i: usize = 0;
        while i < n
            invariant
                n == self.transactions@.len(),
                i <= n,
                txns@.len() == i,
                forall|j: int| 0 <= j < i ==> txn_eqv(#[trigger] txns@[j], self.transactions@[j]),
            decreases n - i,
        {
            txns.push(self.transactions[i].clone());
            i += 1;
        }
        ETHBlock {
            prev_hash: self.prev_hash,
            miner_id: self.miner_id,
            transactions: txns,
            difficulty: self.difficulty,
            nonce: self.nonce,
        }
    }
}

impl ETHBlock {
    /// The fixed first block: all-zero hashes and miner, no
    /// transactions, difficulty 0, nonce 0.
    pub fn genesis() -> (r: ETHBlock)
        ensures
            r.prev_hash@ =~= Seq::new(32, |i: int| 0u8),
            r.miner_id@ =~= Seq::new(20, |i: int| 0u8),
            r.transactions@.len() == 0,
            r.difficulty == 0,
            r.nonce == 0,
    {
        ETHBlock {
            prev_hash: [0u8; 32],
            miner_id: [0u8; 20],
            transactions: Vec::new(),
            difficulty: 0,
            nonce: 0,
        }
    }

    /// A fresh unsealed block on top of `prev_block`: its hash as
    /// parent link, nonce 0.
    pub fn new(
        prev_block: &ETHBlock,
        miner_id: ETHAddress,
        difficulty: u32,
        transactions: Vec<ETHTxn>,
    ) -> (r: ETHBlock)
        ensures
            r.prev_hash@ == block_hash(*prev_block),
            r.miner_id@ == miner_id@,
            r.transactions == transactions,
            r.difficulty == difficulty,
            r.nonce == 0,
    {
        ETHBlock {
            prev_hash: prev_block.hash(),
            miner_id,
            transactions,
            difficulty,
            nonce: 0,
        }
    }

    /// The byte-wise serialization of the block (the transactions'
    /// signatures excluded).
    pub fn binary_serialization(&self) -> (r: Vec<u8>)
        ensures
            r@ == block_bytes(*self),
    {
        let mut out: Vec<u8> = Vec::new();
        serial::push_bytes(&mut out, self.prev_hash.as_slice());
        serial::push_bytes(&mut out, self.miner_id.as_slice());
        serial::push_u64_le(&mut out, self.transactions.len() as u64);
        let ghost head = out@;
        let n = self.transactions.len();
        let mut i: usize = 0;
        proof {
            assert(self.transactions@.skip(0) =~= self.transactions@);
            assert(head + txns_bytes(self.transactions@) =~= head + txns_bytes(
                self.transactions@.skip(0),
            ));
        }
        while i < n
            invariant
                n == self.transactions@.len(),
                i <= n,
                head + txns_bytes(self.transactions@) =~= out@ + txns_bytes(
                    self.transactions@.skip(i as int),
                ),
            decreases n - i,
        {
            let ghost rest = self.transactions@.skip(i as int);
            let mut txb = self.transactions[i].binary_serialization();
            out.append(&mut txb);
            proof {
                assert(rest[0] == self.transactions@[i as int]);
                assert(rest.skip(1) =~= self.transactions@.skip(i + 1));
            }
            i += 1;
        }
        proof {
            assert(self.transactions@.skip(n as int) =~= Seq::<ETHTxn>::empty());
        }
        serial::push_u32_le(&mut out, self.difficulty);
        serial::push_u32_le(&mut out, self.nonce);
        proof {
            assert(out@ =~= block_bytes(*self));
        }
        out
    }

    /// The block's SHA3-256 hash over its serialization.
    pub fn hash(&self) -> (r: BlockHash)
        ensures
            r@ == block_hash(*self),
    {
        let bytes = self.binary_serialization();
        crypto::sha3_256(bytes.as_slice())
    }

    /// Replace the nonce with a random draw; every other field stays.
    pub fn randomize_nonce(&mut self)
        ensures
            final(self).prev_hash == old(self).prev_hash,
            final(self).miner_id == old(self).miner_id,
            final(self).transactions == old(self).transactions,
            final(self).difficulty == old(self).difficulty,
    {
        self.nonce = crypto::random_u32();
    }

    /// Set the nonce; every other field stays.
    pub fn set_nonce(&mut self, nonce: ProofOfWork)
        ensures
            final(self).prev_hash == old(self).prev_hash,
            final(self).miner_id == old(self).miner_id,
            final(self).transactions == old(self).transactions,
            final(self).difficulty == old(self).difficulty,
            final(self).nonce == nonce,
    {
        self.nonce = nonce;
    }

    /// The current nonce.
    pub fn get_nonce(&self) -> (r: ProofOfWork)
        ensures
            r == self.nonce,
    {
        self.nonce
    }

    /// Whether a hash meets a difficulty target of that many leading
    /// zero bits.
    pub fn valid_hash(hash: BlockHash, difficulty: u32) -> (r: bool)
        requires
            difficulty < 256,
        ensures
            r == spec_valid_hash(hash@, difficulty),
    {
        let zero_bytes: usize = (difficulty / 8) as usize;
        let zero_bits: u32 = difficulty % 8;
        let mut i: usize = 0;
        while i < zero_bytes
            invariant
                zero_bytes == difficulty / 8,
                i <= zero_bytes,
                difficulty < 256,
                forall|j: int| 0 <= j < i ==> hash@[j] == 0,
            decreases zero_bytes - i,
        {
            if hash[i] != 0 {
                return false;
            }
            i += 1;
        }
        (hash[zero_bytes] as u32) <= (255u32 >> zero_bits)
    }

    /// Whether this block's hash meets its own difficulty.
    pub fn is_valid(&self) -> (r: bool)
        requires
            self.difficulty < 256,
        ensures
            r == spec_valid_hash(block_hash(*self), self.difficulty),
    {
        Self::valid_hash(self.hash(), self.difficulty)
    }

    /// The address the block's reward goes to.
    pub fn get_miner_address(&self) -> (r: ETHAddress)
        ensures
            r@ == self.miner_id@,
    {
        self.miner_id
    }

    /// Try up to `attempts` random nonces; stop at the first that
    /// makes the block's hash meet its difficulty, returning it. On
    /// `None` no tried nonce was valid (the block keeps the last tried
    /// nonce). Every field but the nonce is untouched.
    pub fn try_nonces(&mut self, attempts: usize) -> (r: Option<ProofOfWork>)
        requires
            old(self).difficulty < 256,
        ensures
            final(self).prev_hash == old(self).prev_hash,
            final(self).miner_id == old(self).miner_id,
            final(self).transactions == old(self).transactions,
            final(self).difficulty == old(self).difficulty,
            match r {
                Some(n) => final(self).nonce == n && spec_valid_hash(
                    block_hash(*final(self)),
                    final(self).difficulty,
                ),
                None => true,
            },
    {
        let mut i: usize = 0;
        while i < attempts
            invariant
                self.prev_hash == old(self).prev_hash,
                self.miner_id == old(self).miner_id,
                self.transactions == old(self).transactions,
                self.difficulty == old(self).difficulty,
                self.difficulty < 256,
            decreases attempts - i,
        {
            self.randomize_nonce();
            if self.is_valid() {
                return Some(self.get_nonce());
            }
            i += 1;
        }
        None
    }
}

} // verus!
