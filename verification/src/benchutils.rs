use vstd::prelude::*;
use crate::aliases::ETHAddress;
use crate::crypto;
use crate::crypto::pubkey_of;
use crate::ethtxn::{addr_of_pubkey, get_bs_ecsda_field, txn_eqv, ETHTxn, TxnSig};
use crate::wei::Wei;

verus! {

pub const TXNS_PER_BLOCK: usize = 1;

pub const TOTAL_TXNS: usize = 200;

pub const DIFFICULTY: u32 = 18;

pub const NUM_THREADS: u32 = 12;

pub const HASH_GRANULARITY: u32 = 50;

/// A simulated participant: a key pair and the derived address.
#[derive(Debug, Clone, Copy)]
pub struct Actor {
    pub secretkey: [u8; 32],
    pub pubkey: [u8; 65],
    pub address: ETHAddress,
}

pub type Actors = Vec<Actor>;

/// Three fresh actors with random keys, each address derived from its
/// public key.
pub fn generate_actors() -> (r: Actors)
    ensures
        r@.len() == 3,
        forall|i: int| 0 <= i < r@.len() ==> pubkey_of(#[trigger] r@[i].secretkey@) == Some(
            r@[i].pubkey@,
        ) && r@[i].address@ == addr_of_pubkey(r@[i].pubkey@),
{
    let mut all_actors: Vec<Actor> = Vec::new();
    let mut k: usize = 0;
    while k < 3
        invariant
            k <= 3,
            all_actors@.len() == k,
            forall|i: int| 0 <= i < k ==> pubkey_of(#[trigger] all_actors@[i].secretkey@) == Some(
                all_actors@[i].pubkey@,
            ) && all_actors@[i].address@ == addr_of_pubkey(all_actors@[i].pubkey@),
        decreases 3 - k,
    {
        let secretkey = crypto::gen_secret_key();
        let pubkey = crypto::pubkey_from_secret(&secretkey).unwrap();
        let address = ETHTxn::get_address_from_public_key(&pubkey);
        all_actors.push(Actor { secretkey, pubkey, address });
        k += 1;
    }
    all_actors
}

/// A round-robin source of signed sample transactions among three
/// actors, carrying three fixed code variants: empty code, code that
/// adds to the value, and code that sets the value.
pub struct TxnGenerator<'a> {
    pub remaining: usize,
    pub lastindex: usize,
    pub actors: &'a Actors,
    pub possibilities: Vec<ETHTxn>,
}

impl<'a> TxnGenerator<'a> {
    /// Three template transactions, one per actor, each nonce low
    /// enough to be advanced once per remaining round.
    pub open spec fn wf(self) -> bool {
        &&& self.possibilities@.len() == 3
        &&& self.lastindex < 3
        &&& self.actors@.len() >= 3
        &&& forall|i: int|
            0 <= i < 3 ==> (#[trigger] self.possibilities@[i].nonce) + self.remaining
                <= u32::MAX
    }

    /// A generator producing at most `maxiter` transactions: actor 0
    /// pays actor 1 (no code), actor 1 pays actor 2 (code raising the
    /// value by 2), actor 2 pays actor 0 (code setting the value to 6).
    pub fn new(actors: &'a Actors, maxiter: usize) -> (r: TxnGenerator<'a>)
        requires
            actors@.len() >= 3,
            maxiter <= u32::MAX,
        ensures
            r.wf(),
            r.remaining == maxiter,
            r.lastindex == 0,
            r.actors == actors,
            forall|i: int| 0 <= i < 3 ==> (#[trigger] r.possibilities@[i]).nonce == 0,
            forall|i: int| 0 <= i < 3 ==> (#[trigger] r.possibilities@[i]).recipient@
                == actors@[(i + 1) % 3].address@,
            r.possibilities@[0].gasprice@ == 2 && r.possibilities@[0].gaslimit == 10
                && r.possibilities@[0].value@ == 100 && r.possibilities@[0].code@
                == Seq::<u8>::empty(),
            r.possibilities@[1].gasprice@ == 1 && r.possibilities@[1].gaslimit == 10
                && r.possibilities@[1].value@ == 76 && r.possibilities@[1].code@
                == seq![0x60u8, 2u8, 0xb1u8, 0x00u8],
            r.possibilities@[2].gasprice@ == 1 && r.possibilities@[2].gaslimit == 30
                && r.possibilities@[2].value@ == 0,
    {
        let dummy_sig = TxnSig { signature: [0u8; 64], recovery_id: 0 };
        let sig0 = match get_bs_ecsda_field(&actors[0].secretkey) {
            Some(s) => s,
            None => dummy_sig,
        };
        let sig1 = match get_bs_ecsda_field(&actors[1].secretkey) {
            Some(s) => s,
            None => dummy_sig,
        };
        let sig2 = match get_bs_ecsda_field(&actors[2].secretkey) {
            Some(s) => s,
            None => dummy_sig,
        };

        // Possible code segments: empty (costs almost no gas), code
        // that adds 2 to the value, and code that sets the value to 6.
        let code_empty: Vec<u8> = Vec::new();
        let code_addval: Vec<u8> = vec![0x60u8, 2u8, 0xb1u8, 0x00u8];
        let code_setval: Vec<u8> = vec![
            0x60u8, 2u8, 0x60u8, 3u8, 0x60u8, 4u8, 0x60u8, 7u8, 0x60u8, 1u8, 0x01u8, 0x03u8,
            0x02u8, 0x04u8, 0xb0u8, 0x00u8,
        ];

        let mut possibilities: Vec<ETHTxn> = Vec::new();
        // From actor 0 to actor 1.
        possibilities.push(
            ETHTxn {
                nonce: 0,
                gasprice: Wei::from_wei(2),
                gaslimit: 10,
                recipient: actors[1].address,
                value: Wei::from_wei(100),
                code: code_empty,
                ecdsa_fields: sig0,
            },
        );
        // From actor 1 to actor 2.
        possibilities.push(
            ETHTxn {
                nonce: 0,
                gasprice: Wei::from_wei(1),
                gaslimit: 10,
                recipient: actors[2].address,
                value: Wei::from_wei(76),  // raised to 78 by its code
                code: code_addval,
                ecdsa_fields: sig1,
            },
        );
        // From actor 2 to actor 0.
        possibilities.push(
            ETHTxn {
                nonce: 0,
                gasprice: Wei::from_wei(1),
                gaslimit: 30,
                recipient: actors[0].address,
                value: Wei::from_wei(0),  // set to 6 by its code
                code: code_setval,
                ecdsa_fields: sig2,
            },
        );

        TxnGenerator { lastindex: 0, remaining: maxiter, actors, possibilities }
    }

    /// The next signed transaction of the round-robin, or `None` once
    /// the budget is used up. The returned transaction is the template
    /// at the current index with its nonce advanced by one and a fresh
    /// signature, and it is stored back; the index moves on.
    pub fn next_txn(&mut self) -> (r: Option<ETHTxn>)
        requires
            old(self).wf(),
        ensures
            final(self).wf(),
            final(self).actors == old(self).actors,
            match r {
                Some(t) => old(self).remaining > 0 && final(self).remaining == old(self).remaining
                    - 1 && final(self).lastindex == (old(self).lastindex + 1) % 3 && txn_eqv(
                    t,
                    final(self).possibilities@[old(self).lastindex as int],
                ) && t.nonce == old(self).possibilities@[old(self).lastindex as int].nonce + 1
                    && (forall|i: int|
                    0 <= i < 3 && i != old(self).lastindex
                        ==> #[trigger] final(self).possibilities@[i]
                        == old(self).possibilities@[i]),
                None => old(self).remaining == 0 && *final(self) == *old(self),
            },
    {
        if self.remaining == 0 {
            return None;
        }
        self.remaining = self.remaining - 1;

        let i = self.lastindex;
        let mut txn = self.possibilities[i].clone();
        txn.nonce = txn.nonce + 1;
        txn.sign_transaction(&self.actors[i].secretkey);
        let stored = txn.clone();
        self.possibilities[i] = stored;

        self.lastindex = (self.lastindex + 1) % 3;
        Some(txn)
    }
}

} // verus!
