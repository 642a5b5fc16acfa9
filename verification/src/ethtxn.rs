use vstd::prelude::*;
use vstd::bytes::{spec_u32_to_le_bytes, spec_u64_to_le_bytes, spec_u128_to_le_bytes};
use crate::aliases::ETHAddress;
use crate::crypto;
use crate::crypto::{keccak256_of, recover_of, sign_of};
use crate::gas::Gas;
use crate::serial;
use crate::wei::Wei;

verus! {

/// The recoverable ECDSA witness carried by a transaction: the 64-byte
/// r||s serialization of the signature and the recovery id.
#[derive(Debug, Clone, Copy)]
pub struct TxnSig {
    pub signature: [u8; 64],
    pub recovery_id: u8,
}

/// A signed transaction. The sender is not stored: it is recovered from
/// the signature over the serialization of the remaining fields.
#[derive(Debug)]
pub struct ETHTxn {
    pub nonce: u32,
    pub gasprice: Wei,
    pub gaslimit: Gas,
    pub recipient: ETHAddress,
    pub value: Wei,
    pub code: Vec<u8>,
    pub ecdsa_fields: TxnSig,
}

/// Field-by-field equality of two transactions (including the signature).
pub open spec fn txn_eqv(a: ETHTxn, b: ETHTxn) -> bool {
    &&& a.nonce == b.nonce
    &&& a.gasprice@ == b.gasprice@
    &&& a.gaslimit == b.gaslimit
    &&& a.recipient@ == b.recipient@
    &&& a.value@ == b.value@
    &&& a.code@ == b.code@
    &&& a.ecdsa_fields.signature@ == b.ecdsa_fields.signature@
    &&& a.ecdsa_fields.recovery_id == b.ecdsa_fields.recovery_id
}

/// The byte-exact serialization of a transaction with the signature
/// excluded: nonce, gasprice, gaslimit, recipient, value, then the code
/// behind its length, integers little-endian.
pub open spec fn txn_bytes(t: ETHTxn) -> Seq<u8> {
    spec_u32_to_le_bytes(t.nonce) + spec_u128_to_le_bytes(t.gasprice@) + spec_u128_to_le_bytes(
        t.gaslimit,
    ) + t.recipient@ + spec_u128_to_le_bytes(t.value@) + spec_u64_to_le_bytes(
        t.code@.len() as u64,
    ) + t.code@
}

/// The public key the signature of `t` recovers to, over the digest of
/// `t`'s serialization, or `None` when recovery fails.
pub open spec fn recovered_pubkey(t: ETHTxn) -> Option<Seq<u8>> {
    recover_of(
        keccak256_of(txn_bytes(t)),
        t.ecdsa_fields.signature@,
        t.ecdsa_fields.recovery_id,
    )
}

/// The address a 65-byte uncompressed public key derives to: the low 20
/// bytes of the Keccak-256 of the key's body (the leading format byte
/// excluded).
pub open spec fn addr_of_pubkey(pk: Seq<u8>) -> Seq<u8> {
    keccak256_of(pk.skip(1)).skip(12)
}

/// The sender address of `t`, or `None` when the signature does not
/// recover to a public key.
pub open spec fn sender_of(t: ETHTxn) -> Option<Seq<u8>> {
    match recovered_pubkey(t) {
        Some(pk) => Some(addr_of_pubkey(pk)),
        None => None,
    }
}

impl Clone for ETHTxn {
    /// A copy equal to `self` field by field.
    fn clone(&self) -> (r: Self)
        ensures
            txn_eqv(r, *self),
    {
        ETHTxn {
            nonce: self.nonce,
            gasprice: self.gasprice,
            gaslimit: self.gaslimit,
            recipient: self.recipient,
            value: self.value,
            code: serial::clone_bytes(self.code.as_slice()),
            ecdsa_fields: self.ecdsa_fields,
        }
    }
}

impl ETHTxn {
    /// The byte-wise serialization of the transaction, signature excluded.
    pub fn binary_serialization(&self) -> (r: Vec<u8>)
        ensures
            r@ == txn_bytes(*self),
    {
        let mut out: Vec<u8> = Vec::new();
        serial::push_u32_le(&mut out, self.nonce);
        serial::push_u128_le(&mut out, self.gasprice.get_wei());
        serial::push_u128_le(&mut out, self.gaslimit);
        serial::push_bytes(&mut out, self.recipient.as_slice());
        serial::push_u128_le(&mut out, self.value.get_wei());
        serial::push_u64_le(&mut out, self.code.len() as u64);
        serial::push_bytes(&mut out, self.code.as_slice());
        proof {
            assert(out@ =~= txn_bytes(*self));
        }
        out
    }

    /// The 32-byte digest that is signed: the Keccak-256 of the encoded
    /// transaction.
    pub fn hashed_message(encoded: &[u8]) -> (r: [u8; 32])
        ensures
            r@ == keccak256_of(encoded@),
    {
        crypto::keccak256(encoded)
    }

    /// The 65-byte public key recovered from the transaction's signature,
    /// or `None` when recovery fails.
    pub fn recover_public_key(&self) -> (r: Option<[u8; 65]>)
        ensures
            match r {
                Some(pk) => recovered_pubkey(*self) == Some(pk@),
                None => recovered_pubkey(*self) is None,
            },
    {
        let msg = self.binary_serialization();
        let hashed_message = Self::hashed_message(msg.as_slice());
        crypto::recover_pubkey(
            &hashed_message,
            &self.ecdsa_fields.signature,
            self.ecdsa_fields.recovery_id,
        )
    }

    /// The address a public key derives to.
    pub fn get_address_from_public_key(pubkey: &[u8; 65]) -> (addr: ETHAddress)
        ensures
            addr@ == addr_of_pubkey(pubkey@),
    {
        let body = serial::sub_bytes(pubkey.as_slice(), 1, 65);
        proof {
            assert(body@ =~= pubkey@.skip(1));
        }
        let pub_hash = crypto::keccak256(body.as_slice());
        let mut sender_addr: ETHAddress = [0u8; 20];
        let mut i: usize = 0;
        while i < 20
            invariant
                i <= 20,
                pub_hash@.len() == 32,
                sender_addr@.len() == 20,
                forall|j: int| 0 <= j < i ==> sender_addr@[j] == pub_hash@[j + 12],
            decreases 20 - i,
        {
            sender_addr[i] = pub_hash[i + 12];
            i += 1;
        }
        proof {
            assert(sender_addr@ =~= addr_of_pubkey(pubkey@));
        }
        sender_addr
    }

    /// The sender's address, recovered from the signature, or `None`
    /// when the signature does not recover.
    pub fn get_sender_addr(&self) -> (r: Option<ETHAddress>)
        ensures
            match r {
                Some(a) => sender_of(*self) == Some(a@),
                None => sender_of(*self) is None,
            },
    {
        match self.recover_public_key() {
            Some(pub_key) => Some(Self::get_address_from_public_key(&pub_key)),
            None => None,
        }
    }

    /// Sign the transaction's serialization with `sender_secret`,
    /// storing the signature; `false` (with the transaction unchanged)
    /// when the secret-key bytes are invalid.
    pub fn sign_transaction(&mut self, sender_secret: &[u8; 32]) -> (ok: bool)
        ensures
            final(self).nonce == old(self).nonce,
            final(self).gasprice@ == old(self).gasprice@,
            final(self).gaslimit == old(self).gaslimit,
            final(self).recipient@ == old(self).recipient@,
            final(self).value@ == old(self).value@,
            final(self).code@ == old(self).code@,
            txn_bytes(*final(self)) == txn_bytes(*old(self)),
            ok ==> sign_of(keccak256_of(txn_bytes(*old(self))), sender_secret@) == Some(
                (final(self).ecdsa_fields.signature@, final(self).ecdsa_fields.recovery_id),
            ),
            !ok ==> sign_of(keccak256_of(txn_bytes(*old(self))), sender_secret@) is None
                && final(self).ecdsa_fields == old(self).ecdsa_fields,
    {
        let msg = self.binary_serialization();
        let digest = Self::hashed_message(msg.as_slice());
        match crypto::sign_digest(&digest, sender_secret) {
            Some(sig) => {
                self.ecdsa_fields = TxnSig { signature: sig.0, recovery_id: sig.1 };
                true
            }
            None => false,
        }
    }
}

/// Placeholder signature fields: a signature over a fixed throwaway
/// message, usable wherever a transaction needs some signature before
/// the real one is computed. `None` when the secret-key bytes are
/// invalid.
pub fn get_bs_ecsda_field(bs_secret_key: &[u8; 32]) -> (r: Option<TxnSig>)
    ensures
        match r {
            Some(s) => sign_of(
                keccak256_of(seq![0x64u8, 0x65u8, 0x61u8, 0x64u8, 0x62u8, 0x65u8, 0x65u8, 0x66u8]),
                bs_secret_key@,
            ) == Some((s.signature@, s.recovery_id)),
            None => sign_of(
                keccak256_of(seq![0x64u8, 0x65u8, 0x61u8, 0x64u8, 0x62u8, 0x65u8, 0x65u8, 0x66u8]),
                bs_secret_key@,
            ) is None,
        },
{
    let bs_msg_bytes: Vec<u8> = vec![0x64u8, 0x65u8, 0x61u8, 0x64u8, 0x62u8, 0x65u8, 0x65u8, 0x66u8];
    proof {
        assert(bs_msg_bytes@ =~= seq![0x64u8, 0x65u8, 0x61u8, 0x64u8, 0x62u8, 0x65u8, 0x65u8, 0x66u8]);
    }
    let bs_msg = ETHTxn::hashed_message(bs_msg_bytes.as_slice());
    match crypto::sign_digest(&bs_msg, bs_secret_key) {
        Some(sig) => Some(TxnSig { signature: sig.0, recovery_id: sig.1 }),
        None => None,
    }
}

} // verus!
