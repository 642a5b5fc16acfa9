use vstd::prelude::*;
use sha3::Digest;

verus! {

/// The Keccak-256 digest of a byte string.
pub uninterp spec fn keccak256_of(bytes: Seq<u8>) -> Seq<u8>;

/// The SHA3-256 digest of a byte string.
pub uninterp spec fn sha3_256_of(bytes: Seq<u8>) -> Seq<u8>;

/// The recoverable ECDSA signature of a 32-byte digest under a secret
/// key: the 64-byte r||s serialization and the recovery id, or `None`
/// when the secret-key bytes are not a valid key.
pub uninterp spec fn sign_of(msg: Seq<u8>, seckey: Seq<u8>) -> Option<(Seq<u8>, u8)>;

/// The 65-byte uncompressed public key recovered from a 32-byte digest,
/// a 64-byte signature and a recovery id, or `None` when the inputs do
/// not parse or recovery fails.
pub uninterp spec fn recover_of(msg: Seq<u8>, sig: Seq<u8>, recovery_id: u8) -> Option<Seq<u8>>;

/// The 65-byte uncompressed public key belonging to a secret key, or
/// `None` when the secret-key bytes are not a valid key.
pub uninterp spec fn pubkey_of(seckey: Seq<u8>) -> Option<Seq<u8>>;

/// Relies on sha3::Keccak256 (the Digest trait): the digest is a pure
/// function of the input bytes and is 32 bytes long.
#[verifier::external_body]
pub fn keccak256(bytes: &[u8]) -> (r: [u8; 32])
    ensures
        r@ == keccak256_of(bytes@),
        r@.len() == 32,
{
    sha3::Keccak256::digest(bytes).into()
}

/// Relies on sha3::Sha3_256 (the Digest trait): the digest is a pure
/// function of the input bytes and is 32 bytes long.
#[verifier::external_body]
pub fn sha3_256(bytes: &[u8]) -> (r: [u8; 32])
    ensures
        r@ == sha3_256_of(bytes@),
        r@.len() == 32,
{
    sha3::Sha3_256::digest(bytes).into()
}

/// Relies on libsecp256k1::sign, which draws its nonce from an
/// HMAC-DRBG seeded only by the secret key and the message, so the
/// signature is a pure function of both; and on
/// libsecp256k1::SecretKey::parse, which fails exactly on invalid
/// secret-key bytes (the only `None` case).
#[verifier::external_body]
pub fn sign_digest(msg: &[u8; 32], seckey: &[u8; 32]) -> (r: Option<([u8; 64], u8)>)
    ensures
        match r {
            Some(sig) => sign_of(msg@, seckey@) == Some((sig.0@, sig.1)),
            None => sign_of(msg@, seckey@) is None,
        },
{
    match libsecp256k1::SecretKey::parse(seckey) {
        Ok(sk) => {
            let m = libsecp256k1::Message::parse(msg);
            let (sig, rid) = libsecp256k1::sign(&m, &sk);
            Some((sig.serialize(), rid.serialize()))
        }
        Err(_) => None,
    }
}

/// Relies on libsecp256k1::recover and the parsers around it
/// (Message::parse, Signature::parse_standard, RecoveryId::parse), all
/// pure functions of their arguments. `None` when the recovery id is 4
/// or more, the signature scalars overflow the curve order, or recovery
/// itself fails.
#[verifier::external_body]
pub fn recover_pubkey(msg: &[u8; 32], sig: &[u8; 64], recovery_id: u8) -> (r: Option<[u8; 65]>)
    ensures
        match r {
            Some(pk) => recover_of(msg@, sig@, recovery_id) == Some(pk@),
            None => recover_of(msg@, sig@, recovery_id) is None,
        },
{
    let s = match libsecp256k1::Signature::parse_standard(sig) {
        Ok(s) => s,
        Err(_) => return None,
    };
    let rid = match libsecp256k1::RecoveryId::parse(recovery_id) {
        Ok(r) => r,
        Err(_) => return None,
    };
    let m = libsecp256k1::Message::parse(msg);
    match libsecp256k1::recover(&m, &s, &rid) {
        Ok(pk) => Some(pk.serialize()),
        Err(_) => None,
    }
}

/// Relies on libsecp256k1::PublicKey::from_secret_key (total on valid
/// keys, a pure function of the key) and SecretKey::parse (fails
/// exactly on invalid secret-key bytes).
#[verifier::external_body]
pub fn pubkey_from_secret(seckey: &[u8; 32]) -> (r: Option<[u8; 65]>)
    ensures
        match r {
            Some(pk) => pubkey_of(seckey@) == Some(pk@),
            None => pubkey_of(seckey@) is None,
        },
{
    match libsecp256k1::SecretKey::parse(seckey) {
        Ok(sk) => Some(libsecp256k1::PublicKey::from_secret_key(&sk).serialize()),
        Err(_) => None,
    }
}

/// Relies on libsecp256k1::SecretKey::random, seeded from
/// rand::thread_rng: it retries until the drawn bytes parse as a valid
/// secret key, so the serialization it returns always parses back.
#[verifier::external_body]
pub fn gen_secret_key() -> (r: [u8; 32])
    ensures
        pubkey_of(r@) is Some,
{
    libsecp256k1::SecretKey::random(&mut rand::thread_rng()).serialize()
}

/// Relies on rand::random: some arbitrary u32; nothing is promised of it.
#[verifier::external_body]
pub fn random_u32() -> u32 {
    rand::random::<u32>()
}

} // verus!
