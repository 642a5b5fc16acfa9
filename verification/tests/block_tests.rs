use ethcore::crypto;
use ethcore::ethblock::ETHBlock;
use ethcore::ethtxn::{get_bs_ecsda_field, ETHTxn};
use ethcore::wei::Wei;

#[test]
fn test_hashing() {
    let hash1 = [0; 32];
    assert!(ETHBlock::valid_hash(hash1, 255));

    let hash2 = [1; 32];
    assert!(ETHBlock::valid_hash(hash2, 7));
    assert!(!ETHBlock::valid_hash(hash2, 8));

    let mut hash3 = [2; 32];
    hash3[0] = 0;
    hash3[1] = 0;
    assert!(ETHBlock::valid_hash(hash3, 10));
    assert!(ETHBlock::valid_hash(hash3, 16));
    assert!(ETHBlock::valid_hash(hash3, 16 + 6));
    assert!(!ETHBlock::valid_hash(hash3, 16 + 7));
}

fn sample_block() -> ETHBlock {
    let sk = crypto::gen_secret_key();
    let pk = crypto::pubkey_from_secret(&sk).unwrap();
    let addr = ETHTxn::get_address_from_public_key(&pk);
    let txn = ETHTxn {
        nonce: 1,
        gasprice: Wei::from_wei(2),
        gaslimit: 10,
        recipient: addr,
        value: Wei::from_wei(3),
        code: vec![0x60, 2, 0xb1, 0x00],
        ecdsa_fields: get_bs_ecsda_field(&sk).unwrap(),
    };
    ETHBlock::new(&ETHBlock::genesis(), addr, 4, vec![txn])
}

#[test]
fn test_hash_deterministic() {
    // Hashing is a function of the block's fields: the same block and
    // its clone hash identically, and repeated hashing agrees.
    let block = sample_block();
    let first = block.hash();
    assert_eq!(block.hash(), first);
    assert_eq!(block.clone().hash(), first);
}

#[test]
fn test_hash_covers_nonce() {
    // The nonce is part of the hashed serialization.
    let block = sample_block();
    let mut other = block.clone();
    other.set_nonce(block.get_nonce().wrapping_add(1));
    assert_ne!(block.hash(), other.hash());
    assert_ne!(block.binary_serialization(), other.binary_serialization());
}

#[test]
fn test_signature_excluded_from_block_bytes() {
    // Re-signing a held transaction must not change the block's hash:
    // the signature is a witness, not part of the block's identity.
    let block = sample_block();
    let mut other = block.clone();
    let sk = crypto::gen_secret_key();
    assert!(other.transactions[0].sign_transaction(&sk));
    assert_eq!(block.hash(), other.hash());
}

#[test]
fn test_try_nonces_seals() {
    let mut block = sample_block();
    // Difficulty 4: one in sixteen nonces works on average, so this
    // budget fails with negligible probability.
    let nonce = block.try_nonces(100_000).expect("no nonce found");
    assert_eq!(block.get_nonce(), nonce);
    assert!(block.is_valid());
}

#[test]
fn test_digest_matches_sha3_reference() {
    // SHA3-256 of the empty string, first bytes of the reference
    // digest: a7 ff c6 f8 bf 1e d7 66 ...
    let d = crypto::sha3_256(&[]);
    assert_eq!(&d[..4], &[0xa7, 0xff, 0xc6, 0xf8]);

    // Keccak-256 of the empty string starts c5 d2 46 01 ...
    let k = crypto::keccak256(&[]);
    assert_eq!(&k[..4], &[0xc5, 0xd2, 0x46, 0x01]);
}
