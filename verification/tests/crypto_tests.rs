use ethcore::crypto;
use ethcore::ethtxn::{get_bs_ecsda_field, ETHTxn};
use ethcore::wei::Wei;

fn random_keypair() -> ([u8; 32], [u8; 65]) {
    let secretkey = crypto::gen_secret_key();
    let pubkey = crypto::pubkey_from_secret(&secretkey).unwrap();
    (secretkey, pubkey)
}

fn sample_txn(recipient_pubkey: &[u8; 65], bs_secret: &[u8; 32]) -> ETHTxn {
    ETHTxn {
        nonce: 13,
        gasprice: Wei::from_wei(20),
        gaslimit: 400,
        recipient: ETHTxn::get_address_from_public_key(recipient_pubkey),
        value: Wei::from_wei(10),
        code: vec![0x31, 0x3a, 0x56, 0x57, 0x50, 0x05],
        ecdsa_fields: get_bs_ecsda_field(bs_secret).unwrap(),
    }
}

#[test]
fn test_basic_crypto_should_pass() {
    let (sender_secretkey, sender_pubkey) = random_keypair();
    let (_, receiver_pubkey) = random_keypair();
    let (bs_secretkey, _) = random_keypair();

    let mut sample_txn = sample_txn(&receiver_pubkey, &bs_secretkey);
    assert!(sample_txn.sign_transaction(&sender_secretkey));

    assert_eq!(
        sample_txn.get_sender_addr().unwrap(),
        ETHTxn::get_address_from_public_key(&sender_pubkey)
    );
}

#[test]
fn test_basic_crypto_should_fail() {
    let (sender_secretkey, _) = random_keypair();
    let (_, receiver_pubkey) = random_keypair();
    let (bs_secretkey, _) = random_keypair();

    let mut sample_txn = sample_txn(&receiver_pubkey, &bs_secretkey);
    assert!(sample_txn.sign_transaction(&sender_secretkey));

    let (_, random_pubkey) = random_keypair();

    assert_ne!(
        sample_txn.get_sender_addr().unwrap(),
        ETHTxn::get_address_from_public_key(&random_pubkey)
    );
}

#[test]
fn test_signature_covers_fields() {
    // Tampering with a signed field makes recovery yield a different
    // (unknown) sender.
    let (sender_secretkey, sender_pubkey) = random_keypair();
    let (_, receiver_pubkey) = random_keypair();
    let (bs_secretkey, _) = random_keypair();
    let sender_addr = ETHTxn::get_address_from_public_key(&sender_pubkey);

    let mut txn = sample_txn(&receiver_pubkey, &bs_secretkey);
    assert!(txn.sign_transaction(&sender_secretkey));
    txn.gaslimit = 401;
    match txn.get_sender_addr() {
        Some(addr) => assert_ne!(addr, sender_addr),
        None => {}
    }
}

#[test]
fn test_serialization_excludes_signature() {
    let (sender_secretkey, _) = random_keypair();
    let (_, receiver_pubkey) = random_keypair();
    let (bs_secretkey, _) = random_keypair();

    let mut txn = sample_txn(&receiver_pubkey, &bs_secretkey);
    let before = txn.binary_serialization();
    assert!(txn.sign_transaction(&sender_secretkey));
    assert_eq!(txn.binary_serialization(), before);
}

#[test]
fn test_generate_actors_are_consistent() {
    let actors = ethcore::benchutils::generate_actors();
    assert_eq!(actors.len(), 3);
    for a in actors.iter() {
        assert_eq!(
            crypto::pubkey_from_secret(&a.secretkey).unwrap(),
            a.pubkey
        );
        assert_eq!(ETHTxn::get_address_from_public_key(&a.pubkey), a.address);
    }
    assert_ne!(actors[0].address, actors[1].address);
    assert_ne!(actors[1].address, actors[2].address);
}
