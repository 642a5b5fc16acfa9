use ethcore::benchutils::{generate_actors, TxnGenerator};
use ethcore::crypto;
use ethcore::ethblockchain::{ETHBlockchain, MINER_REWARD_WEI};
use ethcore::ethtxn::ETHTxn;
use ethcore::wei::Wei;

fn fresh_address() -> ethcore::aliases::ETHAddress {
    let sk = crypto::gen_secret_key();
    let pk = crypto::pubkey_from_secret(&sk).unwrap();
    ETHTxn::get_address_from_public_key(&pk)
}

#[test]
fn basic_sequential_blockchain_test() {
    let address = fresh_address();

    let mut block_chain = ETHBlockchain::new(1, 13, address);
    let mut block = block_chain.flush_txns();

    let mut iteration = 0;
    while !block.is_valid() {
        iteration += 1;
        block.randomize_nonce();
    }
    println!("Ran for {:?} iterations.", iteration);
}

#[test]
fn test_add_block_pays_miner_reward() {
    let miner = fresh_address();
    // Difficulty 0: every hash is acceptable, so the flushed block can
    // be appended straight away.
    let mut chain = ETHBlockchain::new(1, 0, miner);
    let block = chain.flush_txns();
    assert!(chain.add_block(block));
    assert_eq!(chain.blocks.len(), 2);
    assert_eq!(
        chain.evmstate.world_state.get_value(&miner),
        Some(Wei::from_wei(MINER_REWARD_WEI))
    );
    // A second accepted block pays the reward exactly once more.
    let block2 = chain.flush_txns();
    assert!(chain.add_block(block2));
    assert_eq!(
        chain.evmstate.world_state.get_value(&miner),
        Some(Wei::from_wei(2 * MINER_REWARD_WEI))
    );
}

#[test]
fn test_add_block_rejects_wrong_difficulty() {
    let miner = fresh_address();
    let mut chain = ETHBlockchain::new(1, 255, miner);
    let block = chain.flush_txns();
    // An unsealed block will not meet 255 leading zero bits.
    assert!(!chain.add_block(block));
    assert_eq!(chain.blocks.len(), 1);
    assert_eq!(chain.evmstate.world_state.get_value(&miner), None);
}

#[test]
fn test_process_transaction_drops_unsigned() {
    let miner = fresh_address();
    let mut chain = ETHBlockchain::new(1, 0, miner);
    let sk = crypto::gen_secret_key();
    let txn = ETHTxn {
        nonce: 1,
        gasprice: Wei::from_wei(1),
        gaslimit: 5,
        recipient: fresh_address(),
        value: Wei::from_wei(1),
        code: vec![],
        ecdsa_fields: ethcore::ethtxn::get_bs_ecsda_field(&sk).unwrap(),
    };
    // The placeholder signature does not recover to a funded account:
    // the transaction is dropped, nothing queued.
    assert!(chain.process_transaction(txn).is_none());
    assert_eq!(chain.outstanding_txns.len(), 0);
}

#[test]
fn test_process_transaction_queues_and_flushes() {
    let actors = generate_actors();
    let miner = fresh_address();
    let mut chain = ETHBlockchain::new(1, 0, miner);

    // Fund the actors so their generated transactions are payable.
    for a in actors.iter() {
        chain.evmstate.world_state.pay(&a.address, Wei::from_wei(100_000));
    }

    let mut gen = TxnGenerator::new(&actors, 3);
    let mut blocks = 0;
    while let Some(txn) = gen.next_txn() {
        if let Some(block) = chain.process_transaction(txn) {
            blocks += 1;
            assert_eq!(block.transactions.len(), 1);
            assert!(chain.add_block(block));
        }
    }
    // Limit 1: every accepted transaction fills a block of its own.
    assert_eq!(blocks, 3);
    assert_eq!(chain.blocks.len(), 1 + 3);
    assert_eq!(chain.outstanding_txns.len(), 0);
}
