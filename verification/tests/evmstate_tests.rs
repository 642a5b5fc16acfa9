use ethcore::aliases::ETHAddress;
use ethcore::crypto;
use ethcore::ethstate::ETHState;
use ethcore::ethtxn::{get_bs_ecsda_field, ETHTxn};
use ethcore::evmstate::{EVMState, EndState, FailureReason};
use ethcore::wei::Wei;

struct Ctx {
    miner: ETHAddress,
    sender: ETHAddress,
    sender_secret: [u8; 32],
    receiver: ETHAddress,
    txn: ETHTxn,
    evm_state: EVMState,
}

impl Ctx {
    fn sign_transaction(&mut self) {
        assert!(self.txn.sign_transaction(&self.sender_secret));
    }
}

fn keypair() -> ([u8; 32], ETHAddress) {
    let secretkey = crypto::gen_secret_key();
    let pubkey = crypto::pubkey_from_secret(&secretkey).unwrap();
    let addr = ETHTxn::get_address_from_public_key(&pubkey);
    (secretkey, addr)
}

fn get_basic_test_ctx() -> Ctx {
    let (_miner_secret, miner_addr) = keypair();
    let (sender_secret, sender_addr) = keypair();
    let (_receiver_secret, receiver_addr) = keypair();
    let (bs_secret, _) = keypair();

    let sample_txn = ETHTxn {
        nonce: 1,
        gasprice: Wei::from_wei(20),
        gaslimit: 0,
        recipient: receiver_addr,
        value: Wei::from_wei(10),
        code: vec![],
        ecdsa_fields: get_bs_ecsda_field(&bs_secret).unwrap(),
    };

    let mut ctx = Ctx {
        miner: miner_addr,
        sender: sender_addr,
        sender_secret,
        receiver: receiver_addr,
        txn: sample_txn,
        evm_state: EVMState::new(ETHState::default(), miner_addr),
    };

    ctx.sign_transaction();
    ctx
}

#[test]
fn general() {
    let mut test_ctx = get_basic_test_ctx();

    let mut txn_val_in_wei = 10;
    test_ctx.txn.value = Wei::from_wei(txn_val_in_wei);

    // initialize accounts
    test_ctx.evm_state.world_state.pay(&test_ctx.sender, Wei::from_wei(30));

    let mut expected_sender_balance = 30 - txn_val_in_wei;
    let mut expected_miner_balance = 0;

    // set gasprice and limit
    let gasprice_in_wei = 2;
    let gaslimit = 5;
    test_ctx.txn.gasprice = Wei::from_wei(gasprice_in_wei);
    test_ctx.txn.gaslimit = gaslimit;

    // increment the nonce just cause
    test_ctx.txn.nonce += 1;
    test_ctx.evm_state.world_state.increment_nonce(&test_ctx.sender);

    // code: [Op::PUSH1(2), Op::ADDVAL, Op::STOP]
    test_ctx.txn.code = vec![0x60, 2, 0xb1, 0x00];
    txn_val_in_wei += 2;
    expected_sender_balance -= 2;
    let code_cost = (3 + 2) * gasprice_in_wei;
    expected_miner_balance += code_cost;
    expected_sender_balance -= code_cost;

    test_ctx.sign_transaction();

    assert_eq!(
        test_ctx.evm_state.run_transaction(&test_ctx.txn),
        EndState::SUCCESS
    );
    assert_eq!(
        test_ctx.evm_state.world_state.get_value(&test_ctx.sender).unwrap(),
        Wei::from_wei(expected_sender_balance)
    );
    assert_eq!(
        test_ctx.evm_state.world_state.get_value(&test_ctx.receiver).unwrap(),
        Wei::from_wei(txn_val_in_wei)
    );
    assert_eq!(
        test_ctx.evm_state.world_state.get_value(&test_ctx.miner).unwrap(),
        Wei::from_wei(expected_miner_balance)
    );
}

#[test]
fn invalid_nonce_fails() {
    let mut test_ctx = get_basic_test_ctx();

    let sender_bal = 10;
    let receiver_bal = 20;
    let miner_bal = 30;
    test_ctx.evm_state.world_state.pay(&test_ctx.sender, Wei::from_wei(sender_bal));
    test_ctx.evm_state.world_state.pay(&test_ctx.receiver, Wei::from_wei(receiver_bal));
    test_ctx.evm_state.world_state.pay(&test_ctx.miner, Wei::from_wei(miner_bal));

    // increment the nonce twice to cause an error
    test_ctx.txn.nonce += 2;
    test_ctx.evm_state.world_state.increment_nonce(&test_ctx.sender);

    test_ctx.sign_transaction();

    assert_eq!(
        test_ctx.evm_state.run_transaction(&test_ctx.txn),
        EndState::FAILURE(FailureReason::InvalidNonce)
    );
    assert_eq!(
        test_ctx.evm_state.world_state.get_value(&test_ctx.sender).unwrap(),
        Wei::from_wei(sender_bal)
    );
    assert_eq!(
        test_ctx.evm_state.world_state.get_value(&test_ctx.receiver).unwrap(),
        Wei::from_wei(receiver_bal)
    );
    assert_eq!(
        test_ctx.evm_state.world_state.get_value(&test_ctx.miner).unwrap(),
        Wei::from_wei(miner_bal)
    );
}

#[test]
fn invalid_sender_signature_fails() {
    let mut test_ctx = get_basic_test_ctx();

    let sender_bal = 10;
    let receiver_bal = 20;
    let miner_bal = 30;
    test_ctx.evm_state.world_state.pay(&test_ctx.sender, Wei::from_wei(sender_bal));
    test_ctx.evm_state.world_state.pay(&test_ctx.receiver, Wei::from_wei(receiver_bal));
    test_ctx.evm_state.world_state.pay(&test_ctx.miner, Wei::from_wei(miner_bal));

    test_ctx.txn.gaslimit = 100; // previously generated signature will now be invalid

    assert_eq!(
        test_ctx.evm_state.run_transaction(&test_ctx.txn),
        EndState::FAILURE(FailureReason::InvalidSignature)
    );
    assert_eq!(
        test_ctx.evm_state.world_state.get_value(&test_ctx.sender).unwrap(),
        Wei::from_wei(sender_bal)
    );
    assert_eq!(
        test_ctx.evm_state.world_state.get_value(&test_ctx.receiver).unwrap(),
        Wei::from_wei(receiver_bal)
    );
    assert_eq!(
        test_ctx.evm_state.world_state.get_value(&test_ctx.miner).unwrap(),
        Wei::from_wei(miner_bal)
    );
}

#[test]
fn gas_money_checks() {
    let mut test_ctx = get_basic_test_ctx();

    let sender_bal = 10;
    let receiver_bal = 20;
    let miner_bal = 30;
    test_ctx.evm_state.world_state.pay(&test_ctx.sender, Wei::from_wei(sender_bal));
    test_ctx.evm_state.world_state.pay(&test_ctx.receiver, Wei::from_wei(receiver_bal));
    test_ctx.evm_state.world_state.pay(&test_ctx.miner, Wei::from_wei(miner_bal));

    test_ctx.txn.gaslimit = 10000; // really big number
    test_ctx.sign_transaction();

    assert_eq!(
        test_ctx.evm_state.run_transaction(&test_ctx.txn),
        EndState::FAILURE(FailureReason::InsufficientBalance)
    );
    assert_eq!(
        test_ctx.evm_state.world_state.get_value(&test_ctx.sender).unwrap(),
        Wei::from_wei(sender_bal)
    );
    assert_eq!(
        test_ctx.evm_state.world_state.get_value(&test_ctx.receiver).unwrap(),
        Wei::from_wei(receiver_bal)
    );
    assert_eq!(
        test_ctx.evm_state.world_state.get_value(&test_ctx.miner).unwrap(),
        Wei::from_wei(miner_bal)
    );
}

#[test]
fn txn_value_money_fails() {
    let mut test_ctx = get_basic_test_ctx();

    let sender_bal = 10;
    let receiver_bal = 20;
    let miner_bal = 30;
    test_ctx.evm_state.world_state.pay(&test_ctx.sender, Wei::from_wei(sender_bal));
    test_ctx.evm_state.world_state.pay(&test_ctx.receiver, Wei::from_wei(receiver_bal));
    test_ctx.evm_state.world_state.pay(&test_ctx.miner, Wei::from_wei(miner_bal));

    test_ctx.txn.value = Wei::from_wei(10000); // really big number
    test_ctx.sign_transaction();

    assert_eq!(
        test_ctx.evm_state.run_transaction(&test_ctx.txn),
        EndState::FAILURE(FailureReason::InsufficientBalance)
    );
    assert_eq!(
        test_ctx.evm_state.world_state.get_value(&test_ctx.sender).unwrap(),
        Wei::from_wei(sender_bal)
    );
    assert_eq!(
        test_ctx.evm_state.world_state.get_value(&test_ctx.receiver).unwrap(),
        Wei::from_wei(receiver_bal)
    );
    assert_eq!(
        test_ctx.evm_state.world_state.get_value(&test_ctx.miner).unwrap(),
        Wei::from_wei(miner_bal)
    );
}

#[test]
fn code_never_stops() {
    let mut test_ctx = get_basic_test_ctx();

    let sender_bal = 100;
    let receiver_bal = 20;
    let miner_bal = 30;
    test_ctx.evm_state.world_state.pay(&test_ctx.sender, Wei::from_wei(sender_bal));
    test_ctx.evm_state.world_state.pay(&test_ctx.receiver, Wei::from_wei(receiver_bal));
    test_ctx.evm_state.world_state.pay(&test_ctx.miner, Wei::from_wei(miner_bal));

    test_ctx.txn.gaslimit = 50;
    let gas_price_in_wei = 2;
    test_ctx.txn.gasprice = Wei::from_wei(gas_price_in_wei);
    // [Op::PUSH1(100), Op::PUSH1(0), Op::JUMPI, Op::STOP]
    test_ctx.txn.code = vec![0x60, 100, 0x60, 0, 0x57, 0x00];
    test_ctx.sign_transaction();

    let gas_cost = 48; // b/c gas_left = 50%(COST(JUMP)*2 + COST(JUMPI)) = 50%(3*2+10) = 2
    let expected_sender_balance = sender_bal - gas_cost * gas_price_in_wei;
    let expected_receiver_balance = receiver_bal;
    let expected_miner_balance = miner_bal + gas_cost * gas_price_in_wei;

    assert_eq!(
        test_ctx.evm_state.run_transaction(&test_ctx.txn),
        EndState::FAILURE(FailureReason::InvalidCode)
    );
    assert_eq!(
        test_ctx.evm_state.world_state.get_value(&test_ctx.sender).unwrap(),
        Wei::from_wei(expected_sender_balance)
    );
    assert_eq!(
        test_ctx.evm_state.world_state.get_value(&test_ctx.receiver).unwrap(),
        Wei::from_wei(expected_receiver_balance)
    );
    assert_eq!(
        test_ctx.evm_state.world_state.get_value(&test_ctx.miner).unwrap(),
        Wei::from_wei(expected_miner_balance)
    );
}

#[test]
fn invalid_code() {
    let mut test_ctx = get_basic_test_ctx();

    let sender_bal = 100;
    let receiver_bal = 20;
    let miner_bal = 30;
    test_ctx.evm_state.world_state.pay(&test_ctx.sender, Wei::from_wei(sender_bal));
    test_ctx.evm_state.world_state.pay(&test_ctx.receiver, Wei::from_wei(receiver_bal));
    test_ctx.evm_state.world_state.pay(&test_ctx.miner, Wei::from_wei(miner_bal));

    // [PUSH1(100), PUSH1(0), INVALID(0x05)]
    test_ctx.txn.code = vec![0x60, 100, 0x60, 0, 0x05];
    test_ctx.txn.gaslimit = 20;
    let gas_price_in_wei = 5;
    test_ctx.txn.gasprice = Wei::from_wei(gas_price_in_wei);
    test_ctx.txn.value = Wei::from_wei(10);
    test_ctx.sign_transaction();

    let gas_cost = 6;
    let expected_sender_balance = sender_bal - gas_cost * gas_price_in_wei;
    let expected_receiver_balance = receiver_bal;
    let expected_miner_balance = miner_bal + gas_cost * gas_price_in_wei;

    assert_eq!(
        test_ctx.evm_state.run_transaction(&test_ctx.txn),
        EndState::FAILURE(FailureReason::InvalidCode)
    );
    assert_eq!(
        test_ctx.evm_state.world_state.get_value(&test_ctx.sender).unwrap(),
        Wei::from_wei(expected_sender_balance)
    );
    assert_eq!(
        test_ctx.evm_state.world_state.get_value(&test_ctx.receiver).unwrap(),
        Wei::from_wei(expected_receiver_balance)
    );
    assert_eq!(
        test_ctx.evm_state.world_state.get_value(&test_ctx.miner).unwrap(),
        Wei::from_wei(expected_miner_balance)
    );
}

#[test]
fn plain_transfer() {
    // Sender balance 30, gasprice 2, gaslimit 5, value 10, empty code:
    // success; empty code costs no gas.
    let mut test_ctx = get_basic_test_ctx();

    test_ctx.evm_state.world_state.pay(&test_ctx.sender, Wei::from_wei(30));
    test_ctx.txn.gasprice = Wei::from_wei(2);
    test_ctx.txn.gaslimit = 5;
    test_ctx.txn.value = Wei::from_wei(10);
    test_ctx.txn.code = vec![];
    test_ctx.sign_transaction();

    assert_eq!(
        test_ctx.evm_state.run_transaction(&test_ctx.txn),
        EndState::SUCCESS
    );
    assert_eq!(
        test_ctx.evm_state.world_state.get_value(&test_ctx.sender).unwrap(),
        Wei::from_wei(20)
    );
    assert_eq!(
        test_ctx.evm_state.world_state.get_value(&test_ctx.receiver).unwrap(),
        Wei::from_wei(10)
    );
    assert_eq!(
        test_ctx.evm_state.world_state.get_value(&test_ctx.miner).unwrap(),
        Wei::from_wei(0)
    );
}
