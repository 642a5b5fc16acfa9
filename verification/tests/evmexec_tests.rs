use ethcore::evmexec::ExecutionContext;
use ethcore::ops::Op;
use ethcore::wei::Wei;

#[test]
fn basic_evmexec_execution() {
    let mut engine = ExecutionContext::new(
        20,                 // gas limit
        vec![Op::STOP],     // ops
        Wei::from_wei(100), // transaction value
    );
    assert!(engine.finish_executing());
    assert_eq!(engine.get_gas_left(), 20 - Op::STOP.to_cost());
    assert_eq!(engine.get_value(), Wei::from_wei(100));
}

#[test]
fn evmexec_math() {
    let ops = vec![
        Op::PUSH1(2),
        Op::PUSH1(3),
        Op::PUSH1(4),
        Op::PUSH1(7),
        Op::PUSH1(1),
        Op::ADD,
        Op::SUB,
        Op::MUL,
        Op::DIV,
        Op::SETVAL,
        Op::STOP,
    ];
    let gascost = ops.iter().fold(0, |sum, x| sum + x.to_cost());
    let mut engine = ExecutionContext::new(gascost + 20, ops, Wei::from_wei(100));
    assert!(engine.finish_executing());
    assert_eq!(engine.get_gas_left(), 20);
    assert_eq!(engine.get_value(), Wei::from_wei(6));
}

#[test]
fn evmexec_jumping_subval() {
    let ops = vec![
        Op::PUSH1(2),
        Op::PUSH1(3),
        Op::GT,
        Op::PUSH1(7),
        Op::JUMPI,
        Op::INVALID(0xff),
        Op::INVALID(0xff),
        Op::PUSH1(9),
        Op::SUBVAL,
        Op::STOP,
    ];
    let mut engine = ExecutionContext::new(1000, ops, Wei::from_wei(4));
    assert!(engine.finish_executing());
    assert_eq!(engine.get_value(), Wei::from_wei(0));
}

#[test]
fn evmexec_infinite_loop() {
    let ops = vec![Op::PUSH1(100), Op::PUSH1(0), Op::JUMPI, Op::STOP];
    let mut engine = ExecutionContext::new(1000, ops, Wei::from_wei(4));
    assert!(!engine.finish_executing());
}

#[test]
fn evmexec_empty_code_is_normal_stop() {
    let mut engine = ExecutionContext::new(50, Vec::new(), Wei::from_wei(9));
    assert!(engine.finish_executing());
    assert_eq!(engine.get_gas_left(), 50);
    assert_eq!(engine.get_value(), Wei::from_wei(9));
}

#[test]
fn evmexec_invalid_opcode_charges_only_prefix() {
    // PUSH1(100); PUSH1(0); INVALID: the two pushes cost 3 each, the
    // INVALID itself charges nothing.
    let ops = vec![Op::PUSH1(100), Op::PUSH1(0), Op::INVALID(0x05)];
    let mut engine = ExecutionContext::new(20, ops, Wei::from_wei(0));
    assert!(!engine.finish_executing());
    assert_eq!(engine.get_gas_left(), 14);
}
