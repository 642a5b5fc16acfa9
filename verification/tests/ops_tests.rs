use ethcore::ops::Op;

fn compare_vecs<T: Eq>(v1: &Vec<T>, v2: &Vec<T>) -> bool {
    v1.iter().zip(v2).filter(|&(v1_el, v2_el)| v1_el != v2_el).count() == 0
}

#[test]
fn test_stop() {
    let opcodes: Vec<u8> = vec![0x00];
    let actual = Op::from_bytes(&opcodes);
    let expected = vec![Op::STOP];
    assert_eq!(compare_vecs(&actual, &expected), true);
}

#[test]
fn test_stop_setval_difficulty_iszero() {
    let opcodes: Vec<u8> = vec![0x00, 0xb0, 0x44, 0x15];
    let actual = Op::from_bytes(&opcodes);
    let expected = vec![Op::STOP, Op::SETVAL, Op::DIFFICULTY, Op::ISZERO];
    assert_eq!(compare_vecs(&actual, &expected), true);
}

#[test]
fn test_balance_gasprice_jump_jumpi_pop_invalid() {
    let opcodes: Vec<u8> = vec![0x31, 0x3a, 0x56, 0x57, 0x50, 0x05];
    let actual = Op::from_bytes(&opcodes);
    let expected = vec![
        Op::BALANCE,
        Op::GASPRICE,
        Op::JUMP,
        Op::JUMPI,
        Op::POP,
        Op::INVALID(0x05),
    ];
    assert_eq!(compare_vecs(&actual, &expected), true);
}

#[test]
fn test_lt_push_gt_eq() {
    let opcodes: Vec<u8> = vec![0x10, 0x60, 0x10, 0x11, 0x14];
    let actual = Op::from_bytes(&opcodes);
    let expected = vec![Op::LT, Op::PUSH1(0x10), Op::GT, Op::EQ];
    assert_eq!(compare_vecs(&actual, &expected), true);
}

#[test]
fn test_decode_round_trip() {
    // Does not end mid-PUSH1: re-encoding gives the bytes back exactly.
    let bytes: Vec<u8> = vec![0x60, 100, 0x60, 0, 0x57, 0x00, 0x05, 0xb1];
    let ops = Op::from_bytes(&bytes);
    assert_eq!(ethcore::ops::encode_ops(&ops), bytes);
}

#[test]
fn test_decode_round_trip_mid_push() {
    // Ends mid-PUSH1: the dangling PUSH1 byte is dropped.
    let bytes: Vec<u8> = vec![0x00, 0xb0, 0x60];
    let ops = Op::from_bytes(&bytes);
    assert_eq!(ethcore::ops::encode_ops(&ops), vec![0x00, 0xb0]);
}

#[test]
fn test_opcode_costs() {
    assert_eq!(Op::STOP.to_cost(), 0);
    assert_eq!(Op::PUSH1(9).to_cost(), 3);
    assert_eq!(Op::MUL.to_cost(), 5);
    assert_eq!(Op::JUMP.to_cost(), 8);
    assert_eq!(Op::JUMPI.to_cost(), 10);
    assert_eq!(Op::BALANCE.to_cost(), 400);
    assert_eq!(Op::SETVAL.to_cost(), 2);
    assert_eq!(Op::INVALID(0xff).to_cost(), 0);
}
