use vstd::prelude::*;
use crate::gas;
use crate::gas::Gas;

verus! {

/// One decoded virtual-machine instruction.
#[derive(Debug, Clone, Copy, PartialEq, Eq, Structural)]
pub enum Op {
    STOP,
    ADD,
    MUL,
    SUB,
    DIV,
    LT,
    GT,
    EQ,
    ISZERO,
    ADDRESS,
    BALANCE,
    GASPRICE,
    DIFFICULTY,
    GASLIMIT,
    POP,
    JUMP,
    JUMPI,
    GAS,
    PUSH1(u8),
    SETVAL,
    ADDVAL,
    SUBVAL,
    INVALID(u8),
}

/// The fixed gas cost of an instruction.
pub open spec fn spec_cost(op: Op) -> Gas {
    match op {
        Op::STOP => gas::GZERO,
        Op::ADD => gas::GVERYLOW,
        Op::MUL => gas::GLOW,
        Op::SUB => gas::GVERYLOW,
        Op::DIV => gas::GLOW,
        Op::LT => gas::GVERYLOW,
        Op::GT => gas::GVERYLOW,
        Op::EQ => gas::GVERYLOW,
        Op::ISZERO => gas::GVERYLOW,
        Op::ADDRESS => gas::GBASE,
        Op::BALANCE => gas::GBALANCE,
        Op::GASPRICE => gas::GBASE,
        Op::DIFFICULTY => gas::GBASE,
        Op::GASLIMIT => gas::GBASE,
        Op::POP => gas::GBASE,
        Op::JUMP => gas::GMID,
        Op::JUMPI => gas::GHIGH,
        Op::GAS => gas::GBASE,
        Op::PUSH1(_) => gas::GVERYLOW,
        Op::SETVAL => gas::GBASE,
        Op::ADDVAL => gas::GBASE,
        Op::SUBVAL => gas::GBASE,
        Op::INVALID(_) => gas::GZERO,
    }
}

/// The instruction a single byte stands for; `PUSH1`'s immediate is
/// filled in by the decoder from the following byte.
pub open spec fn spec_from_byte(byte: u8) -> Op {
    match byte {
        0x00u8 => Op::STOP,
        0x01u8 => Op::ADD,
        0x02u8 => Op::MUL,
        0x03u8 => Op::SUB,
        0x04u8 => Op::DIV,
        0x10u8 => Op::LT,
        0x11u8 => Op::GT,
        0x14u8 => Op::EQ,
        0x15u8 => Op::ISZERO,
        0x30u8 => Op::ADDRESS,
        0x31u8 => Op::BALANCE,
        0x3au8 => Op::GASPRICE,
        0x44u8 => Op::DIFFICULTY,
        0x45u8 => Op::GASLIMIT,
        0x50u8 => Op::POP,
        0x56u8 => Op::JUMP,
        0x57u8 => Op::JUMPI,
        0x5au8 => Op::GAS,
        0x60u8 => Op::PUSH1(0),
        0xb0u8 => Op::SETVAL,
        0xb1u8 => Op::ADDVAL,
        0xb2u8 => Op::SUBVAL,
        x => Op::INVALID(x),
    }
}

/// The instruction sequence a byte string decodes to, in input order.
/// A `PUSH1` byte takes the following byte as its immediate; a `PUSH1`
/// that ends the input with no immediate is dropped.
pub open spec fn decode(bytes: Seq<u8>) -> Seq<Op>
    decreases bytes.len(),
{
    if bytes.len() == 0 {
        Seq::empty()
    } else if spec_from_byte(bytes[0]) is PUSH1 {
        if bytes.len() >= 2 {
            seq![Op::PUSH1(bytes[1])] + decode(bytes.skip(2))
        } else {
            Seq::empty()
        }
    } else {
        seq![spec_from_byte(bytes[0])] + decode(bytes.skip(1))
    }
}

/// The bytes an instruction encodes back to.
pub open spec fn encode_one(op: Op) -> Seq<u8> {
    match op {
        Op::STOP => seq![0x00u8],
        Op::ADD => seq![0x01u8],
        Op::MUL => seq![0x02u8],
        Op::SUB => seq![0x03u8],
        Op::DIV => seq![0x04u8],
        Op::LT => seq![0x10u8],
        Op::GT => seq![0x11u8],
        Op::EQ => seq![0x14u8],
        Op::ISZERO => seq![0x15u8],
        Op::ADDRESS => seq![0x30u8],
        Op::BALANCE => seq![0x31u8],
        Op::GASPRICE => seq![0x3au8],
        Op::DIFFICULTY => seq![0x44u8],
        Op::GASLIMIT => seq![0x45u8],
        Op::POP => seq![0x50u8],
        Op::JUMP => seq![0x56u8],
        Op::JUMPI => seq![0x57u8],
        Op::GAS => seq![0x5au8],
        Op::PUSH1(v) => seq![0x60u8, v],
        Op::SETVAL => seq![0xb0u8],
        Op::ADDVAL => seq![0xb1u8],
        Op::SUBVAL => seq![0xb2u8],
        Op::INVALID(x) => seq![x],
    }
}

/// The byte string an instruction sequence encodes to.
pub open spec fn encode(ops: Seq<Op>) -> Seq<u8>
    decreases ops.len(),
{
    if ops.len() == 0 {
        Seq::empty()
    } else {
        encode_one(ops[0]) + encode(ops.skip(1))
    }
}

/// Whether a byte string ends with a `PUSH1` byte whose immediate is
/// missing (the decoder drops that trailing instruction).
pub open spec fn ends_mid_push(bytes: Seq<u8>) -> bool
    decreases bytes.len(),
{
    if bytes.len() == 0 {
        false
    } else if spec_from_byte(bytes[0]) is PUSH1 {
        if bytes.len() == 1 {
            true
        } else {
            ends_mid_push(bytes.skip(2))
        }
    } else {
        ends_mid_push(bytes.skip(1))
    }
}

/// Decoding never yields more instructions than input bytes.
pub proof fn lemma_decode_len(bytes: Seq<u8>)
    ensures
        decode(bytes).len() <= bytes.len(),
    decreases bytes.len(),
{
    if bytes.len() == 0 {
    } else if spec_from_byte(bytes[0]) is PUSH1 {
        if bytes.len() >= 2 {
            lemma_decode_len(bytes.skip(2));
        }
    } else {
        lemma_decode_len(bytes.skip(1));
    }
}

/// Re-encoding a decoded byte string gives the bytes back: exactly when
/// the input does not end in the middle of a `PUSH1`, and with the lone
/// trailing `PUSH1` byte removed when it does.
pub proof fn lemma_decode_round_trip(bytes: Seq<u8>)
    ensures
        !ends_mid_push(bytes) ==> encode(decode(bytes)) == bytes,
        ends_mid_push(bytes) ==> encode(decode(bytes)) == bytes.take(bytes.len() - 1),
    decreases bytes.len(),
{
    if bytes.len() == 0 {
        assert(encode(decode(bytes)) =~= bytes);
    } else if spec_from_byte(bytes[0]) is PUSH1 {
        assert(bytes[0] == 0x60);
        if bytes.len() == 1 {
            assert(encode(decode(bytes)) =~= bytes.take(0));
        } else {
            let tail = bytes.skip(2);
            lemma_decode_round_trip(tail);
            let ops = decode(bytes);
            assert(ops == seq![Op::PUSH1(bytes[1])] + decode(tail));
            assert(ops.skip(1) =~= decode(tail));
            assert(encode(ops) == seq![0x60u8, bytes[1]] + encode(decode(tail)));
            if !ends_mid_push(tail) {
                assert(encode(ops) =~= bytes);
            } else {
                assert(encode(ops) =~= bytes.take(bytes.len() - 1));
            }
        }
    } else {
        let tail = bytes.skip(1);
        lemma_decode_round_trip(tail);
        let ops = decode(bytes);
        assert(encode_one(spec_from_byte(bytes[0])) =~= seq![bytes[0]]);
        assert(ops.skip(1) =~= decode(tail));
        assert(encode(ops) == seq![bytes[0]] + encode(decode(tail)));
        if !ends_mid_push(tail) {
            assert(encode(ops) =~= bytes);
        } else {
            assert(encode(ops) =~= bytes.take(bytes.len() - 1));
        }
    }
}

impl Op {
    /// The fixed gas cost of this instruction.
    pub fn to_cost(&self) -> (r: Gas)
        ensures
            r == spec_cost(*self),
    {
        match self {
            Op::STOP => gas::GZERO,
            Op::ADD => gas::GVERYLOW,
            Op::MUL => gas::GLOW,
            Op::SUB => gas::GVERYLOW,
            Op::DIV => gas::GLOW,
            Op::LT => gas::GVERYLOW,
            Op::GT => gas::GVERYLOW,
            Op::EQ => gas::GVERYLOW,
            Op::ISZERO => gas::GVERYLOW,
            Op::ADDRESS => gas::GBASE,
            Op::BALANCE => gas::GBALANCE,
            Op::GASPRICE => gas::GBASE,
            Op::DIFFICULTY => gas::GBASE,
            Op::GASLIMIT => gas::GBASE,
            Op::POP => gas::GBASE,
            Op::JUMP => gas::GMID,
            Op::JUMPI => gas::GHIGH,
            Op::GAS => gas::GBASE,
            Op::PUSH1(_) => gas::GVERYLOW,
            Op::SETVAL => gas::GBASE,
            Op::ADDVAL => gas::GBASE,
            Op::SUBVAL => gas::GBASE,
            Op::INVALID(_) => gas::GZERO,
        }
    }

    /// The instruction a single byte stands for.
    pub fn from_byte(byte: u8) -> (r: Op)
        ensures
            r == spec_from_byte(byte),
    {
        match byte {
            0x00u8 => Op::STOP,
            0x01u8 => Op::ADD,
            0x02u8 => Op::MUL,
            0x03u8 => Op::SUB,
            0x04u8 => Op::DIV,
            0x10u8 => Op::LT,
            0x11u8 => Op::GT,
            0x14u8 => Op::EQ,
            0x15u8 => Op::ISZERO,
            0x30u8 => Op::ADDRESS,
            0x31u8 => Op::BALANCE,
            0x3au8 => Op::GASPRICE,
            0x44u8 => Op::DIFFICULTY,
            0x45u8 => Op::GASLIMIT,
            0x50u8 => Op::POP,
            0x56u8 => Op::JUMP,
            0x57u8 => Op::JUMPI,
            0x5au8 => Op::GAS,
            0x60u8 => Op::PUSH1(0),
            0xb0u8 => Op::SETVAL,
            0xb1u8 => Op::ADDVAL,
            0xb2u8 => Op::SUBVAL,
            x => Op::INVALID(x),
        }
    }

    /// Decode a whole byte string, dropping a trailing immediate-less `PUSH1`.
    pub fn from_bytes(bytes: &[u8]) -> (ops: Vec<Op>)
        ensures
            ops@ == decode(bytes@),
    {
        let n = bytes.len();
        let mut ops: Vec<Op> = Vec::new();
        let mut i: usize = 0;
        proof {
            assert(bytes@.skip(0) =~= bytes@);
            assert(ops@ + decode(bytes@) =~= decode(bytes@));
        }
        while i < n
            invariant
                n == bytes@.len(),
                i <= n,
                decode(bytes@) == ops@ + decode(bytes@.skip(i as int)),
            decreases n - i,
        {
            let ghost rest = bytes@.skip(i as int);
            let op = Op::from_byte(bytes[i]);
            match op {
                Op::PUSH1(_) => {
                    if i + 1 < n {
                        ops.push(Op::PUSH1(bytes[i + 1]));
                        proof {
                            assert(rest.skip(2) =~= bytes@.skip(i + 2));
                        }
                        i += 2;
                    } else {
                        proof {
                            assert(decode(rest) =~= Seq::<Op>::empty());
                        }
                        i += 1;
                    }
                }
                other => {
                    ops.push(other);
                    proof {
                        assert(rest.skip(1) =~= bytes@.skip(i + 1));
                    }
                    i += 1;
                }
            }
        }
        proof {
            assert(bytes@.skip(n as int) =~= Seq::<u8>::empty());
            assert(ops@ =~= decode(bytes@));
        }
        ops
    }
}

/// Re-encode a decoded instruction sequence into bytes.
pub fn encode_ops(ops: &Vec<Op>) -> (bytes: Vec<u8>)
    ensures
        bytes@ == encode(ops@),
{
    let mut bytes: Vec<u8> = Vec::new();
    let mut i: usize = 0;
    proof {
        assert(ops@.skip(0) =~= ops@);
        assert(bytes@ + encode(ops@) =~= encode(ops@));
    }
    while i < ops.len()
        invariant
            i <= ops@.len(),
            encode(ops@) == bytes@ + encode(ops@.skip(i as int)),
        decreases ops@.len() - i,
    {
        let ghost rest = ops@.skip(i as int);
        match ops[i] {
            Op::PUSH1(v) => {
                bytes.push(0x60u8);
                bytes.push(v);
            }
            Op::INVALID(x) => {
                bytes.push(x);
            }
            other => {
                let b = match other {
                    Op::STOP => 0x00u8,
                    Op::ADD => 0x01u8,
                    Op::MUL => 0x02u8,
                    Op::SUB => 0x03u8,
                    Op::DIV => 0x04u8,
                    Op::LT => 0x10u8,
                    Op::GT => 0x11u8,
                    Op::EQ => 0x14u8,
                    Op::ISZERO => 0x15u8,
                    Op::ADDRESS => 0x30u8,
                    Op::BALANCE => 0x31u8,
                    Op::GASPRICE => 0x3au8,
                    Op::DIFFICULTY => 0x44u8,
                    Op::GASLIMIT => 0x45u8,
                    Op::POP => 0x50u8,
                    Op::JUMP => 0x56u8,
                    Op::JUMPI => 0x57u8,
                    Op::GAS => 0x5au8,
                    Op::SETVAL => 0xb0u8,
                    Op::ADDVAL => 0xb1u8,
                    Op::SUBVAL => 0xb2u8,
                    _ => 0x00u8,
                };
                bytes.push(b);
            }
        }
        proof {
            assert(encode_one(rest[0]) =~= encode_one(ops@[i as int]));
            assert(rest.skip(1) =~= ops@.skip(i + 1));
        }
        i += 1;
    }
    proof {
        assert(ops@.skip(ops@.len() as int) =~= Seq::<Op>::empty());
        assert(bytes@ =~= encode(ops@));
    }
    bytes
}

} // verus!
