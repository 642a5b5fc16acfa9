use vstd::prelude::*;
use vstd::arithmetic::mul::{lemma_mul_inequality, lemma_mul_is_distributive_sub};
use vstd::pervasive::unreached;
use crate::aliases::ETHAddress;
use crate::ethstate::{lemma_balance_le_total_any, ETHState};
use crate::ethtxn::{sender_of, ETHTxn};
use crate::evmexec::{run, ExecutionContext, VmState};
use crate::ops::{lemma_decode_len, decode, Op};
use crate::wei::Wei;

verus! {

/// Why a transaction was rejected.
#[derive(Debug, PartialEq, Eq, Structural)]
pub enum FailureReason {
    InvalidSignature,
    InvalidNonce,
    InsufficientBalance,
    InvalidCode,
}

/// The outcome of processing one transaction.
#[derive(Debug, PartialEq, Eq, Structural)]
pub enum EndState {
    SUCCESS,
    FAILURE(FailureReason),
}

/// The fee reserved up front: gas price times gas limit.
pub open spec fn spec_max_fee(txn: ETHTxn) -> int {
    txn.gasprice@ * txn.gaslimit
}

/// The machine state a transaction's code starts in: empty stack, the
/// decoded code, the gas limit as budget, the transaction's value.
pub open spec fn vm_init(txn: ETHTxn) -> VmState {
    VmState {
        stack: Seq::<u8>::empty(),
        pc: 0,
        gas: txn.gaslimit as nat,
        code: decode(txn.code@),
        value: txn.value@ as nat,
    }
}

/// The machine state the transaction's code halts in.
pub open spec fn vm_final(txn: ETHTxn) -> VmState {
    run(vm_init(txn)).0
}

/// Whether the transaction's code halts normally.
pub open spec fn vm_ok(txn: ETHTxn) -> bool {
    run(vm_init(txn)).1
}

/// The fee actually kept for consumed gas: price times gas consumed.
pub open spec fn spec_fee(txn: ETHTxn) -> int {
    txn.gasprice@ * (txn.gaslimit - vm_final(txn).gas)
}

/// Whether the sender can be recovered and has an account.
pub open spec fn sig_ok(st: ETHState, txn: ETHTxn) -> bool {
    sender_of(txn) is Some && st.contains(sender_of(txn).unwrap())
}

/// The sender's address (meaningful when recovery succeeds).
pub open spec fn spec_sender(txn: ETHTxn) -> Seq<u8> {
    sender_of(txn).unwrap()
}

/// Whether the transaction carries the account's next nonce.
pub open spec fn nonce_ok(st: ETHState, txn: ETHTxn) -> bool {
    txn.nonce == st.nonce_of(spec_sender(txn)) + 1
}

/// Whether the transaction passes validation and the sender can
/// reserve the maximum fee, so gas is charged and the code runs.
pub open spec fn charged(st: ETHState, txn: ETHTxn) -> bool {
    sig_ok(st, txn) && nonce_ok(st, txn) && st.balance_of(spec_sender(txn)) >= spec_max_fee(txn)
}

/// What the sender holds when the final value is deducted: the
/// starting balance less the consumed-gas fee — except that a miner
/// who is also the sender has been paid that fee back.
pub open spec fn spec_avail(st: ETHState, txn: ETHTxn, miner: Seq<u8>) -> int {
    st.balance_of(spec_sender(txn)) - (if miner == spec_sender(txn) {
        0int
    } else {
        spec_fee(txn)
    })
}

/// Whether the transaction goes through completely: charged, the code
/// halts normally, and the final value is covered by what the sender
/// still holds after fees.
pub open spec fn succeeded(st: ETHState, txn: ETHTxn, miner: Seq<u8>) -> bool {
    charged(st, txn) && vm_ok(txn) && spec_avail(st, txn, miner) >= vm_final(txn).value
}

/// The outcome the processor returns, as a function of the starting
/// world state, the transaction and the miner's address.
pub open spec fn spec_outcome(st: ETHState, txn: ETHTxn, miner: Seq<u8>) -> EndState {
    if !sig_ok(st, txn) {
        EndState::FAILURE(FailureReason::InvalidSignature)
    } else if !nonce_ok(st, txn) {
        EndState::FAILURE(FailureReason::InvalidNonce)
    } else if st.balance_of(spec_sender(txn)) < spec_max_fee(txn) {
        EndState::FAILURE(FailureReason::InsufficientBalance)
    } else if !vm_ok(txn) {
        EndState::FAILURE(FailureReason::InvalidCode)
    } else if spec_avail(st, txn, miner) < vm_final(txn).value {
        EndState::FAILURE(FailureReason::InsufficientBalance)
    } else {
        EndState::SUCCESS
    }
}

/// How much address `a`'s balance changes when `txn` is processed
/// against `st` with miner `miner`. Fees move from the sender to the
/// miner once gas is charged; on success the final value moves from
/// the sender to the recipient. Shared roles cancel out.
pub open spec fn spec_balance_delta(st: ETHState, txn: ETHTxn, miner: Seq<u8>, a: Seq<u8>) -> int {
    if !charged(st, txn) {
        0
    } else {
        let fee = spec_fee(txn);
        let v = vm_final(txn).value as int;
        (if a == miner {
            fee
        } else {
            0
        }) - (if a == spec_sender(txn) {
            fee
        } else {
            0
        }) + (if succeeded(st, txn, miner) {
            (if a == txn.recipient@ {
                v
            } else {
                0
            }) - (if a == spec_sender(txn) {
                v
            } else {
                0
            })
        } else {
            0
        })
    }
}

/// Conservation: a processed transaction moves money only among the
/// sender, the miner and the recipient, and with those three distinct
/// their balance deltas sum to zero. (That the total over all accounts
/// never changes is an ensures of `run_transaction` itself.)
pub proof fn lemma_conservation(st: ETHState, txn: ETHTxn, miner: Seq<u8>)
    ensures
        forall|a: Seq<u8>|
            a != spec_sender(txn) && a != miner && a != txn.recipient@ ==> #[trigger]
            spec_balance_delta(st, txn, miner, a) == 0,
        spec_sender(txn) != miner && spec_sender(txn) != txn.recipient@ && miner != txn.recipient@
            ==> spec_balance_delta(st, txn, miner, spec_sender(txn)) + spec_balance_delta(
            st,
            txn,
            miner,
            miner,
        ) + spec_balance_delta(st, txn, miner, txn.recipient@) == 0,
{
}

/// Miner reward invariance: on a failed-with-code outcome, with the
/// miner distinct from the sender, the miner gains exactly
/// gasprice × gas consumed and the sender loses exactly that.
pub proof fn lemma_miner_reward_on_code_failure(st: ETHState, txn: ETHTxn, miner: Seq<u8>)
    requires
        spec_outcome(st, txn, miner) == EndState::FAILURE(FailureReason::InvalidCode),
        miner != spec_sender(txn),
    ensures
        spec_balance_delta(st, txn, miner, miner) == spec_fee(txn),
        spec_balance_delta(st, txn, miner, spec_sender(txn)) == -spec_fee(txn),
        spec_fee(txn) == txn.gasprice@ * (txn.gaslimit - vm_final(txn).gas),
{
}

/// The transaction processor: a world state and the address fees are
/// paid to.
#[derive(Debug)]
pub struct EVMState {
    pub world_state: ETHState,
    pub miner_address: ETHAddress,
}

impl EVMState {
    /// A processor over `state` paying fees to `miner`.
    pub fn new(state: ETHState, miner: ETHAddress) -> (r: EVMState)
        ensures
            r.world_state == state,
            r.miner_address@ == miner@,
    {
        EVMState { world_state: state, miner_address: miner }
    }

    /// Give up the processor and keep its world state.
    pub fn get_final_state(self) -> (r: ETHState)
        ensures
            r == self.world_state,
    {
        self.world_state
    }

    /// Process one transaction: recover the sender, check the nonce,
    /// reserve the maximum fee, run the code, refund unused gas, pay
    /// the miner for consumed gas, and on success move the final value
    /// to the recipient. The outcome, every balance change, every
    /// nonce change and the conservation of the total are pinned down
    /// exactly.
    pub fn run_transaction(&mut self, txn: &ETHTxn) -> (r: EndState)
        requires
            old(self).world_state.wf(),
            old(self).world_state.total() <= u128::MAX,
            txn.gasprice@ * txn.gaslimit <= u128::MAX,
            txn.value@ + 255 * txn.gaslimit <= u128::MAX,
            txn.code@.len() <= u32::MAX,
        ensures
            r == spec_outcome(old(self).world_state, *txn, old(self).miner_address@),
            final(self).miner_address == old(self).miner_address,
            final(self).world_state.wf(),
            final(self).world_state.total() == old(self).world_state.total(),
            forall|a: Seq<u8>| #[trigger] final(self).world_state.balance_of(a) == old(
                self,
            ).world_state.balance_of(a) + spec_balance_delta(
                old(self).world_state,
                *txn,
                old(self).miner_address@,
                a,
            ),
            forall|a: Seq<u8>| #[trigger] final(self).world_state.nonce_of(a) == old(
                self,
            ).world_state.nonce_of(a) + (if sig_ok(old(self).world_state, *txn) && nonce_ok(
                old(self).world_state,
                *txn,
            ) && a == spec_sender(*txn) {
                1int
            } else {
                0int
            }),
            forall|a: Seq<u8>| #[trigger] final(self).world_state.contains(a) == (old(
                self,
            ).world_state.contains(a) || (charged(old(self).world_state, *txn) && a == old(
                self,
            ).miner_address@) || (succeeded(old(self).world_state, *txn, old(self).miner_address@)
                && a == txn.recipient@)),
            !(sig_ok(old(self).world_state, *txn) && nonce_ok(old(self).world_state, *txn))
                ==> *final(self) == *old(self),
    {
        let ghost st0 = self.world_state;
        let sender_addr = match txn.get_sender_addr() {
            Some(addr) => {
                if self.world_state.key_exists(&addr) {
                    addr
                } else {
                    return EndState::FAILURE(FailureReason::InvalidSignature);
                }
            }
            None => {
                return EndState::FAILURE(FailureReason::InvalidSignature);
            }
        };
        proof {
            assert(sig_ok(st0, *txn));
            assert(spec_sender(*txn) == sender_addr@);
        }
        if self.world_state.invalid_nonce(txn, &sender_addr) {
            return EndState::FAILURE(FailureReason::InvalidNonce);
        }

        self.world_state.increment_nonce(&sender_addr);
        let ghost st1 = self.world_state;

        let max_fee = Wei::from_gas(txn.gasprice, txn.gaslimit);
        if !self.world_state.safe_deduct(&sender_addr, max_fee) {
            return EndState::FAILURE(FailureReason::InsufficientBalance);
        }
        let ghost st2 = self.world_state;
        proof {
            assert(charged(st0, *txn));
            lemma_balance_le_total_any(st0.accounts@, sender_addr@);
        }

        let ops = Op::from_bytes(txn.code.as_slice());
        proof {
            lemma_decode_len(txn.code@);
        }
        let mut exec_context = ExecutionContext::new(txn.gaslimit, ops, txn.value);
        proof {
            assert(exec_context@ =~= vm_init(*txn));
        }
        let valid_termination = exec_context.finish_executing();
        proof {
            crate::evmexec::lemma_run_bounds(vm_init(*txn));
        }

        let gas_left = exec_context.get_gas_left();
        proof {
            lemma_mul_inequality(gas_left as int, txn.gaslimit as int, txn.gasprice@ as int);
            assert(txn.gasprice@ * gas_left == gas_left * txn.gasprice@) by (nonlinear_arith);
            assert(txn.gasprice@ * txn.gaslimit == txn.gaslimit * txn.gasprice@) by (nonlinear_arith);
        }
        let sender_refund = Wei::from_gas(txn.gasprice, gas_left);
        self.world_state.pay(&sender_addr, sender_refund);

        let miner_fee = match max_fee - sender_refund {
            None => unreached(),
            Some(v) => v,
        };
        proof {
            lemma_mul_is_distributive_sub(
                txn.gasprice@ as int,
                txn.gaslimit as int,
                gas_left as int,
            );
            assert(miner_fee@ == spec_fee(*txn));
            lemma_balance_le_total_any(self.world_state.accounts@, self.miner_address@);
        }
        let miner = self.miner_address;
        self.world_state.pay(&miner, miner_fee);

        if !valid_termination {
            return EndState::FAILURE(FailureReason::InvalidCode);
        }

        let final_value = exec_context.get_value();
        if !self.world_state.safe_deduct(&sender_addr, final_value) {
            return EndState::FAILURE(FailureReason::InsufficientBalance);
        }
        proof {
            lemma_balance_le_total_any(self.world_state.accounts@, txn.recipient@);
        }
        self.world_state.pay(&txn.recipient, final_value);
        EndState::SUCCESS
    }
}

} // verus!
