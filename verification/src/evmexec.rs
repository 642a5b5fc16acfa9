use vstd::prelude::*;
use crate::gas::Gas;
use crate::ops::{spec_cost, Op};
use crate::wei::Wei;

verus! {

/// The mathematical state of a running virtual machine: operand stack,
/// program counter into the decoded code, remaining gas, the code, and
/// the mutable transaction value.
#[verifier::ext_equal]
pub struct VmState {
    pub stack: Seq<u8>,
    pub pc: nat,
    pub gas: nat,
    pub code: Seq<Op>,
    pub value: nat,
}

/// What one machine step does: halt normally, halt with failure, or
/// continue in a new state.
pub enum StepResult {
    Stop,
    Fail,
    Next(VmState),
}

/// The value a two-operand instruction pushes, `a` popped first (the
/// stack top), then `b`. Addition and multiplication wrap modulo 256;
/// subtraction and division yield 0 on underflow or division by zero;
/// comparisons push 1 or 0.
pub open spec fn spec_binop(op: Op, a: u8, b: u8) -> u8 {
    match op {
        Op::ADD => ((a + b) % 256) as u8,
        Op::MUL => ((a * b) % 256) as u8,
        Op::SUB => if a >= b {
            (a - b) as u8
        } else {
            0
        },
        Op::DIV => if b == 0 {
            0
        } else {
            a / b
        },
        Op::LT => if a < b {
            1
        } else {
            0
        },
        Op::GT => if a > b {
            1
        } else {
            0
        },
        Op::EQ => if a == b {
            1
        } else {
            0
        },
        _ => 0,
    }
}

/// One step of the machine. Empty code halts normally; a program
/// counter outside the code, a stack underflow, an `INVALID`
/// instruction, or too little gas for the instruction's cost halt with
/// failure; `STOP` halts normally. Every other instruction performs its
/// effect, advances the program counter (or jumps) and charges its gas
/// cost. `STOP` and `INVALID` charge nothing.
pub open spec fn step(m: VmState) -> StepResult {
    if m.code.len() == 0 {
        StepResult::Stop
    } else if m.pc >= m.code.len() {
        StepResult::Fail
    } else {
        let op = m.code[m.pc as int];
        let cost = spec_cost(op) as nat;
        match op {
            Op::STOP => StepResult::Stop,
            Op::INVALID(_) => StepResult::Fail,
            _ => {
                if m.gas < cost {
                    StepResult::Fail
                } else {
                    let gas2 = (m.gas - cost) as nat;
                    match op {
                        Op::ADD | Op::MUL | Op::SUB | Op::DIV | Op::LT | Op::GT | Op::EQ => {
                            if m.stack.len() < 2 {
                                StepResult::Fail
                            } else {
                                let a = m.stack.last();
                                let b = m.stack[m.stack.len() - 2];
                                StepResult::Next(
                                    VmState {
                                        stack: m.stack.drop_last().drop_last().push(
                                            spec_binop(op, a, b),
                                        ),
                                        pc: m.pc + 1,
                                        gas: gas2,
                                        code: m.code,
                                        value: m.value,
                                    },
                                )
                            }
                        }
                        Op::ISZERO => {
                            if m.stack.len() < 1 {
                                StepResult::Fail
                            } else {
                                let a = m.stack.last();
                                StepResult::Next(
                                    VmState {
                                        stack: m.stack.drop_last().push(
                                            if a == 0 {
                                                1
                                            } else {
                                                0
                                            },
                                        ),
                                        pc: m.pc + 1,
                                        gas: gas2,
                                        code: m.code,
                                        value: m.value,
                                    },
                                )
                            }
                        }
                        Op::POP => {
                            if m.stack.len() < 1 {
                                StepResult::Fail
                            } else {
                                StepResult::Next(
                                    VmState {
                                        stack: m.stack.drop_last(),
                                        pc: m.pc + 1,
                                        gas: gas2,
                                        code: m.code,
                                        value: m.value,
                                    },
                                )
                            }
                        }
                        Op::JUMP => {
                            if m.stack.len() < 1 {
                                StepResult::Fail
                            } else {
                                StepResult::Next(
                                    VmState {
                                        stack: m.stack.drop_last(),
                                        pc: m.stack.last() as nat,
                                        gas: gas2,
                                        code: m.code,
                                        value: m.value,
                                    },
                                )
                            }
                        }
                        Op::JUMPI => {
                            if m.stack.len() < 2 {
                                StepResult::Fail
                            } else {
                                let a = m.stack.last();
                                let b = m.stack[m.stack.len() - 2];
                                StepResult::Next(
                                    VmState {
                                        stack: m.stack.drop_last().drop_last(),
                                        pc: if b != 0 {
                                            a as nat
                                        } else {
                                            m.pc + 1
                                        },
                                        gas: gas2,
                                        code: m.code,
                                        value: m.value,
                                    },
                                )
                            }
                        }
                        Op::PUSH1(v) => StepResult::Next(
                            VmState {
                                stack: m.stack.push(v),
                                pc: m.pc + 1,
                                gas: gas2,
                                code: m.code,
                                value: m.value,
                            },
                        ),
                        Op::SETVAL => {
                            if m.stack.len() < 1 {
                                StepResult::Fail
                            } else {
                                StepResult::Next(
                                    VmState {
                                        stack: m.stack.drop_last(),
                                        pc: m.pc + 1,
                                        gas: gas2,
                                        code: m.code,
                                        value: m.stack.last() as nat,
                                    },
                                )
                            }
                        }
                        Op::ADDVAL => {
                            if m.stack.len() < 1 {
                                StepResult::Fail
                            } else {
                                StepResult::Next(
                                    VmState {
                                        stack: m.stack.drop_last(),
                                        pc: m.pc + 1,
                                        gas: gas2,
                                        code: m.code,
                                        value: (m.value + m.stack.last()) as nat,
                                    },
                                )
                            }
                        }
                        Op::SUBVAL => {
                            if m.stack.len() < 1 {
                                StepResult::Fail
                            } else {
                                let a = m.stack.last();
                                StepResult::Next(
                                    VmState {
                                        stack: m.stack.drop_last(),
                                        pc: m.pc + 1,
                                        gas: gas2,
                                        code: m.code,
                                        value: if m.value >= a {
                                            (m.value - a) as nat
                                        } else {
                                            0
                                        },
                                    },
                                )
                            }
                        }
                        // ADDRESS, BALANCE, GASPRICE, DIFFICULTY,
                        // GASLIMIT, GAS: reserved; they charge their
                        // cost and have no other effect.
                        _ => StepResult::Next(
                            VmState {
                                stack: m.stack,
                                pc: m.pc + 1,
                                gas: gas2,
                                code: m.code,
                                value: m.value,
                            },
                        ),
                    }
                }
            }
        }
    }
}

/// A continuing step strictly consumes gas and keeps the code.
pub proof fn lemma_step_gas(m: VmState)
    ensures
        step(m) matches StepResult::Next(m2) ==> m2.gas < m.gas && m2.code == m.code && m2.value
            <= m.value + 255 * (m.gas - m2.gas),
{
}

/// The machine run to completion: the final state and whether it
/// halted normally (`STOP` or empty code) rather than by failure.
pub open spec fn run(m: VmState) -> (VmState, bool)
    decreases m.gas,
    via run_decreases
{
    match step(m) {
        StepResult::Stop => (m, true),
        StepResult::Fail => (m, false),
        StepResult::Next(m2) => run(m2),
    }
}

#[via_fn]
proof fn run_decreases(m: VmState) {
    lemma_step_gas(m);
}

/// A full run never gains gas, keeps the code, and can raise the value
/// by at most 255 per unit of gas consumed.
pub proof fn lemma_run_bounds(m: VmState)
    ensures
        run(m).0.gas <= m.gas,
        run(m).0.code == m.code,
        run(m).0.value <= m.value + 255 * (m.gas - run(m).0.gas),
    decreases m.gas,
{
    lemma_step_gas(m);
    match step(m) {
        StepResult::Stop => {}
        StepResult::Fail => {}
        StepResult::Next(m2) => {
            lemma_run_bounds(m2);
        }
    }
}

/// Internal result of one interpreter cycle.
enum OperationResult {
    Continue,
    Stop,
}

/// A per-transaction interpreter over decoded code, metering gas and
/// carrying the mutable transaction value.
pub struct ExecutionContext {
    pub stack: Vec<u8>,
    pub pc: u32,
    pub gas_left: Gas,
    pub code: Vec<Op>,
    pub txn_value: Wei,
    pub init_gas: Ghost<u128>,
    pub init_value: Ghost<u128>,
}

impl View for ExecutionContext {
    type V = VmState;

    open spec fn view(&self) -> VmState {
        VmState {
            stack: self.stack@,
            pc: self.pc as nat,
            gas: self.gas_left as nat,
            code: self.code@,
            value: self.txn_value@ as nat,
        }
    }
}

impl ExecutionContext {
    /// The machine keeps within its initial budgets: gas never exceeds
    /// the initial gas, the value can outgrow the initial value only by
    /// 255 per unit of gas consumed, those budgets keep all value
    /// arithmetic inside u128, and the code fits the program counter.
    pub open spec fn wf(self) -> bool {
        &&& self.gas_left <= self.init_gas@
        &&& self.txn_value@ <= self.init_value@ + 255 * (self.init_gas@ - self.gas_left)
        &&& self.init_value@ + 255 * self.init_gas@ <= u128::MAX
        &&& self.code@.len() <= u32::MAX
    }

    /// A fresh machine: empty stack, program counter 0, the full gas
    /// budget, and the transaction's value.
    pub fn new(gaslimit: Gas, code: Vec<Op>, txn_value: Wei) -> (r: ExecutionContext)
        requires
            txn_value@ + 255 * gaslimit <= u128::MAX,
            code@.len() <= u32::MAX,
        ensures
            r.wf(),
            r@.stack == Seq::<u8>::empty(),
            r@.pc == 0,
            r@.gas == gaslimit,
            r@.code == code@,
            r@.value == txn_value@,
            r.init_gas@ == gaslimit,
            r.init_value@ == txn_value@,
    {
        ExecutionContext {
            stack: Vec::new(),
            pc: 0,
            gas_left: gaslimit,
            code,
            txn_value,
            init_gas: Ghost(gaslimit),
            init_value: Ghost(txn_value@),
        }
    }

    /// The gas still unspent.
    pub fn get_gas_left(&self) -> (r: Gas)
        ensures
            r == self@.gas,
    {
        self.gas_left
    }

    /// The current transaction value.
    pub fn get_value(&self) -> (r: Wei)
        ensures
            r@ == self@.value,
    {
        self.txn_value
    }

    /// Pop the stack top, failing on an empty stack. Only the stack
    /// changes.
    fn pop(&mut self) -> (r: Result<u8, ()>)
        ensures
            final(self).pc == old(self).pc,
            final(self).gas_left == old(self).gas_left,
            final(self).code == old(self).code,
            final(self).txn_value == old(self).txn_value,
            final(self).init_gas == old(self).init_gas,
            final(self).init_value == old(self).init_value,
            match r {
                Ok(v) => old(self).stack@.len() > 0 && v == old(self).stack@.last()
                    && final(self).stack@ == old(self).stack@.drop_last(),
                Err(_) => old(self).stack@.len() == 0 && final(self).stack@ == old(self).stack@,
            },
    {
        match self.stack.pop() {
            Some(v) => Ok(v),
            None => Err(()),
        }
    }

    /// Push a byte onto the stack. Only the stack changes.
    fn push(&mut self, b: u8)
        ensures
            final(self).pc == old(self).pc,
            final(self).gas_left == old(self).gas_left,
            final(self).code == old(self).code,
            final(self).txn_value == old(self).txn_value,
            final(self).init_gas == old(self).init_gas,
            final(self).init_value == old(self).init_value,
            final(self).stack@ == old(self).stack@.push(b),
    {
        self.stack.push(b);
    }

    /// One interpreter cycle, exactly the step of the machine model:
    /// `Ok(Stop)` and `Err` halt; `Ok(Continue)` moves to the next
    /// state. On a halt the remaining gas is unchanged.
    fn execute_cycle(&mut self) -> (r: Result<OperationResult, ()>)
        requires
            old(self).wf(),
        ensures
            final(self).code == old(self).code,
            final(self).init_gas == old(self).init_gas,
            final(self).init_value == old(self).init_value,
            match r {
                Ok(OperationResult::Continue) => step(old(self)@) == StepResult::Next(final(self)@)
                    && final(self).wf(),
                Ok(OperationResult::Stop) => step(old(self)@) is Stop && *final(self) == *old(self),
                Err(_) => step(old(self)@) is Fail && final(self).wf() && final(self).gas_left
                    == old(self).gas_left && final(self).txn_value == old(self).txn_value,
            },
    {
        if self.code.is_empty() {
            return Ok(OperationResult::Stop);
        }
        if self.pc as usize >= self.code.len() {
            return Err(());
        }
        let op = self.code[self.pc as usize];
        let cost = op.to_cost();
        match op {
            Op::STOP => {
                return Ok(OperationResult::Stop);
            }
            Op::INVALID(_) => {
                return Err(());
            }
            _ => {}
        }
        if self.gas_left < cost {
            return Err(());
        }
        let mut new_pc = self.pc + 1;
        match op {
            Op::ADD => {
                let a = self.pop()?;
                let b = self.pop()?;
                self.push(a.wrapping_add(b));
            }
            Op::MUL => {
                let a = self.pop()?;
                let b = self.pop()?;
                self.push(a.wrapping_mul(b));
            }
            Op::SUB => {
                let a = self.pop()?;
                let b = self.pop()?;
                self.push(
                    if a >= b {
                        a - b
                    } else {
                        0
                    },
                );
            }
            Op::DIV => {
                let a = self.pop()?;
                let b = self.pop()?;
                self.push(
                    if b == 0 {
                        0
                    } else {
                        a / b
                    },
                );
            }
            Op::LT => {
                let a = self.pop()?;
                let b = self.pop()?;
                if a < b {
                    self.push(1);
                } else {
                    self.push(0);
                }
            }
            Op::GT => {
                let a = self.pop()?;
                let b = self.pop()?;
                if a > b {
                    self.push(1);
                } else {
                    self.push(0);
                }
            }
            Op::EQ => {
                let a = self.pop()?;
                let b = self.pop()?;
                if a == b {
                    self.push(1);
                } else {
                    self.push(0);
                }
            }
            Op::ISZERO => {
                let a = self.pop()?;
                if a == 0 {
                    self.push(1);
                } else {
                    self.push(0);
                }
            }
            Op::POP => {
                self.pop()?;
            }
            Op::JUMP => {
                let a = self.pop()?;
                new_pc = a as u32;
            }
            Op::JUMPI => {
                let a = self.pop()?;
                let b = self.pop()?;
                if b != 0 {
                    new_pc = a as u32;
                }
            }
            Op::PUSH1(val) => {
                self.push(val);
            }
            Op::SETVAL => {
                let a = self.pop()?;
                self.txn_value = Wei::from_wei(a as u128);
            }
            Op::ADDVAL => {
                let a = self.pop()?;
                proof {
                    assert(self.txn_value@ + a <= u128::MAX);
                }
                self.txn_value = self.txn_value + Wei::from_wei(a as u128);
            }
            Op::SUBVAL => {
                let a = self.pop()?;
                let wei = Wei::from_wei(a as u128);
                self.txn_value = match self.txn_value - wei {
                    Some(x) => x,
                    None => Wei::from_wei(0),
                };
            }
            _ => {
                // ADDRESS, BALANCE, GASPRICE, DIFFICULTY, GASLIMIT,
                // GAS: charge gas, no other effect.
            }
        }
        self.pc = new_pc;
        self.gas_left = self.gas_left - cost;
        Ok(OperationResult::Continue)
    }

    /// Run the machine to completion. Returns true on a normal halt
    /// (`STOP` or empty code), false on any failure. The remaining gas
    /// always matches the model's run; on a normal halt so does the
    /// value.
    pub fn finish_executing(&mut self) -> (valid: bool)
        requires
            old(self).wf(),
        ensures
            final(self).wf(),
            final(self).gas_left == run(old(self)@).0.gas,
            valid == run(old(self)@).1,
            valid ==> final(self).txn_value@ == run(old(self)@).0.value,
            final(self).code == old(self).code,
    {
        loop
            invariant
                run(self@) == run(old(self)@),
                self.wf(),
                self.code == old(self).code,
            decreases self.gas_left,
        {
            let ghost pre = self@;
            match self.execute_cycle() {
                Ok(OperationResult::Continue) => {
                    proof {
                        lemma_step_gas(pre);
                    }
                }
                Ok(OperationResult::Stop) => {
                    return true;
                }
                Err(_) => {
                    return false;
                }
            }
        }
    }
}

} // verus!
