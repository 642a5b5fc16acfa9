use vstd::prelude::*;
use crate::aliases::ETHAddress;
use crate::ethblock::{block_hash, spec_valid_hash, ETHBlock};
use crate::ethstate::ETHState;
use crate::ethtxn::ETHTxn;
use crate::evmstate::{
    nonce_ok, sig_ok, spec_balance_delta, spec_sender, EndState, EVMState, FailureReason,
};

verus! {

/// The fixed reward paid to a block's miner each time a sealed block
/// is accepted onto the chain.
pub const MINER_REWARD_WEI: u128 = 100;

/// The chain: a queue of transactions awaiting a block, the world
/// state behind the processor, and the blocks, genesis first.
#[derive(Debug)]
pub struct ETHBlockchain {
    pub block_txn_limit: usize,
    pub miner: ETHAddress,
    pub difficulty: u32,
    pub outstanding_txns: Vec<ETHTxn>,
    pub evmstate: EVMState,
    pub blocks: Vec<ETHBlock>,
}

impl ETHBlockchain {
    /// The chain's invariant: a well-formed world state whose total
    /// fits the balance type, a difficulty the predicate can test, the
    /// genesis block always present, the processor paying this chain's
    /// miner, and every block after genesis meeting its own
    /// difficulty.
    pub open spec fn wf(self) -> bool {
        &&& self.evmstate.world_state.wf()
        &&& self.evmstate.world_state.total() <= u128::MAX
        &&& self.evmstate.miner_address@ == self.miner@
        &&& self.difficulty < 256
        &&& self.blocks@.len() >= 1
        &&& forall|i: int|
            1 <= i < self.blocks@.len() ==> spec_valid_hash(
                block_hash(#[trigger] self.blocks@[i]),
                self.blocks@[i].difficulty,
            )
    }

    /// A fresh chain: empty world, empty queue, only the genesis block.
    pub fn new(block_txn_limit: usize, difficulty: u32, miner: ETHAddress) -> (r: ETHBlockchain)
        requires
            difficulty < 256,
        ensures
            r.wf(),
            r.block_txn_limit == block_txn_limit,
            r.miner@ == miner@,
            r.difficulty == difficulty,
            r.outstanding_txns@.len() == 0,
            r.evmstate.world_state.accounts@.len() == 0,
            r.evmstate.world_state.total() == 0,
            r.blocks@.len() == 1,
    {
        ETHBlockchain {
            block_txn_limit,
            miner,
            difficulty,
            outstanding_txns: Vec::new(),
            evmstate: EVMState::new(ETHState::default(), miner),
            blocks: vec![ETHBlock::genesis()],
        }
    }

    /// Drain the outstanding queue into a fresh unsealed block on top
    /// of the current tip, with this chain's miner and difficulty and
    /// nonce 0. The world state and the blocks stay.
    pub fn flush_txns(&mut self) -> (r: ETHBlock)
        requires
            old(self).wf(),
        ensures
            final(self).wf(),
            final(self).outstanding_txns@.len() == 0,
            final(self).block_txn_limit == old(self).block_txn_limit,
            final(self).miner == old(self).miner,
            final(self).difficulty == old(self).difficulty,
            final(self).evmstate == old(self).evmstate,
            final(self).blocks == old(self).blocks,
            r.prev_hash@ == block_hash(old(self).blocks@.last()),
            r.miner_id@ == old(self).miner@,
            r.transactions@ == old(self).outstanding_txns@,
            r.difficulty == old(self).difficulty,
            r.nonce == 0,
    {
        let mut txns: Vec<ETHTxn> = Vec::new();
        core::mem::swap(&mut txns, &mut self.outstanding_txns);
        let tip = self.blocks.len() - 1;
        ETHBlock::new(&self.blocks[tip], self.miner, self.difficulty, txns)
    }

    /// Feed one transaction through the processor. A transaction whose
    /// signature or nonce is rejected is dropped without a trace; any
    /// other outcome (success or a paid-for failure) queues it for the
    /// next block. When the queue reaches the per-block limit it is
    /// flushed and the unsealed block returned.
    pub fn process_transaction(&mut self, txn: ETHTxn) -> (r: Option<ETHBlock>)
        requires
            old(self).wf(),
            txn.gasprice@ * txn.gaslimit <= u128::MAX,
            txn.value@ + 255 * txn.gaslimit <= u128::MAX,
            txn.code@.len() <= u32::MAX,
        ensures
            final(self).wf(),
            final(self).block_txn_limit == old(self).block_txn_limit,
            final(self).miner == old(self).miner,
            final(self).difficulty == old(self).difficulty,
            final(self).blocks == old(self).blocks,
            final(self).evmstate.miner_address == old(self).evmstate.miner_address,
            final(self).evmstate.world_state.total() == old(self).evmstate.world_state.total(),
            forall|a: Seq<u8>| #[trigger] final(self).evmstate.world_state.balance_of(a) == old(
                self,
            ).evmstate.world_state.balance_of(a) + spec_balance_delta(
                old(self).evmstate.world_state,
                txn,
                old(self).miner@,
                a,
            ),
            forall|a: Seq<u8>| #[trigger] final(self).evmstate.world_state.nonce_of(a) == old(
                self,
            ).evmstate.world_state.nonce_of(a) + (if sig_ok(old(self).evmstate.world_state, txn)
                && nonce_ok(old(self).evmstate.world_state, txn) && a == spec_sender(txn) {
                1int
            } else {
                0int
            }),
            !(sig_ok(old(self).evmstate.world_state, txn) && nonce_ok(
                old(self).evmstate.world_state,
                txn,
            )) ==> r is None && final(self).outstanding_txns == old(self).outstanding_txns,
            (sig_ok(old(self).evmstate.world_state, txn) && nonce_ok(
                old(self).evmstate.world_state,
                txn,
            )) ==> match r {
                Some(blk) => old(self).outstanding_txns@.len() + 1 >= old(self).block_txn_limit
                    && final(self).outstanding_txns@.len() == 0
                    && blk.transactions@ == old(self).outstanding_txns@.push(txn)
                    && blk.miner_id@ == old(self).miner@
                    && blk.difficulty == old(self).difficulty && blk.nonce == 0 && blk.prev_hash@
                    == block_hash(old(self).blocks@.last()),
                None => old(self).outstanding_txns@.len() + 1 < old(self).block_txn_limit
                    && final(self).outstanding_txns@ == old(self).outstanding_txns@.push(txn),
            },
    {
        let outcome = self.evmstate.run_transaction(&txn);
        match outcome {
            EndState::FAILURE(FailureReason::InvalidSignature)
            | EndState::FAILURE(FailureReason::InvalidNonce) => {
                return None;
            }
            _ => {}
        }
        self.outstanding_txns.push(txn);
        if self.outstanding_txns.len() >= self.block_txn_limit {
            Some(self.flush_txns())
        } else {
            None
        }
    }

    /// Validate a sealed block against its difficulty. A failing block
    /// is discarded and nothing changes; an accepted block pays its
    /// miner the fixed reward and joins the chain.
    pub fn add_block(&mut self, block: ETHBlock) -> (r: bool)
        requires
            old(self).wf(),
            block.difficulty < 256,
            old(self).evmstate.world_state.total() + MINER_REWARD_WEI <= u128::MAX,
        ensures
            final(self).wf(),
            r == spec_valid_hash(block_hash(block), block.difficulty),
            !r ==> *final(self) == *old(self),
            r ==> final(self).blocks@ == old(self).blocks@.push(block),
            r ==> final(self).outstanding_txns == old(self).outstanding_txns,
            r ==> final(self).evmstate.world_state.total() == old(self).evmstate.world_state.total()
                + MINER_REWARD_WEI,
            r ==> final(self).evmstate.world_state.balance_of(block.miner_id@)
                == old(self).evmstate.world_state.balance_of(block.miner_id@) + MINER_REWARD_WEI,
            r ==> forall|a: Seq<u8>| a != block.miner_id@
                ==> #[trigger] final(self).evmstate.world_state.balance_of(a)
                == old(self).evmstate.world_state.balance_of(a),
            r ==> forall|a: Seq<u8>| #[trigger] final(self).evmstate.world_state.nonce_of(a)
                == old(self).evmstate.world_state.nonce_of(a),
            final(self).block_txn_limit == old(self).block_txn_limit,
            final(self).miner == old(self).miner,
            final(self).difficulty == old(self).difficulty,
    {
        if !block.is_valid() {
            return false;
        }
        proof {
            crate::ethstate::lemma_balance_le_total_any(
                self.evmstate.world_state.accounts@,
                block.miner_id@,
            );
        }
        let miner_id = block.get_miner_address();
        self.evmstate.world_state.pay(&miner_id, crate::wei::Wei::from_wei(MINER_REWARD_WEI));
        let ghost oldblocks = self.blocks@;
        self.blocks.push(block);
        true
    }
}

} // verus!
