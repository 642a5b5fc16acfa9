use vstd::prelude::*;
use crate::aliases::ETHAddress;
use crate::wei::Wei;

verus! {

/// One account of the world state: an address, a balance and the
/// replay-protection nonce of the last accepted transaction.
#[derive(Debug, Clone, Copy)]
pub struct ETHAccount {
    pub address: ETHAddress,
    pub balance: Wei,
    pub nonce: u32,
}

impl ETHAccount {
    /// A fresh account with no funds and nonce zero.
    pub fn new(addr: ETHAddress) -> (r: ETHAccount)
        ensures
            r.address@ == addr@,
            r.balance@ == 0,
            r.nonce == 0,
    {
        ETHAccount { address: addr, balance: Wei::from_wei(0), nonce: 0 }
    }
}

} // verus!
