//! A pedagogical Ethereum-style blockchain core: signed transactions
//! validated against an account-based world state, a tiny gas-metered
//! stack machine run over each transaction's code, fee and refund
//! accounting that always compensates the miner, and a proof-of-work
//! chain whose block hashes must start with a configured number of
//! zero bits.

pub mod aliases;
pub mod gas;
pub mod gasunit;
pub mod wei;
pub mod serial;
pub mod crypto;
pub mod ops;
pub mod ethaccount;
pub mod ethtxn;
pub mod ethstate;
pub mod evmexec;
pub mod evmstate;
pub mod ethblock;
pub mod ethblockchain;
pub mod benchutils;
