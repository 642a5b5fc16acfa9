use vstd::prelude::*;

verus! {

/// A quantity of gas, the unit in which virtual-machine work is metered.
pub type Gas = u128;

pub const GZERO: Gas = 0;

pub const GBASE: Gas = 2;

pub const GVERYLOW: Gas = 3;

pub const GLOW: Gas = 5;

pub const GMID: Gas = 8;

pub const GHIGH: Gas = 10;

pub const GBALANCE: Gas = 400;

} // verus!
