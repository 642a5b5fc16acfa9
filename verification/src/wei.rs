use vstd::prelude::*;

verus! {

/// An amount of currency, stored in wei, the smallest denomination.
///
/// Addition must never overflow (callers prove the sum fits in 128 bits);
/// subtraction is partial and yields `None` when the result would be
/// negative, which is how insufficient funds are signalled everywhere.
#[derive(Debug, Clone, Copy, PartialEq, Eq, Structural, PartialOrd, Ord, Hash)]
pub struct Wei {
    pub wei: u128,
}

impl View for Wei {
    type V = u128;

    open spec fn view(&self) -> u128 {
        self.wei
    }
}

impl Wei {
    pub const WEI_PER_GWEI: u128 = 1_000_000_000;

    pub const WEI_PER_SZABO: u128 = 1_000_000_000_000;

    pub const WEI_PER_FINNEY: u128 = 1_000_000_000_000_000;

    pub const WEI_PER_ETH: u128 = 1_000_000_000_000_000_000;

    pub fn get_wei(&self) -> (r: u128)
        ensures
            r == self@,
    {
        self.wei
    }

    pub fn from_wei(init: u128) -> (r: Self)
        ensures
            r@ == init,
    {
        Self { wei: init }
    }

    pub fn from_szabo(init: u128) -> (r: Self)
        requires
            init * Wei::WEI_PER_SZABO <= u128::MAX,
        ensures
            r@ == init * Wei::WEI_PER_SZABO,
    {
        Self { wei: init * Self::WEI_PER_SZABO }
    }

    pub fn from_finney(init: u128) -> (r: Self)
        requires
            init * Wei::WEI_PER_FINNEY <= u128::MAX,
        ensures
            r@ == init * Wei::WEI_PER_FINNEY,
    {
        Self { wei: init * Self::WEI_PER_FINNEY }
    }

    pub fn from_eth(init: u128) -> (r: Self)
        requires
            init * Wei::WEI_PER_ETH <= u128::MAX,
        ensures
            r@ == init * Wei::WEI_PER_ETH,
    {
        Self { wei: init * Self::WEI_PER_ETH }
    }

    pub fn from_gwei(init: u128) -> (r: Self)
        requires
            init * Wei::WEI_PER_GWEI <= u128::MAX,
        ensures
            r@ == init * Wei::WEI_PER_GWEI,
    {
        Self { wei: init * Self::WEI_PER_GWEI }
    }

    /// The fee charged for `gas` units of gas at price `gasprice`.
    pub fn from_gas(gasprice: Wei, gas: crate::gas::Gas) -> (r: Self)
        requires
            gasprice@ * gas <= u128::MAX,
        ensures
            r@ == gasprice@ * gas,
    {
        Self { wei: gasprice.wei * gas }
    }
}

impl core::ops::Add<Wei> for Wei {
    type Output = Wei;

    fn add(self, other: Wei) -> Wei {
        Self { wei: self.wei + other.wei }
    }
}

impl vstd::std_specs::ops::AddSpecImpl<Wei> for Wei {
    open spec fn obeys_add_spec() -> bool {
        true
    }

    open spec fn add_req(self, other: Wei) -> bool {
        self@ + other@ <= u128::MAX
    }

    open spec fn add_spec(self, other: Wei) -> Wei {
        (Wei { wei: (self@ + other@) as u128 })
    }
}

impl core::ops::Sub<Wei> for Wei {
    type Output = Option<Wei>;

    fn sub(self, other: Wei) -> Option<Wei> {
        match self.wei.checked_sub(other.wei) {
            Some(c) => Some(Self { wei: c }),
            None => None,
        }
    }
}

impl vstd::std_specs::ops::SubSpecImpl<Wei> for Wei {
    open spec fn obeys_sub_spec() -> bool {
        true
    }

    open spec fn sub_req(self, other: Wei) -> bool {
        true
    }

    open spec fn sub_spec(self, other: Wei) -> Option<Wei> {
        if self@ >= other@ {
            Some(Wei { wei: (self@ - other@) as u128 })
        } else {
            None
        }
    }
}

} // verus!
