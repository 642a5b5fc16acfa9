use vstd::prelude::*;

verus! {

/// A gas budget expressed in wei, with the same checked arithmetic as
/// [`crate::wei::Wei`]: addition must not overflow, subtraction yields
/// `None` rather than going negative.
#[derive(Debug, Clone, Copy, PartialEq, Eq, Structural, PartialOrd, Ord, Hash)]
pub struct Gas {
    pub wei: u128,
}

impl View for Gas {
    type V = u128;

    open spec fn view(&self) -> u128 {
        self.wei
    }
}

impl Gas {
    pub const SZABO_PER_WEI: u128 = 1_000_000_000_000;

    pub const FINNEY_PER_WEI: u128 = 1_000_000_000_000_000;

    pub const ETH_PER_WEI: u128 = 1_000_000_000_000_000_000;

    pub fn from_wei(init: u128) -> (r: Self)
        ensures
            r@ == init,
    {
        Self { wei: init }
    }

    pub fn from_szabo(init: u128) -> (r: Self)
        requires
            init * Gas::SZABO_PER_WEI <= u128::MAX,
        ensures
            r@ == init * Gas::SZABO_PER_WEI,
    {
        Self { wei: init * Self::SZABO_PER_WEI }
    }

    pub fn from_finney(init: u128) -> (r: Self)
        requires
            init * Gas::FINNEY_PER_WEI <= u128::MAX,
        ensures
            r@ == init * Gas::FINNEY_PER_WEI,
    {
        Self { wei: init * Self::FINNEY_PER_WEI }
    }

    pub fn from_eth(init: u128) -> (r: Self)
        requires
            init * Gas::ETH_PER_WEI <= u128::MAX,
        ensures
            r@ == init * Gas::ETH_PER_WEI,
    {
        Self { wei: init * Self::ETH_PER_WEI }
    }

    pub fn add(&self, other: Self) -> (r: Self)
        requires
            self@ + other@ <= u128::MAX,
        ensures
            r@ == self@ + other@,
    {
        Self { wei: self.wei + other.wei }
    }

    /// Checked subtraction: `None` means the result would have been negative.
    pub fn sub(&self, other: Self) -> (r: Option<Self>)
        ensures
            match r {
                Some(g) => self@ >= other@ && g@ == self@ - other@,
                None => self@ < other@,
            },
    {
        match self.wei.checked_sub(other.wei) {
            Some(c) => Some(Self { wei: c }),
            None => None,
        }
    }
}

impl core::ops::Add<Gas> for Gas {
    type Output = Gas;

    fn add(self, other: Gas) -> Gas {
        Self { wei: self.wei + other.wei }
    }
}

impl vstd::std_specs::ops::AddSpecImpl<Gas> for Gas {
    open spec fn obeys_add_spec() -> bool {
        true
    }

    open spec fn add_req(self, other: Gas) -> bool {
        self@ + other@ <= u128::MAX
    }

    open spec fn add_spec(self, other: Gas) -> Gas {
        (Gas { wei: (self@ + other@) as u128 })
    }
}

impl core::ops::Sub<Gas> for Gas {
    type Output = Option<Gas>;

    fn sub(self, other: Gas) -> Option<Gas> {
        match self.wei.checked_sub(other.wei) {
            Some(c) => Some(Self { wei: c }),
            None => None,
        }
    }
}

impl vstd::std_specs::ops::SubSpecImpl<Gas> for Gas {
    open spec fn obeys_sub_spec() -> bool {
        true
    }

    open spec fn sub_req(self, other: Gas) -> bool {
        true
    }

    open spec fn sub_spec(self, other: Gas) -> Option<Gas> {
        if self@ >= other@ {
            Some(Gas { wei: (self@ - other@) as u128 })
        } else {
            None
        }
    }
}

} // verus!
