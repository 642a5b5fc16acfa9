use vstd::prelude::*;
use crate::aliases::{addr_eq, ETHAddress};
use crate::ethaccount::ETHAccount;
use crate::ethtxn::ETHTxn;
use crate::wei::Wei;

verus! {

/// Whether some account in `s` has address `a` (first match wins, as in
/// the spec functions below).
pub open spec fn has_addr(s: Seq<ETHAccount>, a: Seq<u8>) -> bool
    decreases s.len(),
{
    if s.len() == 0 {
        false
    } else if s[0].address@ == a {
        true
    } else {
        has_addr(s.skip(1), a)
    }
}

/// The balance of the account with address `a`, or 0 when there is none.
pub open spec fn addr_balance(s: Seq<ETHAccount>, a: Seq<u8>) -> u128
    decreases s.len(),
{
    if s.len() == 0 {
        0
    } else if s[0].address@ == a {
        s[0].balance@
    } else {
        addr_balance(s.skip(1), a)
    }
}

/// The nonce of the account with address `a`, or 0 when there is none.
pub open spec fn addr_nonce(s: Seq<ETHAccount>, a: Seq<u8>) -> u32
    decreases s.len(),
{
    if s.len() == 0 {
        0
    } else if s[0].address@ == a {
        s[0].nonce
    } else {
        addr_nonce(s.skip(1), a)
    }
}

/// The sum of all balances in `s`.
pub open spec fn total_wei(s: Seq<ETHAccount>) -> int
    decreases s.len(),
{
    if s.len() == 0 {
        0
    } else {
        s[0].balance@ + total_wei(s.skip(1))
    }
}

/// No two accounts share an address.
pub open spec fn unique_addrs(s: Seq<ETHAccount>) -> bool {
    forall|i: int, j: int| 0 <= i < j < s.len() ==> s[i].address@ != s[j].address@
}

/// `has_addr` holds exactly when some index holds the address.
pub proof fn lemma_has_addr_index(s: Seq<ETHAccount>, a: Seq<u8>)
    ensures
        has_addr(s, a) <==> exists|i: int| 0 <= i < s.len() && s[i].address@ == a,
    decreases s.len(),
{
    if s.len() != 0 {
        lemma_has_addr_index(s.skip(1), a);
        if s[0].address@ == a {
            assert(0 <= 0 < s.len() && s[0].address@ == a);
        } else {
            if has_addr(s, a) {
                let i = choose|i: int| 0 <= i < s.skip(1).len() && s.skip(1)[i].address@ == a;
                assert(s[i + 1].address@ == a);
            }
            if exists|i: int| 0 <= i < s.len() && s[i].address@ == a {
                let i = choose|i: int| 0 <= i < s.len() && s[i].address@ == a;
                assert(s.skip(1)[i - 1].address@ == a);
            }
        }
    }
}

/// At the first index holding its address, the lookup functions return
/// that account's fields.
pub proof fn lemma_lookup_at(s: Seq<ETHAccount>, i: int)
    requires
        0 <= i < s.len(),
        forall|j: int| 0 <= j < i ==> s[j].address@ != s[i].address@,
    ensures
        has_addr(s, s[i].address@),
        addr_balance(s, s[i].address@) == s[i].balance@,
        addr_nonce(s, s[i].address@) == s[i].nonce,
    decreases i,
{
    if i > 0 {
        assert forall|j: int| 0 <= j < i - 1 implies #[trigger] s.skip(1)[j].address@ != s.skip(
            1,
        )[i - 1].address@ by {
            assert(s.skip(1)[j] == s[j + 1]);
            assert(s.skip(1)[i - 1] == s[i]);
        }
        lemma_lookup_at(s.skip(1), i - 1);
        assert(s.skip(1)[i - 1] == s[i]);
    }
}

/// Overwriting the first account holding an address with an account of
/// the same address changes only that address's entry, and the total by
/// the balance difference.
pub proof fn lemma_update_account(s: Seq<ETHAccount>, i: int, acc: ETHAccount)
    requires
        0 <= i < s.len(),
        acc.address@ == s[i].address@,
        forall|j: int| 0 <= j < i ==> s[j].address@ != s[i].address@,
    ensures
        forall|a: Seq<u8>| #![trigger has_addr(s.update(i, acc), a)]
            has_addr(s.update(i, acc), a) == has_addr(s, a),
        forall|a: Seq<u8>| #![trigger addr_balance(s.update(i, acc), a)]
            a != acc.address@ ==> addr_balance(s.update(i, acc), a) == addr_balance(s, a),
        forall|a: Seq<u8>| #![trigger addr_nonce(s.update(i, acc), a)]
            a != acc.address@ ==> addr_nonce(s.update(i, acc), a) == addr_nonce(s, a),
        addr_balance(s.update(i, acc), acc.address@) == acc.balance@,
        addr_nonce(s.update(i, acc), acc.address@) == acc.nonce,
        total_wei(s.update(i, acc)) == total_wei(s) - s[i].balance@ + acc.balance@,
        unique_addrs(s) ==> unique_addrs(s.update(i, acc)),
    decreases s.len(),
{
    let u = s.update(i, acc);
    assert forall|k: int| 0 <= k < s.len() implies u[k].address@ == s[k].address@ by {}
    if i == 0 {
        assert(u.skip(1) =~= s.skip(1));
        assert(u[0] == acc);
        assert forall|a: Seq<u8>| #[trigger] has_addr(u, a) == has_addr(s, a) by {
            if a != acc.address@ {
                assert(has_addr(u, a) == has_addr(u.skip(1), a));
                assert(has_addr(s, a) == has_addr(s.skip(1), a));
            }
        }
        assert forall|a: Seq<u8>| a != acc.address@ implies #[trigger] addr_balance(u, a)
            == addr_balance(s, a) by {
            assert(addr_balance(u, a) == addr_balance(u.skip(1), a));
            assert(addr_balance(s, a) == addr_balance(s.skip(1), a));
        }
        assert forall|a: Seq<u8>| a != acc.address@ implies #[trigger] addr_nonce(u, a)
            == addr_nonce(s, a) by {
            assert(addr_nonce(u, a) == addr_nonce(u.skip(1), a));
            assert(addr_nonce(s, a) == addr_nonce(s.skip(1), a));
        }
    } else {
        assert forall|j: int| 0 <= j < i - 1 implies #[trigger] s.skip(1)[j].address@ != s.skip(
            1,
        )[i - 1].address@ by {
            assert(s.skip(1)[j] == s[j + 1]);
            assert(s.skip(1)[i - 1] == s[i]);
        }
        assert(s.skip(1)[i - 1] == s[i]);
        lemma_update_account(s.skip(1), i - 1, acc);
        assert(u.skip(1) =~= s.skip(1).update(i - 1, acc));
        assert(u[0] == s[0]);
        assert(s[0].address@ != acc.address@);
        assert forall|a: Seq<u8>| #[trigger] has_addr(u, a) == has_addr(s, a) by {
            if s[0].address@ != a {
                assert(has_addr(u, a) == has_addr(u.skip(1), a));
                assert(has_addr(s, a) == has_addr(s.skip(1), a));
                assert(has_addr(u.skip(1), a) == has_addr(s.skip(1), a));
            }
        }
        assert forall|a: Seq<u8>| a != acc.address@ implies #[trigger] addr_balance(u, a)
            == addr_balance(s, a) by {
            if s[0].address@ != a {
                assert(addr_balance(u, a) == addr_balance(u.skip(1), a));
                assert(addr_balance(s, a) == addr_balance(s.skip(1), a));
            }
        }
        assert forall|a: Seq<u8>| a != acc.address@ implies #[trigger] addr_nonce(u, a)
            == addr_nonce(s, a) by {
            if s[0].address@ != a {
                assert(addr_nonce(u, a) == addr_nonce(u.skip(1), a));
                assert(addr_nonce(s, a) == addr_nonce(s.skip(1), a));
            }
        }
        assert(addr_balance(u, acc.address@) == addr_balance(u.skip(1), acc.address@));
        assert(addr_nonce(u, acc.address@) == addr_nonce(u.skip(1), acc.address@));
    }
}

/// Appending an account with a fresh address adds exactly that entry
/// and its balance to the total.
pub proof fn lemma_push_account(s: Seq<ETHAccount>, acc: ETHAccount)
    requires
        !has_addr(s, acc.address@),
    ensures
        forall|a: Seq<u8>| #![trigger has_addr(s.push(acc), a)]
            has_addr(s.push(acc), a) == (has_addr(s, a) || a == acc.address@),
        forall|a: Seq<u8>| #![trigger addr_balance(s.push(acc), a)]
            a != acc.address@ ==> addr_balance(s.push(acc), a) == addr_balance(s, a),
        forall|a: Seq<u8>| #![trigger addr_nonce(s.push(acc), a)]
            a != acc.address@ ==> addr_nonce(s.push(acc), a) == addr_nonce(s, a),
        addr_balance(s.push(acc), acc.address@) == acc.balance@,
        addr_nonce(s.push(acc), acc.address@) == acc.nonce,
        total_wei(s.push(acc)) == total_wei(s) + acc.balance@,
        unique_addrs(s) ==> unique_addrs(s.push(acc)),
    decreases s.len(),
{
    let u = s.push(acc);
    if s.len() == 0 {
        assert(u[0] == acc);
        assert(u.skip(1) =~= Seq::<ETHAccount>::empty());
        assert forall|a: Seq<u8>| #[trigger] has_addr(u, a) == (has_addr(s, a) || a
            == acc.address@) by {
            if a != acc.address@ {
                assert(has_addr(u, a) == has_addr(u.skip(1), a));
            }
        }
        assert forall|a: Seq<u8>| a != acc.address@ implies #[trigger] addr_balance(u, a)
            == addr_balance(s, a) by {
            assert(addr_balance(u, a) == addr_balance(u.skip(1), a));
        }
        assert forall|a: Seq<u8>| a != acc.address@ implies #[trigger] addr_nonce(u, a)
            == addr_nonce(s, a) by {
            assert(addr_nonce(u, a) == addr_nonce(u.skip(1), a));
        }
        assert(total_wei(u) == acc.balance@ + total_wei(u.skip(1)));
        assert(total_wei(u.skip(1)) == 0);
    } else {
        assert(u[0] == s[0]);
        assert(s[0].address@ != acc.address@);
        lemma_push_account(s.skip(1), acc);
        assert(u.skip(1) =~= s.skip(1).push(acc));
        assert forall|a: Seq<u8>| #[trigger] has_addr(u, a) == (has_addr(s, a) || a
            == acc.address@) by {
            if s[0].address@ != a {
                assert(has_addr(u, a) == has_addr(u.skip(1), a));
                assert(has_addr(s, a) == has_addr(s.skip(1), a));
            }
        }
        assert forall|a: Seq<u8>| a != acc.address@ implies #[trigger] addr_balance(u, a)
            == addr_balance(s, a) by {
            if s[0].address@ != a {
                assert(addr_balance(u, a) == addr_balance(u.skip(1), a));
                assert(addr_balance(s, a) == addr_balance(s.skip(1), a));
            }
        }
        assert forall|a: Seq<u8>| a != acc.address@ implies #[trigger] addr_nonce(u, a)
            == addr_nonce(s, a) by {
            if s[0].address@ != a {
                assert(addr_nonce(u, a) == addr_nonce(u.skip(1), a));
                assert(addr_nonce(s, a) == addr_nonce(s.skip(1), a));
            }
        }
        assert(addr_balance(u, acc.address@) == addr_balance(u.skip(1), acc.address@));
        assert(addr_nonce(u, acc.address@) == addr_nonce(u.skip(1), acc.address@));
        assert(total_wei(u) == u[0].balance@ + total_wei(u.skip(1)));
        assert(total_wei(s) == s[0].balance@ + total_wei(s.skip(1)));
    }
    if unique_addrs(s) {
        lemma_has_addr_index(s, acc.address@);
        assert forall|i: int, j: int| 0 <= i < j < u.len() implies u[i].address@ != u[j].address@ by {
            if j < s.len() {
                assert(u[i] == s[i] && u[j] == s[j]);
            } else {
                assert(u[j] == acc && u[i] == s[i]);
            }
        }
    }
}

/// Every balance is at most the sum of all balances.
pub proof fn lemma_total_nonneg(s: Seq<ETHAccount>)
    ensures
        total_wei(s) >= 0,
    decreases s.len(),
{
    if s.len() != 0 {
        lemma_total_nonneg(s.skip(1));
    }
}

/// The balance of any present address is at most the total.
pub proof fn lemma_balance_le_total(s: Seq<ETHAccount>, a: Seq<u8>)
    requires
        has_addr(s, a),
    ensures
        addr_balance(s, a) <= total_wei(s),
    decreases s.len(),
{
    if s[0].address@ == a {
        lemma_total_nonneg(s.skip(1));
    } else {
        lemma_balance_le_total(s.skip(1), a);
    }
}

/// An absent address has balance 0 and nonce 0.
pub proof fn lemma_absent_defaults(s: Seq<ETHAccount>, a: Seq<u8>)
    requires
        !has_addr(s, a),
    ensures
        addr_balance(s, a) == 0,
        addr_nonce(s, a) == 0,
    decreases s.len(),
{
    if s.len() != 0 {
        lemma_absent_defaults(s.skip(1), a);
    }
}

/// Any address's balance (0 when absent) is at most the total.
pub proof fn lemma_balance_le_total_any(s: Seq<ETHAccount>, a: Seq<u8>)
    ensures
        addr_balance(s, a) <= total_wei(s),
{
    if has_addr(s, a) {
        lemma_balance_le_total(s, a);
    } else {
        lemma_absent_defaults(s, a);
        lemma_total_nonneg(s);
    }
}

/// The world state: every account, keyed by address. Addresses are
/// unique; accounts are created on first payment and never removed.
#[derive(Debug)]
pub struct ETHState {
    pub accounts: Vec<ETHAccount>,
}

impl Default for ETHState {
    /// The empty world state.
    fn default() -> (r: Self)
        ensures
            r.accounts@.len() == 0,
            r.wf(),
            r.total() == 0,
    {
        ETHState { accounts: Vec::new() }
    }
}

impl ETHState {
    /// Addresses are unique, so each address denotes one account.
    pub open spec fn wf(self) -> bool {
        unique_addrs(self.accounts@)
    }

    /// Whether an account with address `a` exists.
    pub open spec fn contains(self, a: Seq<u8>) -> bool {
        has_addr(self.accounts@, a)
    }

    /// The balance at address `a` (0 when no account exists).
    pub open spec fn balance_of(self, a: Seq<u8>) -> u128 {
        addr_balance(self.accounts@, a)
    }

    /// The nonce at address `a` (0 when no account exists).
    pub open spec fn nonce_of(self, a: Seq<u8>) -> u32 {
        addr_nonce(self.accounts@, a)
    }

    /// The sum of all balances.
    pub open spec fn total(self) -> int {
        total_wei(self.accounts@)
    }

    /// The index of the account holding `addr`, if any.
    fn find_account(&self, addr: &ETHAddress) -> (r: Option<usize>)
        ensures
            match r {
                Some(i) => i < self.accounts@.len() && self.accounts@[i as int].address@ == addr@
                    && (forall|j: int| 0 <= j < i ==> self.accounts@[j].address@ != addr@)
                    && self.contains(addr@) && self.balance_of(addr@) == self.accounts@[
                    i as int].balance@ && self.nonce_of(addr@) == self.accounts@[i as int].nonce,
                None => !self.contains(addr@),
            },
    {
        let n = self.accounts.len();
        let mut i: usize = 0;
        while i < n
            invariant
                n == self.accounts@.len(),
                i <= n,
                forall|j: int| 0 <= j < i ==> self.accounts@[j].address@ != addr@,
            decreases n - i,
        {
            if addr_eq(&self.accounts[i].address, addr) {
                proof {
                    lemma_lookup_at(self.accounts@, i as int);
                }
                return Some(i);
            }
            i += 1;
        }
        proof {
            lemma_has_addr_index(self.accounts@, addr@);
        }
        None
    }

    /// Whether an account with this address exists.
    pub fn key_exists(&self, addr: &ETHAddress) -> (r: bool)
        ensures
            r == self.contains(addr@),
    {
        self.find_account(addr).is_some()
    }

    /// Advance the account's nonce by one. Nothing else changes.
    pub fn increment_nonce(&mut self, addr: &ETHAddress)
        requires
            old(self).wf(),
            old(self).contains(addr@),
            old(self).nonce_of(addr@) < u32::MAX,
        ensures
            final(self).wf(),
            forall|a: Seq<u8>| #![trigger final(self).contains(a)]
                final(self).contains(a) == old(self).contains(a),
            forall|a: Seq<u8>| #![trigger final(self).balance_of(a)]
                final(self).balance_of(a) == old(self).balance_of(a),
            forall|a: Seq<u8>| #![trigger final(self).nonce_of(a)]
                a != addr@ ==> final(self).nonce_of(a) == old(self).nonce_of(a),
            final(self).nonce_of(addr@) == old(self).nonce_of(addr@) + 1,
            final(self).total() == old(self).total(),
    {
        let i = self.find_account(addr).unwrap();
        let mut acc = self.accounts[i];
        acc.nonce = acc.nonce + 1;
        let ghost olds = self.accounts@;
        self.accounts[i] = acc;
        proof {
            lemma_update_account(olds, i as int, acc);
        }
    }

    /// Whether the transaction's nonce differs from the account's next
    /// expected nonce (the stored nonce plus one).
    pub fn invalid_nonce(&self, txn: &ETHTxn, addr: &ETHAddress) -> (r: bool)
        requires
            self.contains(addr@),
        ensures
            r == (txn.nonce != self.nonce_of(addr@) + 1),
    {
        let i = self.find_account(addr).unwrap();
        let stored: u64 = self.accounts[i].nonce as u64;
        stored + 1 != txn.nonce as u64
    }

    /// Deduct `amount` if the account exists and has at least that
    /// much; report whether the deduction happened. On `false` the
    /// state is unchanged.
    pub fn safe_deduct(&mut self, addr: &ETHAddress, amount: Wei) -> (ok: bool)
        requires
            old(self).wf(),
        ensures
            final(self).wf(),
            ok == (old(self).contains(addr@) && old(self).balance_of(addr@) >= amount@),
            ok ==> forall|a: Seq<u8>| #![trigger final(self).contains(a)]
                final(self).contains(a) == old(self).contains(a),
            ok ==> forall|a: Seq<u8>| #![trigger final(self).balance_of(a)]
                a != addr@ ==> final(self).balance_of(a) == old(self).balance_of(a),
            ok ==> forall|a: Seq<u8>| #![trigger final(self).nonce_of(a)]
                final(self).nonce_of(a) == old(self).nonce_of(a),
            ok ==> final(self).balance_of(addr@) == old(self).balance_of(addr@) - amount@,
            ok ==> final(self).total() == old(self).total() - amount@,
            !ok ==> *final(self) == *old(self),
    {
        match self.find_account(addr) {
            Some(i) => {
                let acc0 = self.accounts[i];
                match acc0.balance - amount {
                    Some(nb) => {
                        let mut acc = acc0;
                        acc.balance = nb;
                        let ghost olds = self.accounts@;
                        self.accounts[i] = acc;
                        proof {
                            lemma_update_account(olds, i as int, acc);
                        }
                        true
                    }
                    None => false,
                }
            }
            None => false,
        }
    }

    /// Credit `amount` to the address, creating the account (nonce 0)
    /// if it does not exist yet.
    pub fn pay(&mut self, addr: &ETHAddress, amount: Wei)
        requires
            old(self).wf(),
            old(self).balance_of(addr@) + amount@ <= u128::MAX,
        ensures
            final(self).wf(),
            forall|a: Seq<u8>| #![trigger final(self).contains(a)]
                final(self).contains(a) == (old(self).contains(a) || a == addr@),
            forall|a: Seq<u8>| #![trigger final(self).balance_of(a)]
                a != addr@ ==> final(self).balance_of(a) == old(self).balance_of(a),
            forall|a: Seq<u8>| #![trigger final(self).nonce_of(a)]
                final(self).nonce_of(a) == old(self).nonce_of(a),
            final(self).contains(addr@),
            final(self).balance_of(addr@) == old(self).balance_of(addr@) + amount@,
            final(self).total() == old(self).total() + amount@,
    {
        match self.find_account(addr) {
            Some(i) => {
                let mut acc = self.accounts[i];
                acc.balance = acc.balance + amount;
                let ghost olds = self.accounts@;
                self.accounts[i] = acc;
                proof {
                    lemma_update_account(olds, i as int, acc);
                }
            }
            None => {
                let mut acc = ETHAccount::new(*addr);
                acc.balance = amount;
                let ghost olds = self.accounts@;
                self.accounts.push(acc);
                proof {
                    lemma_absent_defaults(olds, addr@);
                    lemma_push_account(olds, acc);
                }
            }
        }
    }

    /// The balance at the address, or `None` when no account exists.
    pub fn get_value(&self, addr: &ETHAddress) -> (r: Option<Wei>)
        ensures
            match r {
                Some(w) => self.contains(addr@) && w@ == self.balance_of(addr@),
                None => !self.contains(addr@),
            },
    {
        match self.find_account(addr) {
            Some(i) => Some(self.accounts[i].balance),
            None => None,
        }
    }
}

} // verus!
