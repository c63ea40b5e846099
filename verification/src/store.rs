//! The registry's state: four mappings with their accessors.

use crate::address::{Address, Delegation};
use crate::assoc::AssocMap;
use crate::ledger::Ledger;
use crate::uint::U256;
use vstd::prelude::*;
use vstd::set_lib::*;

verus! {

/// The four mappings of a registry. A key that was never written reads as the
/// default of its value.
///
/// The accessors read and write single slots and know nothing of the rules
/// that tie the mappings together; [`crate::erc721::Erc721`] keeps those.
pub struct Store {
    balances: AssocMap<Address, U256>,
    owners: AssocMap<U256, Address>,
    token_approvals: AssocMap<U256, Address>,
    operator_approvals: AssocMap<Delegation, bool>,
}

impl View for Store {
    type V = Ledger;

    closed spec fn view(&self) -> Ledger {
        Ledger {
            balances: Map::total(
                |a: Address|
                    if self.balances@.dom().contains(a) {
                        self.balances@[a]@
                    } else {
                        0nat
                    },
            ),
            owners: Map::total(
                |id: U256|
                    if self.owners@.dom().contains(id) {
                        self.owners@[id]
                    } else {
                        Address::zero()
                    },
            ),
            token_approvals: Map::total(
                |id: U256|
                    if self.token_approvals@.dom().contains(id) {
                        self.token_approvals@[id]
                    } else {
                        Address::zero()
                    },
            ),
            operator_approvals: Map::total(
                |d: Delegation|
                    if self.operator_approvals@.dom().contains(d) {
                        self.operator_approvals@[d]
                    } else {
                        false
                    },
            ),
        }
    }
}

impl Store {
    /// The state in which nothing was written yet.
    pub fn new() -> (s: Store)
        ensures
            s@ == Ledger::empty(),
    {
        let s = Store {
            balances: AssocMap::new(),
            owners: AssocMap::new(),
            token_approvals: AssocMap::new(),
            operator_approvals: AssocMap::new(),
        };
        proof {
            assert(s@.balances =~= Ledger::empty().balances);
            assert(s@.owners =~= Ledger::empty().owners);
            assert(s@.token_approvals =~= Ledger::empty().token_approvals);
            assert(s@.operator_approvals =~= Ledger::empty().operator_approvals);
        }
        s
    }

    /// The number of tokens counted for `owner`.
    pub fn balance(&self, owner: Address) -> (b: U256)
        ensures
            b@ == self@.balances[owner],
    {
        match self.balances.get(&owner) {
            Some(b) => b,
            None => U256::zero(),
        }
    }

    /// The owner of the token, or the zero address.
    pub fn owner(&self, token_id: U256) -> (a: Address)
        ensures
            a == self@.owners[token_id],
    {
        match self.owners.get(&token_id) {
            Some(a) => a,
            None => Address::zero_address(),
        }
    }

    /// The address approved for the token, or the zero address.
    pub fn token_approval(&self, token_id: U256) -> (a: Address)
        ensures
            a == self@.token_approvals[token_id],
    {
        match self.token_approvals.get(&token_id) {
            Some(a) => a,
            None => Address::zero_address(),
        }
    }

    /// Whether `operator` may move all tokens of `owner`.
    pub fn operator_approval(&self, owner: Address, operator: Address) -> (b: bool)
        ensures
            b == self@.operator_approvals[Delegation { owner, operator }],
    {
        match self.operator_approvals.get(&Delegation { owner, operator }) {
            Some(b) => b,
            None => false,
        }
    }

    /// Writes the number of tokens counted for `owner`.
    pub fn set_balance(&mut self, owner: Address, value: U256)
        ensures
            final(self)@ == (Ledger {
                balances: old(self)@.balances.insert(owner, value@),
                ..old(self)@
            }),
    {
        self.balances.insert(owner, value);
        proof {
            assert(final(self)@.balances =~= old(self)@.balances.insert(owner, value@));
        }
    }

    /// Writes the owner of the token.
    pub fn set_owner(&mut self, token_id: U256, owner: Address)
        ensures
            final(self)@ == (Ledger {
                owners: old(self)@.owners.insert(token_id, owner),
                ..old(self)@
            }),
    {
        self.owners.insert(token_id, owner);
        proof {
            assert(final(self)@.owners =~= old(self)@.owners.insert(token_id, owner));
        }
    }

    /// Writes the address approved for the token.
    pub fn set_token_approval(&mut self, token_id: U256, approved: Address)
        ensures
            final(self)@ == (Ledger {
                token_approvals: old(self)@.token_approvals.insert(token_id, approved),
                ..old(self)@
            }),
    {
        self.token_approvals.insert(token_id, approved);
        proof {
            assert(final(self)@.token_approvals =~= old(self)@.token_approvals.insert(
                token_id,
                approved,
            ));
        }
    }

    /// Writes whether `operator` may move all tokens of `owner`.
    pub fn set_operator_approval(&mut self, owner: Address, operator: Address, approved: bool)
        ensures
            final(self)@ == (Ledger {
                operator_approvals: old(self)@.operator_approvals.insert(
                    Delegation { owner, operator },
                    approved,
                ),
                ..old(self)@
            }),
    {
        self.operator_approvals.insert(Delegation { owner, operator }, approved);
        proof {
            assert(final(self)@.operator_approvals =~= old(self)@.operator_approvals.insert(
                Delegation { owner, operator },
                approved,
            ));
        }
    }

    /// The number of owner slots that were ever written: a bound on the
    /// number of tokens that exist.
    pub fn owner_slots(&self) -> (n: usize)
        ensures
            self@.minted_tokens().finite(),
            self@.minted_tokens().len() <= n,
    {
        let n = self.owners.len();
        proof {
            assert(self@.minted_tokens().subset_of(self.owners@.dom()));
            lemma_len_subset(self@.minted_tokens(), self.owners@.dom());
        }
        n
    }

    /// A copy with the same contents.
    pub fn duplicate(&self) -> (s: Store)
        ensures
            s@ == self@,
    {
        let s = Store {
            balances: self.balances.duplicate(),
            owners: self.owners.duplicate(),
            token_approvals: self.token_approvals.duplicate(),
            operator_approvals: self.operator_approvals.duplicate(),
        };
        proof {
            assert(s@.balances =~= self@.balances);
            assert(s@.owners =~= self@.owners);
            assert(s@.token_approvals =~= self@.token_approvals);
            assert(s@.operator_approvals =~= self@.operator_approvals);
        }
        s
    }
}

} // verus!
