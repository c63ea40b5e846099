//! The registry as a mathematical object: four total mappings, the
//! transitions between them, and the properties that every reachable state
//! has.

use crate::address::{Address, Delegation};
use crate::error::Erc721Error;
use crate::event::Event;
use crate::rules;
use crate::uint::U256;
use vstd::prelude::*;
use vstd::set_lib::*;

verus! {

/// The state of a registry.
///
/// Every mapping is total. A key that was never written maps to the default of
/// its value: zero tokens, the zero address, `false`.
pub struct Ledger {
    /// How many tokens each address owns.
    pub balances: Map<Address, nat>,
    /// The owner of each token; the zero address for a token that does not
    /// exist.
    pub owners: Map<U256, Address>,
    /// The address approved for each token; the zero address for none.
    pub token_approvals: Map<U256, Address>,
    /// Whether an operator may move all tokens of an owner.
    pub operator_approvals: Map<Delegation, bool>,
}

/// An operation that changes a registry, with its arguments and its caller.
pub enum Operation {
    /// Issuing a token.
    Mint { to: Address, token_id: U256 },
    /// Choosing the approved address of a token.
    Approve { caller: Address, to: Address, token_id: U256 },
    /// Granting or withdrawing an operator.
    SetApprovalForAll { caller: Address, operator: Address, approved: bool },
    /// Moving a token.
    Transfer { caller: Address, from: Address, to: Address, token_id: U256 },
}

impl Ledger {
    /// The registry in which no token exists and nothing is approved.
    pub open spec fn empty() -> Ledger {
        Ledger {
            balances: Map::total(|a: Address| 0nat),
            owners: Map::total(|id: U256| Address::zero()),
            token_approvals: Map::total(|id: U256| Address::zero()),
            operator_approvals: Map::total(|d: Delegation| false),
        }
    }

    /// Every mapping has a value for every key.
    pub open spec fn is_total(self) -> bool {
        &&& self.balances.dom() == Set::<Address>::full()
        &&& self.owners.dom() == Set::<U256>::full()
        &&& self.token_approvals.dom() == Set::<U256>::full()
        &&& self.operator_approvals.dom() == Set::<Delegation>::full()
    }

    /// Whether the token exists, that is, has an owner.
    pub open spec fn minted(self, token_id: U256) -> bool {
        self.owners[token_id] != Address::zero()
    }

    /// All tokens that exist.
    pub open spec fn minted_tokens(self) -> Set<U256> {
        Set::new(|id: U256| self.minted(id))
    }

    /// The tokens that `owner` owns. The zero address owns none.
    pub open spec fn tokens_of(self, owner: Address) -> Set<U256> {
        Set::new(|id: U256| self.minted(id) && self.owners[id] == owner)
    }

    /// Whether `operator` may move all tokens of `owner`.
    pub open spec fn is_approved_for_all(self, owner: Address, operator: Address) -> bool {
        self.operator_approvals[Delegation { owner, operator }]
    }

    /// Whether `caller` may move the token.
    pub open spec fn may_transfer(self, caller: Address, token_id: U256) -> bool {
        let owner = self.owners[token_id];
        rules::may_transfer(
            caller,
            owner,
            self.token_approvals[token_id],
            self.is_approved_for_all(owner, caller),
        )
    }

    /// What holds of every registry:
    /// - each balance is the number of tokens that the address owns;
    /// - finitely many tokens exist;
    /// - only a token that exists has an approved address.
    pub open spec fn inv(self) -> bool {
        &&& self.is_total()
        &&& self.minted_tokens().finite()
        &&& forall|a: Address|
            #![trigger self.balances[a]]
            #![trigger self.tokens_of(a)]
            self.balances[a] == self.tokens_of(a).len()
        &&& forall|id: U256|
            !self.minted(id) ==> #[trigger] self.token_approvals[id] == Address::zero()
    }

    /// The registry after `to` became the approved address of the token.
    pub open spec fn approve(self, to: Address, token_id: U256) -> Ledger {
        Ledger { token_approvals: self.token_approvals.insert(token_id, to), ..self }
    }

    /// The registry after `owner` granted or withdrew `operator`'s right over
    /// all of `owner`'s tokens.
    pub open spec fn set_approval_for_all(
        self,
        owner: Address,
        operator: Address,
        approved: bool,
    ) -> Ledger {
        Ledger {
            operator_approvals: self.operator_approvals.insert(
                Delegation { owner, operator },
                approved,
            ),
            ..self
        }
    }

    /// The balances after one token went from `from` to `to`.
    pub open spec fn moved_balances(self, from: Address, to: Address) -> Map<Address, nat> {
        let after = rules::moved(from, to, self.balances[from], self.balances[to]);
        self.balances.insert(from, after.0).insert(to, after.1)
    }

    /// The registry after the token went from `from` to `to`: the token has no
    /// approved address any more, one token less is counted for `from` and one
    /// more for `to`, and `to` owns the token.
    pub open spec fn transfer(self, from: Address, to: Address, token_id: U256) -> Ledger {
        Ledger {
            balances: self.moved_balances(from, to),
            owners: self.owners.insert(token_id, to),
            token_approvals: self.token_approvals.insert(token_id, Address::zero()),
            operator_approvals: self.operator_approvals,
        }
    }

    /// The registry after the token was issued to `to`.
    pub open spec fn mint(self, to: Address, token_id: U256) -> Ledger {
        Ledger {
            balances: self.balances.insert(to, self.balances[to] + 1),
            owners: self.owners.insert(token_id, to),
            ..self
        }
    }

    /// Why `caller` cannot choose the approved address of the token, if so.
    pub open spec fn approve_failure(self, caller: Address, token_id: U256) -> Option<
        Erc721Error,
    > {
        let owner = self.owners[token_id];
        rules::approve_failure(caller, token_id, owner, self.is_approved_for_all(owner, caller))
    }

    /// Why `caller` cannot move the token from `from` to `to`, if so.
    pub open spec fn transfer_failure(
        self,
        caller: Address,
        from: Address,
        to: Address,
        token_id: U256,
    ) -> Option<Erc721Error> {
        let owner = self.owners[token_id];
        rules::transfer_failure(
            caller,
            from,
            to,
            token_id,
            owner,
            self.token_approvals[token_id],
            self.is_approved_for_all(owner, caller),
        )
    }

    /// Why the token cannot be issued to `to`, if so.
    pub open spec fn mint_failure(self, to: Address, token_id: U256) -> Option<Erc721Error> {
        rules::mint_failure(to, token_id, self.owners[token_id])
    }

    /// What an approval on behalf of `caller` returns: the failure, or the
    /// event that names the token's owner and `to`.
    pub open spec fn approve_result(self, caller: Address, to: Address, token_id: U256) -> Result<
        Event,
        Erc721Error,
    > {
        rules::decision(
            self.approve_failure(caller, token_id),
            Event::Approval { owner: self.owners[token_id], approved: to, token_id },
        )
    }

    /// The registry after an approval on behalf of `caller`: unchanged where
    /// the approval fails.
    pub open spec fn after_approve(self, caller: Address, to: Address, token_id: U256) -> Ledger {
        if self.approve_failure(caller, token_id) is None {
            self.approve(to, token_id)
        } else {
            self
        }
    }

    /// What `caller` gets back from granting or withdrawing `operator`.
    pub open spec fn set_approval_for_all_result(
        caller: Address,
        operator: Address,
        approved: bool,
    ) -> Result<Event, Erc721Error> {
        rules::decision(
            rules::set_approval_for_all_failure(caller, operator),
            Event::ApprovalForAll { owner: caller, operator, approved },
        )
    }

    /// The registry after `caller` granted or withdrew `operator`: unchanged
    /// where that fails.
    pub open spec fn after_set_approval_for_all(
        self,
        caller: Address,
        operator: Address,
        approved: bool,
    ) -> Ledger {
        if rules::set_approval_for_all_failure(caller, operator) is None {
            self.set_approval_for_all(caller, operator, approved)
        } else {
            self
        }
    }

    /// What a transfer on behalf of `caller` returns: the failure, or the
    /// event of the transfer.
    pub open spec fn transfer_result(
        self,
        caller: Address,
        from: Address,
        to: Address,
        token_id: U256,
    ) -> Result<Event, Erc721Error> {
        rules::decision(
            self.transfer_failure(caller, from, to, token_id),
            Event::Transfer { from, to, token_id },
        )
    }

    /// The registry after a transfer on behalf of `caller`: unchanged where
    /// the transfer fails.
    pub open spec fn after_transfer(
        self,
        caller: Address,
        from: Address,
        to: Address,
        token_id: U256,
    ) -> Ledger {
        if self.transfer_failure(caller, from, to, token_id) is None {
            self.transfer(from, to, token_id)
        } else {
            self
        }
    }

    /// What issuing the token to `to` returns: the failure, or the event of
    /// a transfer from the zero address.
    pub open spec fn mint_result(self, to: Address, token_id: U256) -> Result<Event, Erc721Error> {
        rules::decision(
            self.mint_failure(to, token_id),
            Event::Transfer { from: Address::zero(), to, token_id },
        )
    }

    /// The registry after issuing the token to `to`: unchanged where that
    /// fails.
    pub open spec fn after_mint(self, to: Address, token_id: U256) -> Ledger {
        if self.mint_failure(to, token_id) is None {
            self.mint(to, token_id)
        } else {
            self
        }
    }

    /// The registry after one operation, whether it succeeds or fails.
    pub open spec fn step(self, operation: Operation) -> Ledger {
        match operation {
            Operation::Mint { to, token_id } => self.after_mint(to, token_id),
            Operation::Approve { caller, to, token_id } => self.after_approve(
                caller,
                to,
                token_id,
            ),
            Operation::SetApprovalForAll { caller, operator, approved } =>
                self.after_set_approval_for_all(caller, operator, approved),
            Operation::Transfer { caller, from, to, token_id } => self.after_transfer(
                caller,
                from,
                to,
                token_id,
            ),
        }
    }

    /// The registry after a sequence of operations, the first one first.
    pub open spec fn run(self, operations: Seq<Operation>) -> Ledger
        decreases operations.len(),
    {
        if operations.len() == 0 {
            self
        } else {
            self.run(operations.drop_last()).step(operations.last())
        }
    }

    /// The empty registry satisfies the invariant.
    pub proof fn lemma_empty_inv()
        ensures
            Ledger::empty().inv(),
    {
        let l = Ledger::empty();
        assert(l.minted_tokens() =~= Set::<U256>::empty());
        assert forall|a: Address| l.tokens_of(a).len() == 0 by {
            assert(l.tokens_of(a) =~= Set::<U256>::empty());
        }
        assert(l.balances.dom() =~= Set::<Address>::full());
        assert(l.owners.dom() =~= Set::<U256>::full());
        assert(l.token_approvals.dom() =~= Set::<U256>::full());
        assert(l.operator_approvals.dom() =~= Set::<Delegation>::full());
    }

    /// An address owns finitely many tokens, no more than exist, and its
    /// balance is their number. The zero address owns none.
    pub proof fn lemma_balance_counts_tokens(self, owner: Address)
        requires
            self.inv(),
        ensures
            self.tokens_of(owner).finite(),
            self.balances[owner] == self.tokens_of(owner).len(),
            self.balances[owner] <= self.minted_tokens().len(),
            self.balances[Address::zero()] == 0,
    {
        lemma_len_subset(self.tokens_of(owner), self.minted_tokens());
        assert(self.tokens_of(Address::zero()) =~= Set::<U256>::empty());
    }

    /// An approval, whether it succeeds or fails, keeps the invariant.
    pub proof fn lemma_approve_inv(self, caller: Address, to: Address, token_id: U256)
        requires
            self.inv(),
        ensures
            self.after_approve(caller, to, token_id).inv(),
    {
        let next = self.after_approve(caller, to, token_id);
        assert(next.minted_tokens() =~= self.minted_tokens());
        assert forall|a: Address| next.balances[a] == next.tokens_of(a).len() by {
            assert(next.tokens_of(a) =~= self.tokens_of(a));
        }
        assert(next.token_approvals.dom() =~= Set::<U256>::full());
    }

    /// Granting or withdrawing an operator, whether it succeeds or fails,
    /// keeps the invariant.
    pub proof fn lemma_set_approval_for_all_inv(
        self,
        caller: Address,
        operator: Address,
        approved: bool,
    )
        requires
            self.inv(),
        ensures
            self.after_set_approval_for_all(caller, operator, approved).inv(),
    {
        let next = self.after_set_approval_for_all(caller, operator, approved);
        assert(next.minted_tokens() =~= self.minted_tokens());
        assert forall|a: Address| next.balances[a] == next.tokens_of(a).len() by {
            assert(next.tokens_of(a) =~= self.tokens_of(a));
        }
        assert(next.operator_approvals.dom() =~= Set::<Delegation>::full());
    }

    /// A transfer, whether it succeeds or fails, keeps the invariant: the
    /// balances still count the tokens. Where it succeeds, `from` had a token
    /// to give.
    pub proof fn lemma_transfer_inv(
        self,
        caller: Address,
        from: Address,
        to: Address,
        token_id: U256,
    )
        requires
            self.inv(),
        ensures
            self.after_transfer(caller, from, to, token_id).inv(),
            self.transfer_failure(caller, from, to, token_id) is None ==> self.balances[from] >= 1,
    {
        if self.transfer_failure(caller, from, to, token_id) is None {
            let next = self.transfer(from, to, token_id);
            self.lemma_balance_counts_tokens(from);
            self.lemma_balance_counts_tokens(to);
            assert(self.tokens_of(from).contains(token_id));
            assert(self.balances[from] >= 1) by {
                if self.tokens_of(from).len() == 0 {
                    assert(self.tokens_of(from).remove(token_id).len() + 1 == 0);
                }
            }
            assert(next.minted_tokens() =~= self.minted_tokens());
            assert forall|a: Address| next.balances[a] == next.tokens_of(a).len() by {
                if a == to {
                    assert(next.tokens_of(a) =~= self.tokens_of(a).insert(token_id));
                } else if a == from {
                    assert(next.tokens_of(a) =~= self.tokens_of(a).remove(token_id));
                } else {
                    assert(next.tokens_of(a) =~= self.tokens_of(a));
                }
            }
            assert(next.balances.dom() =~= Set::<Address>::full());
            assert(next.owners.dom() =~= Set::<U256>::full());
            assert(next.token_approvals.dom() =~= Set::<U256>::full());
        }
    }

    /// Issuing a token, whether it succeeds or fails, keeps the invariant.
    /// Where it succeeds, one more token exists.
    pub proof fn lemma_mint_inv(self, to: Address, token_id: U256)
        requires
            self.inv(),
        ensures
            self.after_mint(to, token_id).inv(),
            self.mint_failure(to, token_id) is None ==> self.after_mint(
                to,
                token_id,
            ).minted_tokens() == self.minted_tokens().insert(token_id) && !self.minted(token_id),
    {
        if self.mint_failure(to, token_id) is None {
            let next = self.mint(to, token_id);
            self.lemma_balance_counts_tokens(to);
            assert(next.minted_tokens() =~= self.minted_tokens().insert(token_id));
            assert forall|a: Address| next.balances[a] == next.tokens_of(a).len() by {
                if a == to {
                    assert(next.tokens_of(a) =~= self.tokens_of(a).insert(token_id));
                } else {
                    assert(next.tokens_of(a) =~= self.tokens_of(a));
                }
            }
            assert(next.balances.dom() =~= Set::<Address>::full());
            assert(next.owners.dom() =~= Set::<U256>::full());
        }
    }

    /// Every operation keeps the invariant.
    pub proof fn lemma_step_inv(self, operation: Operation)
        requires
            self.inv(),
        ensures
            self.step(operation).inv(),
    {
        match operation {
            Operation::Mint { to, token_id } => self.lemma_mint_inv(to, token_id),
            Operation::Approve { caller, to, token_id } => self.lemma_approve_inv(
                caller,
                to,
                token_id,
            ),
            Operation::SetApprovalForAll { caller, operator, approved } =>
                self.lemma_set_approval_for_all_inv(caller, operator, approved),
            Operation::Transfer { caller, from, to, token_id } => self.lemma_transfer_inv(
                caller,
                from,
                to,
                token_id,
            ),
        }
    }

    /// Every sequence of operations keeps the invariant.
    pub proof fn lemma_run_inv(self, operations: Seq<Operation>)
        requires
            self.inv(),
        ensures
            self.run(operations).inv(),
        decreases operations.len(),
    {
        if operations.len() > 0 {
            self.lemma_run_inv(operations.drop_last());
            self.run(operations.drop_last()).lemma_step_inv(operations.last());
        }
    }

    /// After every sequence of operations on a registry without tokens, by
    /// whatever callers and whether they succeed or fail, the balance of
    /// every address is the number of tokens that it owns.
    pub proof fn lemma_balances_always_count_tokens(operations: Seq<Operation>, owner: Address)
        ensures
            Ledger::empty().run(operations).tokens_of(owner).finite(),
            Ledger::empty().run(operations).balances[owner] == Ledger::empty().run(
                operations,
            ).tokens_of(owner).len(),
    {
        Ledger::lemma_empty_inv();
        Ledger::empty().lemma_run_inv(operations);
        Ledger::empty().run(operations).lemma_balance_counts_tokens(owner);
    }

    /// After a successful transfer the token belongs to `to` and has no
    /// approved address, whatever it had before; the approved addresses of
    /// all other tokens are as they were.
    pub proof fn lemma_transfer_withdraws_approval(
        self,
        caller: Address,
        from: Address,
        to: Address,
        token_id: U256,
    )
        requires
            self.transfer_result(caller, from, to, token_id) is Ok,
        ensures
            self.after_transfer(caller, from, to, token_id).minted(token_id),
            self.after_transfer(caller, from, to, token_id).owners[token_id] == to,
            self.after_transfer(caller, from, to, token_id).token_approvals[token_id]
                == Address::zero(),
            forall|other: U256|
                other != token_id ==> #[trigger] self.after_transfer(
                    caller,
                    from,
                    to,
                    token_id,
                ).token_approvals[other] == self.token_approvals[other],
    {
    }

    /// A transfer never touches an operator's rights.
    pub proof fn lemma_transfer_keeps_operators(
        self,
        caller: Address,
        from: Address,
        to: Address,
        token_id: U256,
    )
        ensures
            self.after_transfer(caller, from, to, token_id).operator_approvals
                == self.operator_approvals,
    {
    }

    /// A successful transfer between two addresses takes one token from the
    /// one balance and adds one to the other; all other balances stay, and so
    /// do the owners of all other tokens.
    pub proof fn lemma_transfer_moves_one_token(
        self,
        caller: Address,
        from: Address,
        to: Address,
        token_id: U256,
    )
        requires
            self.inv(),
            self.transfer_result(caller, from, to, token_id) is Ok,
            from != to,
        ensures
            self.balances[from] >= 1,
            self.after_transfer(caller, from, to, token_id).balances[from] == self.balances[from]
                - 1,
            self.after_transfer(caller, from, to, token_id).balances[to] == self.balances[to] + 1,
            forall|a: Address|
                a != from && a != to ==> #[trigger] self.after_transfer(
                    caller,
                    from,
                    to,
                    token_id,
                ).balances[a] == self.balances[a],
            forall|other: U256|
                other != token_id ==> #[trigger] self.after_transfer(
                    caller,
                    from,
                    to,
                    token_id,
                ).owners[other] == self.owners[other],
    {
        self.lemma_transfer_inv(caller, from, to, token_id);
    }

    /// A successful transfer of a token to its own owner changes no balance
    /// and no owner; it still withdraws the token's approved address.
    pub proof fn lemma_self_transfer(self, caller: Address, owner: Address, token_id: U256)
        requires
            self.inv(),
            self.transfer_result(caller, owner, owner, token_id) is Ok,
        ensures
            self.after_transfer(caller, owner, owner, token_id).balances == self.balances,
            self.after_transfer(caller, owner, owner, token_id).owners == self.owners,
            self.after_transfer(caller, owner, owner, token_id).token_approvals[token_id]
                == Address::zero(),
    {
        let next = self.after_transfer(caller, owner, owner, token_id);
        assert(next.balances =~= self.balances);
        assert(next.owners =~= self.owners);
    }

    /// A failed operation changes nothing.
    pub proof fn lemma_failure_changes_nothing(
        self,
        caller: Address,
        from: Address,
        to: Address,
        token_id: U256,
        approved: bool,
    )
        ensures
            self.approve_result(caller, to, token_id) is Err ==> self.after_approve(
                caller,
                to,
                token_id,
            ) == self,
            Ledger::set_approval_for_all_result(caller, to, approved) is Err
                ==> self.after_set_approval_for_all(caller, to, approved) == self,
            self.transfer_result(caller, from, to, token_id) is Err ==> self.after_transfer(
                caller,
                from,
                to,
                token_id,
            ) == self,
            self.mint_result(to, token_id) is Err ==> self.after_mint(to, token_id) == self,
    {
    }

    /// Granting an operator twice is the same as granting it once, and the
    /// operator is approved afterwards. The same holds for withdrawing.
    pub proof fn lemma_set_approval_for_all_idempotent(
        self,
        caller: Address,
        operator: Address,
        approved: bool,
    )
        ensures
            self.after_set_approval_for_all(caller, operator, approved).after_set_approval_for_all(
                caller,
                operator,
                approved,
            ) == self.after_set_approval_for_all(caller, operator, approved),
            caller != operator ==> self.after_set_approval_for_all(
                caller,
                operator,
                approved,
            ).is_approved_for_all(caller, operator) == approved,
    {
        let once = self.after_set_approval_for_all(caller, operator, approved);
        let twice = once.after_set_approval_for_all(caller, operator, approved);
        assert(twice.operator_approvals =~= once.operator_approvals);
    }

    /// A successful approval names exactly one address, the latest; it can be
    /// read back.
    pub proof fn lemma_approve_overwrites(
        self,
        caller: Address,
        first: Address,
        second: Address,
        token_id: U256,
    )
        requires
            self.approve_result(caller, first, token_id) is Ok,
        ensures
            self.after_approve(caller, first, token_id).token_approvals[token_id] == first,
            self.after_approve(caller, first, token_id).after_approve(caller, second, token_id)
                == self.after_approve(caller, second, token_id),
    {
        let one = self.after_approve(caller, first, token_id).after_approve(
            caller,
            second,
            token_id,
        );
        let other = self.after_approve(caller, second, token_id);
        assert(one.token_approvals =~= other.token_approvals);
    }
}

} // verus!
