//! The registry: queries, approvals and transfers.
//!
//! The registry does no input or output of its own. Who calls comes in as an
//! argument, what is to be logged goes out as an [`Event`], and the
//! acknowledgment of a safe transfer is a step of its own (see
//! [`crate::receiver`]).

use crate::address::Address;
use crate::error::Erc721Error;
use crate::event::Event;
use crate::ledger::Ledger;
use crate::receiver::{PendingReceipt, ReceiverCall, ReceiverCallView, ReceiverReply, SafeTransfer};
use crate::rules;
use crate::rules::Balances;
use crate::store::Store;
use crate::uint::{decimal, U256};
use vstd::prelude::*;

verus! {

/// What is fixed when a registry is set up: the collection's name and symbol,
/// and the prefix of every token's URI.
pub struct Erc721Params {
    pub name: String,
    pub symbol: String,
    pub base_uri: String,
}

impl Erc721Params {
    /// A name and a symbol, with the empty URI prefix.
    pub fn new(name: &str, symbol: &str) -> (p: Erc721Params)
        ensures
            p.name@ == name@,
            p.symbol@ == symbol@,
            p.base_uri@ == Seq::<char>::empty(),
    {
        Erc721Params { name: name.to_owned(), symbol: symbol.to_owned(), base_uri: String::new() }
    }

    /// The same name and symbol, with `base_uri` as the URI prefix.
    pub fn with_base_uri(self, base_uri: &str) -> (p: Erc721Params)
        ensures
            p.name@ == self.name@,
            p.symbol@ == self.symbol@,
            p.base_uri@ == base_uri@,
    {
        Erc721Params { name: self.name, symbol: self.symbol, base_uri: base_uri.to_owned() }
    }
}

/// A registry of non-fungible tokens.
///
/// Its state is the [`Ledger`] that `@` gives. Whatever is done to a
/// registry, that ledger satisfies [`Ledger::inv`]: above all, every balance
/// is the number of tokens that the address owns.
pub struct Erc721 {
    params: Erc721Params,
    store: Store,
}

impl View for Erc721 {
    type V = Ledger;

    closed spec fn view(&self) -> Ledger {
        self.store@
    }
}

/// Whether `step` is what a safe transfer returns for the registry `before`:
/// the failure of the transfer; or its event, final, where `to` is no
/// contract; or a receipt that holds the registry from before the transfer,
/// the transfer's event, and the call of `to` with `caller` as the operator
/// and with `data`.
pub open spec fn safe_transfer_step(
    step: Result<SafeTransfer, Erc721Error>,
    before: Ledger,
    caller: Address,
    from: Address,
    to: Address,
    token_id: U256,
    data: Seq<u8>,
    to_is_contract: bool,
) -> bool {
    match before.transfer_result(caller, from, to, token_id) {
        Err(e) => step == Err::<SafeTransfer, Erc721Error>(e),
        Ok(event) => match step {
            Ok(SafeTransfer::Completed(logged)) => !to_is_contract && logged == event,
            Ok(SafeTransfer::AwaitingReceiver(pending)) => {
                &&& to_is_contract
                &&& pending.checkpoint() == before
                &&& pending.event() == event
                &&& pending.call()@ == (ReceiverCallView {
                    receiver: to,
                    operator: caller,
                    from,
                    token_id,
                    data,
                })
            },
            Err(_) => false,
        },
    }
}

#[allow(non_snake_case)]
impl Erc721 {
    #[verifier::type_invariant]
    spec fn well_formed(&self) -> bool {
        self.store@.inv()
    }

    /// What the registry was set up with.
    pub closed spec fn config(&self) -> Erc721Params {
        self.params
    }

    /// Takes the mappings out to work on them, and leaves empty ones.
    fn take_store(&mut self) -> (store: Store)
        ensures
            store@ == old(self)@,
            store@.inv(),
            final(self).config() == old(self).config(),
    {
        proof {
            use_type_invariant(&*self);
            Ledger::lemma_empty_inv();
        }
        let mut store = Store::new();
        std::mem::swap(&mut store, &mut self.store);
        store
    }

    /// Puts mappings in place that satisfy the invariant.
    fn put_store(&mut self, store: Store)
        requires
            store@.inv(),
        ensures
            final(self)@ == store@,
            final(self).config() == old(self).config(),
    {
        self.store = store;
    }

    /// A registry without tokens.
    pub fn new(params: Erc721Params) -> (registry: Erc721)
        ensures
            registry@ == Ledger::empty(),
            registry@.inv(),
            registry.config() == params,
    {
        proof {
            Ledger::lemma_empty_inv();
        }
        Erc721 { params, store: Store::new() }
    }

    /// The owner of the token, or the zero address if it does not exist.
    pub fn _ownerOf(&self, token_id: U256) -> (owner: Address)
        ensures
            owner == self@.owners[token_id],
    {
        self.store.owner(token_id)
    }

    /// The address approved for the token, or the zero address for none.
    pub fn _getApproved(&self, token_id: U256) -> (approved: Address)
        ensures
            approved == self@.token_approvals[token_id],
    {
        self.store.token_approval(token_id)
    }

    /// Fails unless the token exists.
    pub fn _requireMinted(&self, token_id: U256) -> (r: Result<(), Erc721Error>)
        ensures
            r == (if self@.minted(token_id) {
                Ok::<(), Erc721Error>(())
            } else {
                Err(Erc721Error::NonexistentToken { token_id })
            }),
    {
        rules::check_minted(token_id, self.store.owner(token_id))
    }

    /// The prefix of every token's URI.
    pub fn _baseURI(&self) -> (base: String)
        ensures
            base@ == self.config().base_uri@,
    {
        self.params.base_uri.clone()
    }

    /// Whether `caller` may move the token.
    pub fn _isAuthorized(&self, caller: Address, token_id: U256) -> (b: bool)
        ensures
            b == self@.may_transfer(caller, token_id),
    {
        let owner = self.store.owner(token_id);
        let approved = self.store.token_approval(token_id);
        rules::is_authorized(caller, owner, approved, self.store.operator_approval(owner, caller))
    }

    /// Makes `to` the approved address of the token, in place of any earlier
    /// one, on behalf of `caller`.
    ///
    /// Fails with `NonexistentToken` if the token does not exist, and with
    /// `InsufficientApproval` if `caller` is neither its owner nor an
    /// operator of its owner. A failure changes nothing.
    pub fn _approve(&mut self, caller: Address, to: Address, token_id: U256) -> (r: Result<
        Event,
        Erc721Error,
    >)
        ensures
            final(self).config() == old(self).config(),
            final(self)@.inv(),
            r == old(self)@.approve_result(caller, to, token_id),
            final(self)@ == old(self)@.after_approve(caller, to, token_id),
    {
        proof {
            use_type_invariant(&*self);
        }
        let owner = self.store.owner(token_id);
        let caller_is_operator = self.store.operator_approval(owner, caller);
        let event = match rules::authorize_approve(caller, to, token_id, owner, caller_is_operator) {
            Ok(event) => event,
            Err(e) => {
                return Err(e);
            },
        };
        let mut store = self.take_store();
        let ghost before = store@;
        store.set_token_approval(token_id, to);
        proof {
            before.lemma_approve_inv(caller, to, token_id);
        }
        self.put_store(store);
        Ok(event)
    }

    /// The number of tokens that `owner` owns.
    ///
    /// Fails with `InvalidOwner` for the zero address, and for no other.
    pub fn balanceOf(&self, owner: Address) -> (r: Result<U256, Erc721Error>)
        ensures
            owner == Address::zero() ==> r == Err::<U256, Erc721Error>(
                Erc721Error::InvalidOwner { owner },
            ),
            owner != Address::zero() ==> r is Ok && r->Ok_0@ == self@.balances[owner],
            owner != Address::zero() ==> r is Ok && r->Ok_0@ == self@.tokens_of(owner).len(),
    {
        proof {
            use_type_invariant(self);
        }
        match rules::check_balance_query(owner) {
            Err(e) => Err(e),
            Ok(_) => Ok(self.store.balance(owner)),
        }
    }

    /// The owner of the token.
    ///
    /// Fails with `NonexistentToken` if the token does not exist, and only
    /// then.
    pub fn ownerOf(&self, token_id: U256) -> (r: Result<Address, Erc721Error>)
        ensures
            r == (if self@.minted(token_id) {
                Ok::<Address, Erc721Error>(self@.owners[token_id])
            } else {
                Err(Erc721Error::NonexistentToken { token_id })
            }),
    {
        let owner = self._ownerOf(token_id);
        match rules::check_minted(token_id, owner) {
            Err(e) => Err(e),
            Ok(_) => Ok(owner),
        }
    }

    /// The name of the collection.
    pub fn name(&self) -> (name: String)
        ensures
            name@ == self.config().name@,
    {
        self.params.name.clone()
    }

    /// The symbol of the collection.
    pub fn symbol(&self) -> (symbol: String)
        ensures
            symbol@ == self.config().symbol@,
    {
        self.params.symbol.clone()
    }

    /// The URI of the token: the URI prefix, then the token's number in base
    /// ten.
    ///
    /// Fails with `NonexistentToken` if the token does not exist, and only
    /// then.
    pub fn tokenURI(&self, token_id: U256) -> (r: Result<String, Erc721Error>)
        ensures
            match r {
                Ok(uri) => self@.minted(token_id) && uri@ == self.config().base_uri@ + decimal(
                    token_id@,
                ),
                Err(e) => !self@.minted(token_id) && e == (Erc721Error::NonexistentToken {
                    token_id,
                }),
            },
    {
        match self._requireMinted(token_id) {
            Err(e) => Err(e),
            Ok(_) => Ok(rules::token_uri(self.params.base_uri.as_str(), token_id)),
        }
    }

    /// Makes `to` the approved address of the token, in place of any earlier
    /// one, on behalf of `caller`. The zero address withdraws the approval.
    ///
    /// Fails with `NonexistentToken` if the token does not exist, and with
    /// `InsufficientApproval` if `caller` is neither its owner nor an
    /// operator of its owner. A failure changes nothing.
    pub fn approve(&mut self, caller: Address, to: Address, token_id: U256) -> (r: Result<
        Event,
        Erc721Error,
    >)
        ensures
            final(self).config() == old(self).config(),
            final(self)@.inv(),
            r == old(self)@.approve_result(caller, to, token_id),
            final(self)@ == old(self)@.after_approve(caller, to, token_id),
    {
        self._approve(caller, to, token_id)
    }

    /// The address approved for the token; the zero address if there is none.
    ///
    /// Fails with `NonexistentToken` if the token does not exist, and only
    /// then.
    pub fn getApproved(&self, token_id: U256) -> (r: Result<Address, Erc721Error>)
        ensures
            r == (if self@.minted(token_id) {
                Ok::<Address, Erc721Error>(self@.token_approvals[token_id])
            } else {
                Err(Erc721Error::NonexistentToken { token_id })
            }),
    {
        match self._requireMinted(token_id) {
            Err(e) => Err(e),
            Ok(_) => Ok(self._getApproved(token_id)),
        }
    }

    /// Grants `operator` the right to move all of `caller`'s tokens, or
    /// withdraws it.
    ///
    /// Fails with `InvalidOperator` if `operator` is `caller`, and only then.
    /// A failure changes nothing.
    pub fn setApprovalForAll(&mut self, caller: Address, operator: Address, approved: bool) -> (r:
        Result<Event, Erc721Error>)
        ensures
            final(self).config() == old(self).config(),
            final(self)@.inv(),
            r == Ledger::set_approval_for_all_result(caller, operator, approved),
            final(self)@ == old(self)@.after_set_approval_for_all(caller, operator, approved),
    {
        proof {
            use_type_invariant(&*self);
        }
        let event = match rules::authorize_set_approval_for_all(caller, operator, approved) {
            Ok(event) => event,
            Err(e) => {
                return Err(e);
            },
        };
        let mut store = self.take_store();
        let ghost before = store@;
        store.set_operator_approval(caller, operator, approved);
        proof {
            before.lemma_set_approval_for_all_inv(caller, operator, approved);
        }
        self.put_store(store);
        Ok(event)
    }

    /// Whether `operator` may move all tokens of `owner`.
    pub fn isApprovedForAll(&self, owner: Address, operator: Address) -> (b: bool)
        ensures
            b == self@.is_approved_for_all(owner, operator),
    {
        self.store.operator_approval(owner, operator)
    }

    /// Moves the token from `from` to `to` on behalf of `caller`.
    ///
    /// The checks, in this order: the token exists (`NonexistentToken`);
    /// `from` owns it (`IncorrectOwner`); `to` is not the zero address
    /// (`InvalidReceiver`); `caller` is `from`, the address approved for the
    /// token, or an operator of `from` (`InsufficientApproval`). A failure
    /// changes nothing. On success the token's approved address is withdrawn,
    /// one token less is counted for `from` and one more for `to`, and `to`
    /// owns the token.
    pub fn transferFrom(&mut self, caller: Address, from: Address, to: Address, token_id: U256) -> (r:
        Result<Event, Erc721Error>)
        ensures
            final(self).config() == old(self).config(),
            final(self)@.inv(),
            r == old(self)@.transfer_result(caller, from, to, token_id),
            final(self)@ == old(self)@.after_transfer(caller, from, to, token_id),
    {
        proof {
            use_type_invariant(&*self);
        }
        let owner = self.store.owner(token_id);
        let approved = self.store.token_approval(token_id);
        let caller_is_operator = self.store.operator_approval(owner, caller);
        let event = match rules::authorize_transfer(
            caller,
            from,
            to,
            token_id,
            owner,
            approved,
            caller_is_operator,
        ) {
            Ok(event) => event,
            Err(e) => {
                return Err(e);
            },
        };
        let mut store = self.take_store();
        let ghost before = store@;
        let slots = store.owner_slots();
        proof {
            before.lemma_transfer_inv(caller, from, to, token_id);
            before.lemma_balance_counts_tokens(to);
            // `from` has a token to give, and no balance exceeds the number
            // of owner slots: the balances can move
            assert(before.balances[from] >= 1 && before.balances[to] <= slots);
        }
        let balances = Balances { from: store.balance(from), to: store.balance(to) };
        let moved = match rules::move_balances(from, to, balances) {
            Some(moved) => moved,
            None => {
                assert(false);
                balances
            },
        };
        let token = rules::moved_token(to);
        store.set_token_approval(token_id, token.approved);
        store.set_balance(from, moved.from);
        store.set_balance(to, moved.to);
        store.set_owner(token_id, token.owner);
        assert(store@ == before.transfer(from, to, token_id));
        self.put_store(store);
        Ok(event)
    }

    /// Moves the token as [`Erc721::transferFrom`] does, with no bytes for
    /// the receiver, and asks for the receiver's acknowledgment if
    /// `to_is_contract` says that `to` is a contract.
    pub fn safeTransferFrom(
        &mut self,
        caller: Address,
        from: Address,
        to: Address,
        token_id: U256,
        to_is_contract: bool,
    ) -> (r: Result<SafeTransfer, Erc721Error>)
        ensures
            final(self).config() == old(self).config(),
            final(self)@.inv(),
            final(self)@ == old(self)@.after_transfer(caller, from, to, token_id),
            safe_transfer_step(
                r,
                old(self)@,
                caller,
                from,
                to,
                token_id,
                Seq::<u8>::empty(),
                to_is_contract,
            ),
    {
        self.safeTransferFromWithData(caller, from, to, token_id, Vec::new(), to_is_contract)
    }

    /// Moves the token as [`Erc721::transferFrom`] does and asks for the
    /// receiver's acknowledgment if `to_is_contract` says that `to` is a
    /// contract.
    ///
    /// Fails as `transferFrom` fails, and then changes nothing. Otherwise the
    /// token has moved when this returns. If `to` is no contract, that is
    /// final. If it is, the result holds the call of the receiver's hook that
    /// the host has to make, with `caller` as the operator and with `data`;
    /// hand the reply to [`Erc721::finish_safe_transfer`].
    pub fn safeTransferFromWithData(
        &mut self,
        caller: Address,
        from: Address,
        to: Address,
        token_id: U256,
        data: Vec<u8>,
        to_is_contract: bool,
    ) -> (r: Result<SafeTransfer, Erc721Error>)
        ensures
            final(self).config() == old(self).config(),
            final(self)@.inv(),
            final(self)@ == old(self)@.after_transfer(caller, from, to, token_id),
            safe_transfer_step(r, old(self)@, caller, from, to, token_id, data@, to_is_contract),
    {
        proof {
            use_type_invariant(&*self);
        }
        match ReceiverCall::for_transfer(caller, from, to, token_id, data, to_is_contract) {
            None => match self.transferFrom(caller, from, to, token_id) {
                Ok(event) => Ok(SafeTransfer::Completed(event)),
                Err(e) => Err(e),
            },
            Some(call) => {
                let checkpoint = self.store.duplicate();
                match self.transferFrom(caller, from, to, token_id) {
                    Ok(event) => Ok(
                        SafeTransfer::AwaitingReceiver(
                            PendingReceipt::new(checkpoint, call, event),
                        ),
                    ),
                    Err(e) => Err(e),
                }
            },
        }
    }

    /// Ends a safe transfer with the reply of the receiver's hook.
    ///
    /// If the hook returned the acknowledgment value, the transfer is final:
    /// the registry stays as it is, with whatever the receiver did to it
    /// meanwhile, and the result is the transfer's event. If the hook
    /// returned anything else, failed, or does not exist, the result is
    /// `InvalidReceiver` and the registry is again as it was before the
    /// transfer began.
    pub fn finish_safe_transfer(&mut self, pending: PendingReceipt, reply: ReceiverReply) -> (r:
        Result<Event, Erc721Error>)
        ensures
            final(self).config() == old(self).config(),
            final(self)@.inv(),
            reply.accepted() ==> r == Ok::<Event, Erc721Error>(pending.event()) && final(self)@
                == old(self)@,
            !reply.accepted() ==> r == Err::<Event, Erc721Error>(
                Erc721Error::InvalidReceiver { receiver: pending.call().receiver },
            ) && final(self)@ == pending.checkpoint(),
    {
        proof {
            use_type_invariant(&*self);
        }
        let (checkpoint, call, event) = pending.into_parts();
        match reply.check(call.receiver) {
            Ok(_) => Ok(event),
            Err(e) => {
                self.put_store(checkpoint);
                Err(e)
            },
        }
    }

    /// Issues the token to `to`.
    ///
    /// Fails with `InvalidReceiver` if `to` is the zero address, and with
    /// `InvalidSender` for the zero address if the token exists already. A
    /// failure changes nothing. On success `to` owns the token and has one
    /// token more; the event is a transfer from the zero address.
    pub fn mint(&mut self, to: Address, token_id: U256) -> (r: Result<Event, Erc721Error>)
        ensures
            final(self).config() == old(self).config(),
            final(self)@.inv(),
            r == old(self)@.mint_result(to, token_id),
            final(self)@ == old(self)@.after_mint(to, token_id),
    {
        proof {
            use_type_invariant(&*self);
        }
        let event = match rules::authorize_mint(to, token_id, self.store.owner(token_id)) {
            Ok(event) => event,
            Err(e) => {
                return Err(e);
            },
        };
        let mut store = self.take_store();
        let ghost before = store@;
        let slots = store.owner_slots();
        proof {
            before.lemma_mint_inv(to, token_id);
            before.lemma_balance_counts_tokens(to);
            // no balance exceeds the number of owner slots: there is room
            assert(before.balances[to] <= slots);
        }
        let balance = store.balance(to);
        let credited = match rules::credit(balance) {
            Some(credited) => credited,
            None => {
                assert(false);
                balance
            },
        };
        store.set_balance(to, credited);
        store.set_owner(token_id, to);
        assert(store@ == before.mint(to, token_id));
        self.put_store(store);
        Ok(event)
    }
}

} // verus!
