//! The receiver handshake of a safe transfer.
//!
//! A safe transfer to a contract is final only once that contract has
//! acknowledged it. The registry cannot call the contract; the host does. So a
//! safe transfer runs in two steps: the registry moves the token and hands
//! out a [`PendingReceipt`] that says which call to make; the host makes the
//! call, during which the receiver may use the registry again, and hands the
//! [`ReceiverReply`] back.

use crate::address::Address;
use crate::error::Erc721Error;
use crate::event::Event;
use crate::ledger::Ledger;
use crate::store::Store;
use crate::uint::U256;
use vstd::prelude::*;

verus! {

/// What came back from the call of a receiver's acknowledgment hook.
#[derive(Clone, Copy, Debug, PartialEq, Eq)]
pub enum ReceiverReply {
    /// The hook returned these four bytes.
    Returned([u8; 4]),
    /// The hook failed.
    Reverted,
    /// The receiver has no such hook.
    NotImplemented,
}

/// Whether four bytes are the value by which a receiver acknowledges a token:
/// `15 0b 7a 02`, the selector of the hook itself.
pub open spec fn is_acknowledgment(value: [u8; 4]) -> bool {
    value[0] == 0x15 && value[1] == 0x0b && value[2] == 0x7a && value[3] == 0x02
}

impl ReceiverReply {
    /// Whether the receiver acknowledged the token.
    pub open spec fn accepted(self) -> bool {
        match self {
            ReceiverReply::Returned(value) => is_acknowledgment(value),
            ReceiverReply::Reverted => false,
            ReceiverReply::NotImplemented => false,
        }
    }

    /// Whether the receiver acknowledged the token: the hook returned, and
    /// returned the acknowledgment value.
    pub fn is_accepted(&self) -> (b: bool)
        ensures
            b == self.accepted(),
    {
        match self {
            ReceiverReply::Returned(value) => {
                value[0] == 0x15 && value[1] == 0x0b && value[2] == 0x7a && value[3] == 0x02
            },
            ReceiverReply::Reverted => false,
            ReceiverReply::NotImplemented => false,
        }
    }

    /// Decides on the transfer to `receiver` with its reply: the transfer
    /// stands if the receiver acknowledged, and fails with `InvalidReceiver`
    /// otherwise.
    pub fn check(&self, receiver: Address) -> (r: Result<(), Erc721Error>)
        ensures
            r == (if self.accepted() {
                Ok::<(), Erc721Error>(())
            } else {
                Err(Erc721Error::InvalidReceiver { receiver })
            }),
    {
        if self.is_accepted() {
            Ok(())
        } else {
            Err(Erc721Error::InvalidReceiver { receiver })
        }
    }
}

/// The call of the acknowledgment hook that the host has to make.
#[derive(Debug, PartialEq, Eq)]
pub struct ReceiverCall {
    /// The contract to call: the new owner of the token.
    pub receiver: Address,
    /// Who asked for the transfer.
    pub operator: Address,
    /// The previous owner of the token.
    pub from: Address,
    /// The token.
    pub token_id: U256,
    /// Bytes that the caller of the transfer passed along.
    pub data: Vec<u8>,
}

/// A [`ReceiverCall`] as a mathematical value.
pub struct ReceiverCallView {
    pub receiver: Address,
    pub operator: Address,
    pub from: Address,
    pub token_id: U256,
    pub data: Seq<u8>,
}

impl View for ReceiverCall {
    type V = ReceiverCallView;

    open spec fn view(&self) -> ReceiverCallView {
        ReceiverCallView {
            receiver: self.receiver,
            operator: self.operator,
            from: self.from,
            token_id: self.token_id,
            data: self.data@,
        }
    }
}

impl ReceiverCall {
    /// The call that a safe transfer of the token from `from` to `to`, asked
    /// for by `caller`, has to make: none if `to` is no contract, and else
    /// the call of `to` with `caller` as the operator.
    pub fn for_transfer(
        caller: Address,
        from: Address,
        to: Address,
        token_id: U256,
        data: Vec<u8>,
        to_is_contract: bool,
    ) -> (call: Option<ReceiverCall>)
        ensures
            call is Some <==> to_is_contract,
            to_is_contract ==> call->Some_0@ == (ReceiverCallView {
                receiver: to,
                operator: caller,
                from,
                token_id,
                data: data@,
            }),
    {
        if to_is_contract {
            Some(ReceiverCall { receiver: to, operator: caller, from, token_id, data })
        } else {
            None
        }
    }
}

/// A safe transfer that waits for its receiver.
///
/// It holds the call to make, the event to log once the receiver has
/// acknowledged, and the registry's state from before the transfer, to which
/// the registry returns if the receiver does not.
pub struct PendingReceipt {
    checkpoint: Store,
    call: ReceiverCall,
    event: Event,
}

impl PendingReceipt {
    #[verifier::type_invariant]
    spec fn well_formed(&self) -> bool {
        self.checkpoint@.inv()
    }

    /// The registry's state from before the transfer.
    pub closed spec fn checkpoint(&self) -> Ledger {
        self.checkpoint@
    }

    /// The call that the host has to make.
    pub closed spec fn call(&self) -> ReceiverCall {
        self.call
    }

    /// The event of the transfer.
    pub closed spec fn event(&self) -> Event {
        self.event
    }

    pub(crate) fn new(checkpoint: Store, call: ReceiverCall, event: Event) -> (p: PendingReceipt)
        requires
            checkpoint@.inv(),
        ensures
            p.checkpoint() == checkpoint@,
            p.call() == call,
            p.event() == event,
    {
        PendingReceipt { checkpoint, call, event }
    }

    /// The call that the host has to make.
    pub fn receiver_call(&self) -> (c: &ReceiverCall)
        ensures
            *c == self.call(),
    {
        &self.call
    }

    /// The event to log once the receiver has acknowledged.
    pub fn transfer_event(&self) -> (e: Event)
        ensures
            e == self.event(),
    {
        self.event
    }

    /// Takes the receipt apart.
    pub(crate) fn into_parts(self) -> (parts: (Store, ReceiverCall, Event))
        ensures
            parts.0@ == self.checkpoint(),
            parts.0@.inv(),
            parts.1 == self.call(),
            parts.2 == self.event(),
    {
        proof {
            use_type_invariant(&self);
        }
        (self.checkpoint, self.call, self.event)
    }
}

/// How a safe transfer that succeeded so far goes on.
pub enum SafeTransfer {
    /// The receiver is no contract: the transfer is final, and this is its
    /// event.
    Completed(Event),
    /// The receiver is a contract: the token has moved, and the transfer
    /// becomes final or is undone with the receiver's reply.
    AwaitingReceiver(PendingReceipt),
}

} // verus!
