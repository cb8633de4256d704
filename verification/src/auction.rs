//! The executable auction: the `AdSlot` state record and its operations,
//! each verified against the transition spec functions in `crate::state`.
//!
//! Fund movement is the host environment's native value-transfer primitive,
//! so a state-changing operation returns the one outbound `Transfer` the
//! host must perform; if the host cannot perform it, the host discards the
//! whole call, state change included, keeping the call atomic.

use crate::state::{bid_step, bid_transfer, init, inv, release_step, release_transfer, AuctionModel};
use vstd::prelude::*;

verus! {

/// One outbound fund transfer: `amount` units to the account identified by
/// `to`.
pub struct Transfer {
    pub to: String,
    pub amount: u128,
}

impl View for Transfer {
    type V = (Seq<char>, u128);

    open spec fn view(&self) -> (Seq<char>, u128) {
        (self.to@, self.amount)
    }
}

/// The auction state: slot owner, escrow holder, current leader and the
/// amount held in escrow. The five fields are exactly the state the host
/// persists between invocations and restores verbatim, so they are public:
/// the host serializes and deserializes them at call boundaries.
pub struct AdSlot {
    pub owner_id: String,
    pub highest_bidder_id: String,
    pub highest_bid: u128,
    pub escrow_account_id: String,
    pub escrow_amount: u128,
}

impl View for AdSlot {
    type V = AuctionModel;

    open spec fn view(&self) -> AuctionModel {
        AuctionModel {
            owner: self.owner_id@,
            escrow_account: self.escrow_account_id@,
            highest_bidder: self.highest_bidder_id@,
            highest_bid: self.highest_bid,
            escrow_amount: self.escrow_amount,
        }
    }
}

impl AdSlot {
    /// Construct a fresh auction for the given slot owner and escrow holder:
    /// no bids yet, nothing in escrow.
    pub fn new(owner_id: String, escrow_account_id: String) -> (slot: Self)
        requires
            owner_id@.len() > 0,
            escrow_account_id@.len() > 0,
        ensures
            slot@ == init(owner_id@, escrow_account_id@),
            inv(slot@),
    {
        let slot = Self {
            owner_id,
            highest_bidder_id: String::new(),
            highest_bid: 0,
            escrow_account_id,
            escrow_amount: 0,
        };
        proof {
            assert(slot@ =~= init(slot.owner_id@, slot.escrow_account_id@));
        }
        slot
    }

    /// Attempt to place a new leading bid. A bid above the current leading
    /// bid installs `bidder_id` as leader, records `amount` as the leading
    /// bid and the escrowed amount, and returns the transfer of `amount` to
    /// the escrow account for the host to perform. Any other bid is a silent
    /// no-op: state unchanged, no transfer.
    pub fn bid(&mut self, bidder_id: String, amount: u128) -> (transfer: Option<Transfer>)
        requires
            inv(old(self)@),
            bidder_id@.len() > 0,
        ensures
            final(self)@ == bid_step(old(self)@, bidder_id@, amount),
            inv(final(self)@),
            transfer is Some <==> amount > old(self)@.highest_bid,
            (transfer matches Some(t) ==> Some(t@) == bid_transfer(old(self)@, bidder_id@, amount)),
            final(self)@.highest_bid >= old(self)@.highest_bid,
    {
        if amount > self.highest_bid {
            self.highest_bid = amount;
            self.highest_bidder_id = bidder_id;
            self.escrow_amount = amount;
            let to = self.escrow_account_id.clone();
            proof {
                assert(self@ =~= bid_step(old(self)@, bidder_id@, amount));
            }
            Some(Transfer { to, amount })
        } else {
            None
        }
    }

    /// Settle the escrow to the current leading bidder: the escrowed amount
    /// is zeroed and the transfer of that amount to the leader is returned
    /// for the host to perform. The auction record itself survives, so the
    /// auction can reopen on a higher bid. With no bid ever accepted the
    /// returned transfer is zero units to the empty identity, a well-formed
    /// no-op for the host rather than an error.
    pub fn release_funds(&mut self) -> (transfer: Transfer)
        requires
            inv(old(self)@),
        ensures
            final(self)@ == release_step(old(self)@),
            inv(final(self)@),
            transfer@ == release_transfer(old(self)@),
    {
        let to = self.highest_bidder_id.clone();
        let amount = self.escrow_amount;
        self.escrow_amount = 0;
        proof {
            assert(self@ =~= release_step(old(self)@));
        }
        Transfer { to, amount }
    }

    /// Current leading bid; zero while no bid has been accepted.
    pub fn get_highest_bid(&self) -> (amount: u128)
        ensures
            amount == self@.highest_bid,
    {
        self.highest_bid
    }

    /// Identity of the current leading bidder; empty while no bid has been
    /// accepted.
    pub fn get_highest_bidder_id(&self) -> (bidder: String)
        ensures
            bidder@ == self@.highest_bidder,
    {
        self.highest_bidder_id.clone()
    }
}

} // verus!
