//! Abstract model of the auction: the persisted state as a ghost record,
//! one spec function per operation describing the state transition and the
//! outbound fund transfer it issues, and proofs of the state-machine laws.

use vstd::prelude::*;

verus! {

/// The five persisted fields of the auction, with identity strings modelled
/// as character sequences. An empty `highest_bidder` together with
/// `highest_bid == 0` means no bid has ever been accepted.
#[verifier::ext_equal]
pub struct AuctionModel {
    pub owner: Seq<char>,
    pub escrow_account: Seq<char>,
    pub highest_bidder: Seq<char>,
    pub highest_bid: u128,
    pub escrow_amount: u128,
}

/// State invariant: a leading bid and a leading bidder are recorded together
/// or not at all, and the escrow holds either nothing or exactly the amount
/// of the most recently accepted bid.
pub open spec fn inv(s: AuctionModel) -> bool {
    &&& s.highest_bid > 0 <==> s.highest_bidder.len() > 0
    &&& s.escrow_amount == 0 || s.escrow_amount == s.highest_bid
}

/// The freshly constructed state: no bids, nothing in escrow.
pub open spec fn init(owner: Seq<char>, escrow_account: Seq<char>) -> AuctionModel {
    AuctionModel {
        owner,
        escrow_account,
        highest_bidder: Seq::empty(),
        highest_bid: 0,
        escrow_amount: 0,
    }
}

/// The state after `bid(bidder, amount)`: a bid above the current leader
/// becomes the new leader and its amount is escrowed; any other bid is a
/// silent no-op.
pub open spec fn bid_step(s: AuctionModel, bidder: Seq<char>, amount: u128) -> AuctionModel {
    if amount > s.highest_bid {
        AuctionModel { highest_bidder: bidder, highest_bid: amount, escrow_amount: amount, ..s }
    } else {
        s
    }
}

/// The transfer issued by `bid(bidder, amount)`: the bid amount moves to the
/// escrow account exactly when the bid is accepted.
pub open spec fn bid_transfer(s: AuctionModel, bidder: Seq<char>, amount: u128) -> Option<
    (Seq<char>, u128),
> {
    if amount > s.highest_bid {
        Some((s.escrow_account, amount))
    } else {
        None
    }
}

/// The state after `release_funds`: the escrow is emptied; the auction record
/// (leader and leading bid) is kept for audit and the auction stays open.
pub open spec fn release_step(s: AuctionModel) -> AuctionModel {
    AuctionModel { escrow_amount: 0, ..s }
}

/// The transfer issued by `release_funds`: the escrowed amount moves to the
/// leading bidder. With no bid ever accepted this is a degenerate transfer of
/// zero units to the empty identity, which the host treats as a no-op.
pub open spec fn release_transfer(s: AuctionModel) -> (Seq<char>, u128) {
    (s.highest_bidder, s.escrow_amount)
}

/// The state reached by running a whole sequence of bids, oldest first.
pub open spec fn run_bids(s: AuctionModel, bids: Seq<(Seq<char>, u128)>) -> AuctionModel
    decreases bids.len(),
{
    if bids.len() == 0 {
        s
    } else {
        run_bids(bid_step(s, bids[0].0, bids[0].1), bids.drop_first())
    }
}

/// Law: over every sequence of bids, from every starting state, the highest
/// bid never decreases.
pub proof fn lemma_highest_bid_monotone(s: AuctionModel, bids: Seq<(Seq<char>, u128)>)
    ensures
        run_bids(s, bids).highest_bid >= s.highest_bid,
    decreases bids.len(),
{
    if bids.len() > 0 {
        lemma_highest_bid_monotone(bid_step(s, bids[0].0, bids[0].1), bids.drop_first());
    }
}

/// Law: a bid at or below the current leading bid changes nothing and issues
/// no transfer.
pub proof fn lemma_losing_bid_is_noop(s: AuctionModel, bidder: Seq<char>, amount: u128)
    requires
        amount <= s.highest_bid,
    ensures
        bid_step(s, bidder, amount) == s,
        bid_transfer(s, bidder, amount) is None,
{
}

/// Law: a bid above the current leading bid installs the bidder as leader,
/// records its amount as both the leading bid and the escrowed amount, leaves
/// the construction-time identities alone, and issues exactly one transfer of
/// the amount to the escrow account.
pub proof fn lemma_winning_bid_leads(s: AuctionModel, bidder: Seq<char>, amount: u128)
    requires
        amount > s.highest_bid,
    ensures
        bid_step(s, bidder, amount).highest_bidder == bidder,
        bid_step(s, bidder, amount).highest_bid == amount,
        bid_step(s, bidder, amount).escrow_amount == amount,
        bid_step(s, bidder, amount).owner == s.owner,
        bid_step(s, bidder, amount).escrow_account == s.escrow_account,
        bid_transfer(s, bidder, amount) == Some((s.escrow_account, amount)),
{
}

/// Law: after `release_funds` the escrow is empty, whatever the prior state.
pub proof fn lemma_release_clears_escrow(s: AuctionModel)
    ensures
        release_step(s).escrow_amount == 0,
        release_step(s).highest_bid == s.highest_bid,
        release_step(s).highest_bidder == s.highest_bidder,
        release_step(s).owner == s.owner,
        release_step(s).escrow_account == s.escrow_account,
{
}

/// Law: a second `release_funds` with no intervening bid transfers zero units
/// and leaves the state unchanged.
pub proof fn lemma_release_twice(s: AuctionModel)
    ensures
        release_step(release_step(s)) == release_step(s),
        release_transfer(release_step(s)).1 == 0,
{
    assert(release_step(release_step(s)) =~= release_step(s));
}

/// The construction-time state satisfies the invariant.
pub proof fn lemma_init_inv(owner: Seq<char>, escrow_account: Seq<char>)
    ensures
        inv(init(owner, escrow_account)),
{
}

/// A bid from a non-empty identity preserves the invariant.
pub proof fn lemma_bid_preserves_inv(s: AuctionModel, bidder: Seq<char>, amount: u128)
    requires
        inv(s),
        bidder.len() > 0,
    ensures
        inv(bid_step(s, bidder, amount)),
{
}

/// Releasing the escrow preserves the invariant.
pub proof fn lemma_release_preserves_inv(s: AuctionModel)
    requires
        inv(s),
    ensures
        inv(release_step(s)),
{
}

} // verus!
