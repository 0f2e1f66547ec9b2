use vstd::prelude::*;
use crate::errors::ErrorCode;
use crate::state::Auction;
use crate::state::is_terminal;
use crate::cancel_auction::reclaim_refusal;
use crate::close_auction::settle_refusal;
use crate::create_auction::open_refusal;

verus! {

/// Terminal stages absorb: once a record has reached `Closed` or
/// `Cancelled`, every subsequent Settle or Reclaim attempt, at any time, is
/// refused with `InvalidAuctionState`. Together with the operations'
/// contracts — a refused call leaves the record unchanged, and `Closed` and
/// `Cancelled` are the only stages a live auction can move to — this means
/// no third transition path exists out of a terminal record.
pub proof fn lemma_terminal_is_absorbing(auction: Auction, current_timestamp: u64)
    requires
        is_terminal(auction.auction_state),
    ensures
        settle_refusal(auction, current_timestamp) == Some(ErrorCode::InvalidAuctionState),
        reclaim_refusal(auction, current_timestamp) == Some(ErrorCode::InvalidAuctionState),
{
}

/// A record refuses to open exactly while it holds a live auction: a fresh
/// record, and equally a terminal one, accepts a new Open.
pub proof fn lemma_terminal_reopens(auction: Auction)
    requires
        !(auction.auction_state is Created),
    ensures
        open_refusal(auction) is None,
{
}

} // verus!
