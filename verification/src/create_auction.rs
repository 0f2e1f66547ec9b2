use vstd::prelude::*;
use crate::errors::ErrorCode;
use crate::state::Auction;
use crate::state::AuctionState;
use crate::state::CustodySlot;
use crate::state::custody_invariant;

verus! {

/// Why an Open attempt is refused, if it is: only a record that currently
/// holds a live auction refuses to be opened; a fresh or terminal record
/// always accepts.
pub open spec fn open_refusal(auction: Auction) -> Option<ErrorCode> {
    if auction.auction_state == AuctionState::Created {
        Some(ErrorCode::InvalidAuctionState)
    } else {
        None
    }
}

/// Open the auction: record the caller as owner, copy the terms, move one
/// asset unit from the caller's holdings into the bound custody slot, and
/// mark the record live. No price or time validation happens here. Either
/// every effect commits or, on refusal, none does.
///
/// The external allocation step guarantees that the custody slot exists,
/// is empty and is bound to the record before this runs; the caller must
/// hold the unit being sold.
pub fn create_auction(
    auction: &mut Auction,
    escrow: &mut CustodySlot,
    creator: u64,
    creator_holding: &mut u64,
    starting_timestamp: u64,
    starting_price: u64,
    min_price: u64,
    interval_mins: u8,
    price_change: u64,
) -> (r: Result<(), ErrorCode>)
    requires
        interval_mins > 0,
        old(escrow).is_open,
        old(escrow).amount == 0,
        *old(creator_holding) >= 1,
    ensures
        r is Err <==> open_refusal(*old(auction)) is Some,
        (open_refusal(*old(auction)) matches Some(e) ==> r == Err::<(), ErrorCode>(e)),
        r is Err ==> *final(auction) == *old(auction) && *final(escrow) == *old(escrow)
            && *final(creator_holding) == *old(creator_holding),
        r is Ok ==> {
            &&& custody_invariant(*final(auction), *final(escrow))
            &&& *final(auction) == (Auction {
                creator,
                starting_timestamp,
                starting_price,
                min_price,
                interval_mins,
                price_change,
                auction_state: AuctionState::Created,
                ..*old(auction)
            })
            &&& *final(escrow) == (CustodySlot { amount: 1, is_open: true })
            &&& *final(creator_holding) == *old(creator_holding) - 1
        },
{
    if auction.auction_state == AuctionState::Created {
        return Err(ErrorCode::InvalidAuctionState);
    }
    auction.creator = creator;
    auction.starting_timestamp = starting_timestamp;
    auction.starting_price = starting_price;
    auction.min_price = min_price;
    auction.interval_mins = interval_mins;
    auction.price_change = price_change;
    auction.auction_state = AuctionState::Created;
    // fund the custody slot with the one unit out of the caller's holdings
    *creator_holding = *creator_holding - 1;
    escrow.amount = escrow.amount + 1;
    Ok(())
}

} // verus!
