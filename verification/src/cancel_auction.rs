use vstd::prelude::*;
use crate::errors::ErrorCode;
use crate::state::Auction;
use crate::state::AuctionState;
use crate::state::CustodySlot;
use crate::state::custody_invariant;
use crate::utils::price_at;
use crate::utils::get_current_price;

verus! {

/// Why a Reclaim attempt is refused, if it is: the record must hold a live
/// auction, the start time must have passed, and the price must already have
/// decayed all the way to the floor.
pub open spec fn reclaim_refusal(auction: Auction, current_timestamp: u64) -> Option<ErrorCode> {
    if auction.auction_state != AuctionState::Created {
        Some(ErrorCode::InvalidAuctionState)
    } else if current_timestamp < auction.starting_timestamp {
        Some(ErrorCode::AuctionDidNotStart)
    } else if price_at(
        current_timestamp,
        auction.starting_timestamp,
        auction.starting_price,
        auction.min_price,
        auction.interval_mins,
        auction.price_change,
    ) > auction.min_price {
        Some(ErrorCode::AuctionDidNotReachMinPrice)
    } else {
        None
    }
}

/// Reclaim the unsold asset: once the price has fully decayed to the floor,
/// the owner takes the asset unit back out of custody, the slot auto-closes,
/// and the record moves to `Cancelled`. Either every effect commits or, on
/// refusal, none does — in particular a refusal for a price still above the
/// floor leaves the record exactly as it was.
pub fn cancel_auction(
    auction: &mut Auction,
    escrow: &mut CustodySlot,
    creator_holding: &mut u64,
    current_timestamp: u64,
) -> (r: Result<(), ErrorCode>)
    requires
        custody_invariant(*old(auction), *old(escrow)),
        *old(creator_holding) < u64::MAX,
    ensures
        custody_invariant(*final(auction), *final(escrow)),
        r is Err <==> reclaim_refusal(*old(auction), current_timestamp) is Some,
        (reclaim_refusal(*old(auction), current_timestamp) matches Some(e) ==> r == Err::<
            (),
            ErrorCode,
        >(e)),
        r is Err ==> *final(auction) == *old(auction) && *final(escrow) == *old(escrow)
            && *final(creator_holding) == *old(creator_holding),
        r is Ok ==> {
            &&& *final(auction) == (Auction {
                auction_state: AuctionState::Cancelled,
                ..*old(auction)
            })
            &&& *final(escrow) == (CustodySlot { amount: 0, is_open: false })
            &&& *final(creator_holding) == *old(creator_holding) + 1
        },
{
    if auction.auction_state != AuctionState::Created {
        return Err(ErrorCode::InvalidAuctionState);
    }
    if current_timestamp < auction.starting_timestamp {
        return Err(ErrorCode::AuctionDidNotStart);
    }
    // the reclaim is allowed only once the price sits at the floor
    let price = get_current_price(
        current_timestamp,
        auction.starting_timestamp,
        auction.starting_price,
        auction.min_price,
        auction.interval_mins,
        auction.price_change,
    );
    if price > auction.min_price {
        return Err(ErrorCode::AuctionDidNotReachMinPrice);
    }
    // return the one unit from custody to the owner; the emptied slot closes
    escrow.amount = escrow.amount - 1;
    escrow.is_open = false;
    *creator_holding = *creator_holding + 1;
    auction.auction_state = AuctionState::Cancelled;
    Ok(())
}

} // verus!
