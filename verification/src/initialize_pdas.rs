use vstd::prelude::*;
use crate::state::Auction;
use crate::state::AuctionState;
use crate::state::CustodySlot;

verus! {

/// Provision an empty auction record for the given asset: every field is
/// zeroed except the asset identifier and the record's storage-derivation
/// byte, and the lifecycle stage is the `Uninitialized` sentinel, distinct
/// from every stage an opened auction can be in.
pub fn initialize_auction(mint: u64, auction_bump: u8) -> (auction: Auction)
    ensures
        auction == (Auction {
            creator: 0,
            mint,
            escrow: 0,
            starting_timestamp: 0,
            starting_price: 0,
            min_price: 0,
            bought_price: 0,
            price_change: 0,
            interval_mins: 0,
            auction_state: AuctionState::Uninitialized,
            auction_bump,
            escrow_bump: 0,
        }),
{
    Auction {
        creator: 0,
        mint,
        escrow: 0,
        starting_timestamp: 0,
        starting_price: 0,
        min_price: 0,
        bought_price: 0,
        price_change: 0,
        interval_mins: 0,
        auction_state: AuctionState::Uninitialized,
        auction_bump,
        escrow_bump: 0,
    }
}

/// Provision the empty custody slot bound to a record: the record learns the
/// slot's reference and storage-derivation byte, its other fields are left
/// alone, and the fresh slot is open and holds nothing.
pub fn initialize_escrow(auction: &mut Auction, escrow: u64, escrow_bump: u8) -> (slot: CustodySlot)
    ensures
        *final(auction) == (Auction { escrow, escrow_bump, ..*old(auction) }),
        slot == (CustodySlot { amount: 0, is_open: true }),
{
    auction.escrow = escrow;
    auction.escrow_bump = escrow_bump;
    CustodySlot { amount: 0, is_open: true }
}

} // verus!
