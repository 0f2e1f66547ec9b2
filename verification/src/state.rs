use vstd::prelude::*;

verus! {

/// Lifecycle stage of an auction record. A record is provisioned in the
/// `Uninitialized` sentinel stage by an external allocation step, moves to
/// `Created` when the auction is opened, and from there to exactly one of the
/// two terminal stages: `Closed` (a buyer settled the sale) or `Cancelled`
/// (the owner reclaimed the asset at the floor price).
#[derive(Clone, Copy, Debug, PartialEq, Eq, Structural)]
pub enum AuctionState {
    /// Storage exists but no auction has been opened on it yet.
    Uninitialized,
    /// The auction is live: the asset sits in custody and may be bought.
    Created,
    /// Terminal: a buyer accepted the current price and took the asset.
    Closed,
    /// Terminal: the price reached the floor and the owner took the asset back.
    Cancelled,
}

/// The persistent auction record: terms, lifecycle stage, settlement result.
/// Prices are integers in the platform's minor currency unit.
#[derive(Clone, Copy, Debug, PartialEq, Eq, Structural)]
pub struct Auction {
    /// Identity of the party who opened the auction.
    pub creator: u64,
    /// Identifier of the single asset unit being sold.
    pub mint: u64,
    /// Reference to the custody slot bound to this record.
    pub escrow: u64,
    /// Instant after which the auction is biddable, in seconds.
    pub starting_timestamp: u64,
    /// Price at the start of the auction.
    pub starting_price: u64,
    /// Floor below which the price never decays.
    pub min_price: u64,
    /// The settlement price; meaningful only once the stage is `Closed`.
    pub bought_price: u64,
    /// Amount by which the price decreases each interval.
    pub price_change: u64,
    /// Length of one decay interval in minutes; must be positive while the
    /// auction is live.
    pub interval_mins: u8,
    /// Lifecycle stage of this record.
    pub auction_state: AuctionState,
    /// Storage-derivation byte for the record itself.
    pub auction_bump: u8,
    /// Storage-derivation byte for the bound custody slot.
    pub escrow_bump: u8,
}

/// The custody slot bound to an auction record: a holding area for at most
/// one unit of the asset. It releases the unit only as a side effect of a
/// committing Settle or Reclaim on its bound record, and auto-closes once its
/// balance reaches zero after such a release.
#[derive(Clone, Copy, Debug, PartialEq, Eq, Structural)]
pub struct CustodySlot {
    /// Units of the asset held: zero or one.
    pub amount: u64,
    /// Whether the slot still exists; a released slot is closed and its
    /// storage deposit returned.
    pub is_open: bool,
}

/// Whether the given stage is terminal: no operation mutates the record once
/// it is reached.
pub open spec fn is_terminal(state: AuctionState) -> bool {
    state == AuctionState::Closed || state == AuctionState::Cancelled
}

/// The invariant tying a record to its bound custody slot: while the auction
/// is live the slot holds exactly one unit and the decay interval is
/// positive; once the stage leaves `Created` the slot holds nothing.
pub open spec fn custody_invariant(auction: Auction, slot: CustodySlot) -> bool {
    match auction.auction_state {
        AuctionState::Created => slot.amount == 1 && slot.is_open && auction.interval_mins > 0,
        AuctionState::Uninitialized => slot.amount == 0,
        AuctionState::Closed => slot.amount == 0,
        AuctionState::Cancelled => slot.amount == 0,
    }
}

} // verus!
