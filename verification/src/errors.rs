use vstd::prelude::*;

verus! {

/// Why an auction operation was refused. Every refusal aborts the whole
/// operation: no partial custody movement or state change ever persists.
#[derive(Clone, Copy, Debug, PartialEq, Eq, Structural)]
pub enum ErrorCode {
    /// The record is not in the lifecycle stage the operation needs.
    InvalidAuctionState,
    /// Settle or Reclaim was attempted before the auction's start time.
    AuctionDidNotStart,
    /// Reclaim was attempted while the price was still above the floor.
    AuctionDidNotReachMinPrice,
}

impl ErrorCode {
    /// A human-readable description of the refusal.
    pub fn message(&self) -> (m: &'static str)
        ensures
            m@ == match *self {
                ErrorCode::InvalidAuctionState => "Auction is in invalid state"@,
                ErrorCode::AuctionDidNotStart => "Auction did not start yet"@,
                ErrorCode::AuctionDidNotReachMinPrice => "Auction did not reach minimum price yet"@,
            },
    {
        match self {
            ErrorCode::InvalidAuctionState => "Auction is in invalid state",
            ErrorCode::AuctionDidNotStart => "Auction did not start yet",
            ErrorCode::AuctionDidNotReachMinPrice => "Auction did not reach minimum price yet",
        }
    }
}

} // verus!
