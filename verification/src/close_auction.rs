use vstd::prelude::*;
use vstd::arithmetic::div_mod::lemma_div_is_ordered;
use vstd::arithmetic::div_mod::lemma_div_multiples_vanish;
use crate::errors::ErrorCode;
use crate::state::Auction;
use crate::state::AuctionState;
use crate::state::CustodySlot;
use crate::state::custody_invariant;
use crate::utils::price_at;
use crate::utils::get_current_price;

verus! {

/// The seller's part of a settlement: 95 of every 100 minor units of the
/// price, rounded down.
pub open spec fn seller_share(price: u64) -> int {
    price * 95 / 100
}

/// The fee recipient's part of a settlement: 5 of every 100 minor units of
/// the price, rounded down.
pub open spec fn fee_share(price: u64) -> int {
    price * 5 / 100
}

/// Why a Settle attempt is refused, if it is: a record not holding a live
/// auction is refused outright, and a live one cannot settle before its
/// start time. A live auction at or past its start time always settles.
pub open spec fn settle_refusal(auction: Auction, current_timestamp: u64) -> Option<ErrorCode> {
    if auction.auction_state != AuctionState::Created {
        Some(ErrorCode::InvalidAuctionState)
    } else if current_timestamp < auction.starting_timestamp {
        Some(ErrorCode::AuctionDidNotStart)
    } else {
        None
    }
}

/// The outcome of a successful settlement: who is paid what, out of the
/// price the buyer accepted. The payments themselves are carried out by the
/// external transfer service, atomically with the state transition.
#[derive(Clone, Copy, Debug, PartialEq, Eq, Structural)]
pub struct Settlement {
    /// The auction's creator, owed `seller_proceeds`.
    pub seller: u64,
    /// The caller-supplied fee recipient, owed `fee_amount`.
    pub fee_recipient: u64,
    /// The price at settlement time, in minor currency units.
    pub price: u64,
    /// 95% of `price`, rounded down to a minor unit.
    pub seller_proceeds: u64,
    /// 5% of `price`, rounded down to a minor unit.
    pub fee_amount: u64,
}

/// Settle the sale: the buyer accepts the current price, the asset unit
/// moves from custody to the buyer, the slot auto-closes, and the record
/// moves to `Closed` carrying the settlement price. Either every effect
/// commits or, on refusal, none does.
pub fn close_auction(
    auction: &mut Auction,
    escrow: &mut CustodySlot,
    buyer_holding: &mut u64,
    fee_recipient: u64,
    current_timestamp: u64,
) -> (r: Result<Settlement, ErrorCode>)
    requires
        custody_invariant(*old(auction), *old(escrow)),
        *old(buyer_holding) < u64::MAX,
    ensures
        custody_invariant(*final(auction), *final(escrow)),
        r is Err <==> settle_refusal(*old(auction), current_timestamp) is Some,
        (settle_refusal(*old(auction), current_timestamp) matches Some(e) ==> r == Err::<
            Settlement,
            ErrorCode,
        >(e)),
        r is Err ==> *final(auction) == *old(auction) && *final(escrow) == *old(escrow)
            && *final(buyer_holding) == *old(buyer_holding),
        (r matches Ok(s) ==> {
            &&& s.price == price_at(
                current_timestamp,
                old(auction).starting_timestamp,
                old(auction).starting_price,
                old(auction).min_price,
                old(auction).interval_mins,
                old(auction).price_change,
            )
            &&& s.seller == old(auction).creator
            &&& s.fee_recipient == fee_recipient
            &&& s.seller_proceeds == seller_share(s.price)
            &&& s.fee_amount == fee_share(s.price)
            &&& *final(auction) == (Auction {
                auction_state: AuctionState::Closed,
                bought_price: s.price,
                ..*old(auction)
            })
            &&& *final(escrow) == (CustodySlot { amount: 0, is_open: false })
            &&& *final(buyer_holding) == *old(buyer_holding) + 1
        }),
{
    if auction.auction_state != AuctionState::Created {
        return Err(ErrorCode::InvalidAuctionState);
    }
    if current_timestamp < auction.starting_timestamp {
        return Err(ErrorCode::AuctionDidNotStart);
    }
    // release the one unit from custody to the buyer; the emptied slot closes
    escrow.amount = escrow.amount - 1;
    escrow.is_open = false;
    *buyer_holding = *buyer_holding + 1;
    let price = get_current_price(
        current_timestamp,
        auction.starting_timestamp,
        auction.starting_price,
        auction.min_price,
        auction.interval_mins,
        auction.price_change,
    );
    let seller_proceeds = split_amount(price, 95);
    let fee_amount = split_amount(price, 5);
    auction.bought_price = price;
    auction.auction_state = AuctionState::Closed;
    Ok(
        Settlement {
            seller: auction.creator,
            fee_recipient,
            price,
            seller_proceeds,
            fee_amount,
        },
    )
}

/// `amount * percent / 100`, rounded down; never more than `amount` for a
/// percentage of at most 100.
fn split_amount(amount: u64, percent: u8) -> (share: u64)
    requires
        percent <= 100,
    ensures
        share == amount * percent as int / 100,
{
    proof {
        assert(amount * percent as int <= amount * 100) by {
            vstd::arithmetic::mul::lemma_mul_inequality(
                percent as int,
                100,
                amount as int,
            );
        }
        lemma_div_is_ordered(amount * percent as int, amount * 100, 100);
        lemma_div_multiples_vanish(amount as int, 100);
    }
    (((amount as u128) * (percent as u128)) / 100) as u64
}

} // verus!
