use dutch_auction::cancel_auction::cancel_auction;
use dutch_auction::close_auction::close_auction;
use dutch_auction::create_auction::create_auction;
use dutch_auction::errors::ErrorCode;
use dutch_auction::initialize_pdas::initialize_auction;
use dutch_auction::initialize_pdas::initialize_escrow;
use dutch_auction::state::Auction;
use dutch_auction::state::AuctionState;
use dutch_auction::state::CustodySlot;
use dutch_auction::utils::get_current_price;

const START: u64 = 600;

/// A freshly provisioned record and slot, opened into a live auction:
/// starts at `START` with price 10, floor 5, one unit off every 10 minutes.
fn live_auction() -> (Auction, CustodySlot, u64) {
    let mut auction = initialize_auction(7, 251);
    let mut escrow = initialize_escrow(&mut auction, 9, 252);
    let mut creator_holding: u64 = 1;
    let r = create_auction(
        &mut auction,
        &mut escrow,
        42,
        &mut creator_holding,
        START,
        10,
        5,
        10,
        1,
    );
    assert!(r.is_ok());
    (auction, escrow, creator_holding)
}

#[test]
fn price_decay_table() {
    // starting price 10, floor 5, one unit off every 10 minutes
    assert_eq!(get_current_price(START, START, 10, 5, 10, 1), 10);
    assert_eq!(get_current_price(START + 599, START, 10, 5, 10, 1), 10);
    assert_eq!(get_current_price(START + 600, START, 10, 5, 10, 1), 9);
    assert_eq!(get_current_price(START + 6000, START, 10, 5, 10, 1), 5);
    assert_eq!(get_current_price(START + 100000, START, 10, 5, 10, 1), 5);
}

#[test]
fn price_counts_calendar_minutes_independently() {
    // the two timestamps are divided by 60 separately: from second 59 to
    // second 60 a whole minute boundary passes although only one second did
    assert_eq!(get_current_price(59, 30, 10, 5, 1, 1), 10);
    assert_eq!(get_current_price(60, 30, 10, 5, 1, 1), 9);
}

#[test]
fn price_is_nonincreasing_over_samples() {
    let mut last = u64::MAX;
    let mut now = START;
    while now < START + 8000 {
        let p = get_current_price(now, START, 10, 5, 10, 1);
        assert!(p <= last);
        assert!(p >= 5);
        last = p;
        now += 97;
    }
}

#[test]
fn price_clamps_even_when_start_below_floor() {
    assert_eq!(get_current_price(START, START, 3, 5, 10, 1), 5);
}

#[test]
fn price_with_large_terms_does_not_overflow() {
    assert_eq!(
        get_current_price(u64::MAX, 0, u64::MAX, 0, 1, u64::MAX),
        0
    );
}

#[test]
fn initialize_binds_record_and_slot() {
    let mut auction = initialize_auction(7, 251);
    assert_eq!(auction.mint, 7);
    assert_eq!(auction.auction_bump, 251);
    assert_eq!(auction.auction_state, AuctionState::Uninitialized);
    let escrow = initialize_escrow(&mut auction, 9, 252);
    assert_eq!(auction.escrow, 9);
    assert_eq!(auction.escrow_bump, 252);
    assert_eq!(escrow.amount, 0);
    assert!(escrow.is_open);
}

#[test]
fn open_funds_custody_with_one_unit() {
    let (auction, escrow, creator_holding) = live_auction();
    assert_eq!(auction.auction_state, AuctionState::Created);
    assert_eq!(auction.creator, 42);
    assert_eq!(auction.starting_timestamp, START);
    assert_eq!(auction.starting_price, 10);
    assert_eq!(auction.min_price, 5);
    assert_eq!(auction.interval_mins, 10);
    assert_eq!(auction.price_change, 1);
    assert_eq!(escrow.amount, 1);
    assert!(escrow.is_open);
    assert_eq!(creator_holding, 0);
}

#[test]
fn open_on_live_auction_is_refused() {
    let (mut auction, _escrow, _holding) = live_auction();
    let mut fresh_escrow = CustodySlot { amount: 0, is_open: true };
    let mut holding: u64 = 1;
    let before = auction;
    let r = create_auction(
        &mut auction,
        &mut fresh_escrow,
        43,
        &mut holding,
        START,
        20,
        5,
        10,
        1,
    );
    assert_eq!(r, Err(ErrorCode::InvalidAuctionState));
    assert_eq!(auction, before);
    assert_eq!(holding, 1);
    assert_eq!(fresh_escrow.amount, 0);
}

#[test]
fn open_on_terminal_record_succeeds() {
    let (mut auction, mut escrow, mut creator_holding) = live_auction();
    let mut buyer_holding: u64 = 0;
    close_auction(&mut auction, &mut escrow, &mut buyer_holding, 77, START).unwrap();
    assert_eq!(auction.auction_state, AuctionState::Closed);
    // the platform re-provisions an empty slot before a new Open
    let mut fresh_escrow = CustodySlot { amount: 0, is_open: true };
    creator_holding = 1;
    let r = create_auction(
        &mut auction,
        &mut fresh_escrow,
        42,
        &mut creator_holding,
        START + 1000,
        20,
        5,
        10,
        2,
    );
    assert!(r.is_ok());
    assert_eq!(auction.auction_state, AuctionState::Created);
    assert_eq!(fresh_escrow.amount, 1);
}

#[test]
fn settle_before_start_is_refused_and_leaves_all_untouched() {
    let (mut auction, mut escrow, _holding) = live_auction();
    let before_auction = auction;
    let before_escrow = escrow;
    let mut buyer_holding: u64 = 0;
    let r = close_auction(&mut auction, &mut escrow, &mut buyer_holding, 77, START - 1);
    assert_eq!(r, Err(ErrorCode::AuctionDidNotStart));
    assert_eq!(auction, before_auction);
    assert_eq!(escrow, before_escrow);
    assert_eq!(buyer_holding, 0);
}

#[test]
fn settle_pays_seller_95_and_fee_recipient_5() {
    let (mut auction, mut escrow, _holding) = live_auction();
    auction.starting_price = 1_000_000_000;
    auction.min_price = 100_000_000;
    let mut buyer_holding: u64 = 0;
    let s = close_auction(&mut auction, &mut escrow, &mut buyer_holding, 77, START)
        .unwrap();
    assert_eq!(s.price, 1_000_000_000);
    assert_eq!(s.seller_proceeds, 950_000_000);
    assert_eq!(s.fee_amount, 50_000_000);
    assert_eq!(s.seller, 42);
    assert_eq!(s.fee_recipient, 77);
    assert_eq!(auction.auction_state, AuctionState::Closed);
    assert_eq!(auction.bought_price, 1_000_000_000);
    assert_eq!(escrow.amount, 0);
    assert!(!escrow.is_open);
    assert_eq!(buyer_holding, 1);
}

#[test]
fn settle_split_rounds_each_share_down() {
    let (mut auction, mut escrow, _holding) = live_auction();
    auction.starting_price = 999;
    let mut buyer_holding: u64 = 0;
    let s = close_auction(&mut auction, &mut escrow, &mut buyer_holding, 77, START)
        .unwrap();
    assert_eq!(s.price, 999);
    assert_eq!(s.seller_proceeds, 949);
    assert_eq!(s.fee_amount, 49);
}

#[test]
fn settle_uses_price_at_call_time() {
    let (mut auction, mut escrow, _holding) = live_auction();
    let mut buyer_holding: u64 = 0;
    let s = close_auction(
        &mut auction,
        &mut escrow,
        &mut buyer_holding,
        77,
        START + 1200,
    )
    .unwrap();
    assert_eq!(s.price, 8);
    assert_eq!(auction.bought_price, 8);
}

#[test]
fn reclaim_above_floor_is_refused_without_state_bleed_through() {
    let (mut auction, mut escrow, _holding) = live_auction();
    let before_auction = auction;
    let before_escrow = escrow;
    let mut creator_holding: u64 = 0;
    // price is 9 at START + 600, still above the floor of 5
    let r = cancel_auction(&mut auction, &mut escrow, &mut creator_holding, START + 600);
    assert_eq!(r, Err(ErrorCode::AuctionDidNotReachMinPrice));
    assert_eq!(auction, before_auction);
    assert_eq!(escrow, before_escrow);
    assert_eq!(creator_holding, 0);
}

#[test]
fn reclaim_before_start_is_refused() {
    let (mut auction, mut escrow, _holding) = live_auction();
    let mut creator_holding: u64 = 0;
    let r = cancel_auction(&mut auction, &mut escrow, &mut creator_holding, START - 1);
    assert_eq!(r, Err(ErrorCode::AuctionDidNotStart));
    assert_eq!(auction.auction_state, AuctionState::Created);
}

#[test]
fn reclaim_at_floor_returns_asset_to_owner() {
    let (mut auction, mut escrow, _holding) = live_auction();
    let mut creator_holding: u64 = 0;
    // after 50 intervals the price has fully decayed to the floor
    let r = cancel_auction(&mut auction, &mut escrow, &mut creator_holding, START + 30000);
    assert_eq!(r, Ok(()));
    assert_eq!(auction.auction_state, AuctionState::Cancelled);
    assert_eq!(escrow.amount, 0);
    assert!(!escrow.is_open);
    assert_eq!(creator_holding, 1);
}

#[test]
fn settle_after_closed_is_refused() {
    let (mut auction, mut escrow, _holding) = live_auction();
    let mut buyer_holding: u64 = 0;
    close_auction(&mut auction, &mut escrow, &mut buyer_holding, 77, START).unwrap();
    let r = close_auction(&mut auction, &mut escrow, &mut buyer_holding, 77, START + 1);
    assert_eq!(r, Err(ErrorCode::InvalidAuctionState));
    assert_eq!(auction.auction_state, AuctionState::Closed);
}

#[test]
fn reclaim_after_closed_is_refused() {
    let (mut auction, mut escrow, _holding) = live_auction();
    let mut buyer_holding: u64 = 0;
    close_auction(&mut auction, &mut escrow, &mut buyer_holding, 77, START).unwrap();
    let mut creator_holding: u64 = 0;
    let r = cancel_auction(&mut auction, &mut escrow, &mut creator_holding, START + 30000);
    assert_eq!(r, Err(ErrorCode::InvalidAuctionState));
    assert_eq!(auction.auction_state, AuctionState::Closed);
    assert_eq!(creator_holding, 0);
}

#[test]
fn settle_after_cancelled_is_refused() {
    let (mut auction, mut escrow, _holding) = live_auction();
    let mut creator_holding: u64 = 0;
    cancel_auction(&mut auction, &mut escrow, &mut creator_holding, START + 30000).unwrap();
    let mut buyer_holding: u64 = 0;
    let r = close_auction(&mut auction, &mut escrow, &mut buyer_holding, 77, START + 30000);
    assert_eq!(r, Err(ErrorCode::InvalidAuctionState));
    assert_eq!(auction.auction_state, AuctionState::Cancelled);
    assert_eq!(buyer_holding, 0);
}

#[test]
fn reclaim_after_cancelled_is_refused() {
    let (mut auction, mut escrow, _holding) = live_auction();
    let mut creator_holding: u64 = 0;
    cancel_auction(&mut auction, &mut escrow, &mut creator_holding, START + 30000).unwrap();
    let r = cancel_auction(&mut auction, &mut escrow, &mut creator_holding, START + 30000);
    assert_eq!(r, Err(ErrorCode::InvalidAuctionState));
    assert_eq!(creator_holding, 1);
}

#[test]
fn error_messages_name_each_refusal() {
    assert_eq!(
        ErrorCode::InvalidAuctionState.message(),
        "Auction is in invalid state"
    );
    assert_eq!(
        ErrorCode::AuctionDidNotStart.message(),
        "Auction did not start yet"
    );
    assert_eq!(
        ErrorCode::AuctionDidNotReachMinPrice.message(),
        "Auction did not reach minimum price yet"
    );
}
