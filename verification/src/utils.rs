use vstd::prelude::*;
use vstd::arithmetic::div_mod::lemma_div_is_ordered;
use vstd::arithmetic::mul::lemma_mul_inequality;
use vstd::arithmetic::mul::lemma_mul_upper_bound;

verus! {

/// Whole minutes elapsed between two instants, each instant first taken to
/// the start of its own calendar minute. The two timestamps are divided by 60
/// independently, which is not the same as dividing their difference: when
/// `starting_timestamp` is not a multiple of 60 the two disagree, and every
/// replica must agree on this exact reading.
pub open spec fn elapsed_minutes(current_timestamp: u64, starting_timestamp: u64) -> int {
    current_timestamp as int / 60 - starting_timestamp as int / 60
}

/// How many decay intervals have fully passed since the auction started.
pub open spec fn decay_steps(
    current_timestamp: u64,
    starting_timestamp: u64,
    interval_mins: u8,
) -> int {
    elapsed_minutes(current_timestamp, starting_timestamp) / (interval_mins as int)
}

/// The current price: the starting price lowered by `price_change` once per
/// elapsed decay interval, clamped below at `min_price`.
pub open spec fn price_at(
    current_timestamp: u64,
    starting_timestamp: u64,
    starting_price: u64,
    min_price: u64,
    interval_mins: u8,
    price_change: u64,
) -> int {
    let lowered = starting_price
        - decay_steps(current_timestamp, starting_timestamp, interval_mins) * price_change;
    if lowered < min_price {
        min_price as int
    } else {
        lowered
    }
}

/// Current price of the asset in minor currency units.
pub fn get_current_price(
    current_timestamp: u64,
    starting_timestamp: u64,
    starting_price: u64,
    min_price: u64,
    interval_mins: u8,
    price_change: u64,
) -> (price: u64)
    requires
        starting_timestamp <= current_timestamp,
        interval_mins > 0,
    ensures
        price == price_at(
            current_timestamp,
            starting_timestamp,
            starting_price,
            min_price,
            interval_mins,
            price_change,
        ),
        min_price <= price,
{
    proof {
        lemma_div_is_ordered(starting_timestamp as int, current_timestamp as int, 60);
    }
    let difference_minutes: u64 = current_timestamp / 60 - starting_timestamp / 60;
    let number_of_times_price_changed: u64 = difference_minutes / (interval_mins as u64);
    proof {
        lemma_mul_upper_bound(
            number_of_times_price_changed as int,
            u64::MAX as int,
            price_change as int,
            u64::MAX as int,
        );
    }
    let total_drop: u128 = (number_of_times_price_changed as u128) * (price_change as u128);
    if (starting_price as u128) <= (min_price as u128) + total_drop {
        min_price
    } else {
        starting_price - (total_drop as u64)
    }
}

/// The price never falls below the floor.
pub proof fn lemma_price_at_least_floor(
    current_timestamp: u64,
    starting_timestamp: u64,
    starting_price: u64,
    min_price: u64,
    interval_mins: u8,
    price_change: u64,
)
    ensures
        min_price <= price_at(
            current_timestamp,
            starting_timestamp,
            starting_price,
            min_price,
            interval_mins,
            price_change,
        ),
{
}

/// The price is non-increasing in the current time: for fixed auction terms,
/// a later reading never yields a higher price than an earlier one.
pub proof fn lemma_price_nonincreasing(
    earlier: u64,
    later: u64,
    starting_timestamp: u64,
    starting_price: u64,
    min_price: u64,
    interval_mins: u8,
    price_change: u64,
)
    requires
        earlier <= later,
        interval_mins > 0,
    ensures
        price_at(later, starting_timestamp, starting_price, min_price, interval_mins, price_change)
            <= price_at(
            earlier,
            starting_timestamp,
            starting_price,
            min_price,
            interval_mins,
            price_change,
        ),
{
    lemma_div_is_ordered(earlier as int, later as int, 60);
    lemma_div_is_ordered(
        elapsed_minutes(earlier, starting_timestamp),
        elapsed_minutes(later, starting_timestamp),
        interval_mins as int,
    );
    lemma_mul_inequality(
        decay_steps(earlier, starting_timestamp, interval_mins),
        decay_steps(later, starting_timestamp, interval_mins),
        price_change as int,
    );
}

} // verus!
