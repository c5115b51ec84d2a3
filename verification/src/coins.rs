//! Coins and their face values.

use vstd::prelude::*;

verus! {

/// A state whose name may appear on a quarter.
#[derive(Debug)]
pub enum UsState {
    Alabama,
    Alaska,
    California,
    Oregon,
    Washington,
}

/// A coin of the common denominations; a quarter carries its state.
pub enum Coin {
    Penny,
    Nickel,
    Dime,
    Quarter(UsState),
}

/// The face value of a coin, in cents.
pub open spec fn coin_value(coin: &Coin) -> u8 {
    match coin {
        Coin::Penny => 1,
        Coin::Nickel => 5,
        Coin::Dime => 10,
        Coin::Quarter(_) => 25,
    }
}

/// Returns the face value of the coin in cents.
pub fn value_in_cents(coin: Coin) -> (r: u8)
    ensures
        r == coin_value(&coin),
{
    match coin {
        Coin::Penny => 1,
        Coin::Nickel => 5,
        Coin::Dime => 10,
        Coin::Quarter(_state) => 25,
    }
}

/// Values a state quarter: its worth depends only on its denomination, not
/// on the state it carries.
pub fn enum_control_flow() {
    let worth = value_in_cents(Coin::Quarter(UsState::Alaska));
    assert(worth == 25);
}

} // verus!
