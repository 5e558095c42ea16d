//! Coins and what they are worth.

use vstd::prelude::*;

verus! {

/// A coin.
#[derive(Clone, Copy, Debug, PartialEq, Eq, Structural)]
pub enum Coin {
    Penny,
    Nickel,
    Dime,
    Quarter,
}

impl Coin {
    /// The value of the coin in cents.
    pub open spec fn cents(self) -> nat {
        match self {
            Coin::Penny => 1,
            Coin::Nickel => 5,
            Coin::Dime => 10,
            Coin::Quarter => 25,
        }
    }
}

/// The value of a coin in cents.
pub fn coin_value(coin: &Coin) -> (value: u32)
    ensures
        value == coin.cents(),
{
    match coin {
        Coin::Penny => 1,
        Coin::Nickel => 5,
        Coin::Dime => 10,
        Coin::Quarter => 25,
    }
}

} // verus!
