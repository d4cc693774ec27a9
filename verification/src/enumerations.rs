//! Enumerations: a type whose values are one of several variants, and
//! `match` to tell the variants apart.

use vstd::prelude::*;

verus! {

/// A message, in four shapes: a variant may carry no data, one value,
/// named fields or several values.
pub enum Message {
    /// Carries nothing.
    Quit,
    /// Carries a text.
    Write(String),
    /// Carries two named coordinates.
    Move { x: i32, y: i32 },
    /// Carries three colour components.
    ChangeColor(i32, i32, i32),
}

impl Message {
    /// Sends the message. There is nowhere to send it to, so the method does
    /// nothing and leaves the message as it is: it shows that an enumeration
    /// has methods as a structure has.
    pub fn send(&self) {
    }
}

/// A coin of the United States.
pub enum Coin {
    Penny,
    Nickel,
    Dime,
    Quarter,
}

impl Coin {
    /// What the coin is worth, in cents.
    pub open spec fn cents(self) -> nat {
        match self {
            Coin::Penny => 1,
            Coin::Nickel => 5,
            Coin::Dime => 10,
            Coin::Quarter => 25,
        }
    }
}

/// Returns what `coin` is worth, in cents.
pub fn values_in_cents(coin: Coin) -> (cents: u8)
    ensures
        cents == coin.cents(),
{
    match coin {
        Coin::Penny => 1,
        Coin::Nickel => 5,
        Coin::Dime => 10,
        Coin::Quarter => 25,
    }
}

} // verus!
