use vstd::prelude::*;
use vstd::string::StringExecFns;

verus! {

/// A coin of the closed set of denominations.
pub enum Coin {
    Penny,
    Nickel,
    Dime,
    Quarter,
}

/// The worth of a coin, in cents.
pub open spec fn coin_value(coin: Coin) -> int {
    match coin {
        Coin::Penny => 1,
        Coin::Nickel => 5,
        Coin::Dime => 10,
        Coin::Quarter => 25,
    }
}

/// The worth of a coin in cents, one arm per denomination.
pub fn value_in_cents(coin: Coin) -> (r: u32)
    ensures
        r == coin_value(coin),
{
    match coin {
        Coin::Penny => 1,
        Coin::Nickel => 5,
        Coin::Dime => 10,
        Coin::Quarter => 25,
    }
}

/// A playing-card suit.
#[derive(Debug)]
pub enum PokerSuit {
    Clubs,
    Spades,
    Diamonds,
    Hearts,
}

/// The printed name of a suit.
pub open spec fn suit_name_spec(card: PokerSuit) -> Seq<char> {
    match card {
        PokerSuit::Clubs => "Clubs"@,
        PokerSuit::Spades => "Spades"@,
        PokerSuit::Diamonds => "Diamonds"@,
        PokerSuit::Hearts => "Hearts"@,
    }
}

/// The name of a suit as a freshly built string, ready to be printed.
pub fn suit_name(card: PokerSuit) -> (r: String)
    ensures
        r@ == suit_name_spec(card),
{
    match card {
        PokerSuit::Clubs => "Clubs".to_owned(),
        PokerSuit::Spades => "Spades".to_owned(),
        PokerSuit::Diamonds => "Diamonds".to_owned(),
        PokerSuit::Hearts => "Hearts".to_owned(),
    }
}

/// A playing card: its suit together with its face written out.
pub enum PokerCard {
    Clubs(String),
    Spades(String),
    Diamonds(String),
    Hearts(String),
}

} // verus!
