use basics::{
    suit_name, value_in_cents, CarShop, Coin, CoffeeStore, DefaultShop, Goods, GuessingGame,
    Outcome, PokerSuit,
};

#[test]
fn coin_values() {
    assert_eq!(value_in_cents(Coin::Penny), 1);
    assert_eq!(value_in_cents(Coin::Nickel), 5);
    assert_eq!(value_in_cents(Coin::Dime), 10);
    assert_eq!(value_in_cents(Coin::Quarter), 25);
}

#[test]
fn suit_names() {
    assert_eq!(suit_name(PokerSuit::Clubs), "Clubs");
    assert_eq!(suit_name(PokerSuit::Spades), "Spades");
    assert_eq!(suit_name(PokerSuit::Diamonds), "Diamonds");
    assert_eq!(suit_name(PokerSuit::Hearts), "Hearts");
}

#[test]
fn coffee_store_sale_line() {
    let coffee_store = CoffeeStore {
        name: "One".to_string(),
        coffee_type: "Geisha".to_string(),
    };
    assert_eq!(
        coffee_store.sale(),
        "One has some type of coffee,such as Geisha"
    );
    assert_eq!(coffee_store.Buy(), "that is what you buy");
}

#[test]
fn car_shop_sale_line() {
    let car_shop = CarShop {
        name: "Motors".to_string(),
        car_brand: "BMW".to_string(),
    };
    assert_eq!(car_shop.sale(), "Motors has some type of car, such as BMW");
    assert_eq!(car_shop.Buy(), "that is what you buy");
}

#[test]
fn default_shop_keeps_stock_lines() {
    let default = DefaultShop {
        name: "default".to_string(),
    };
    assert_eq!(default.sale(), "this is what you sale");
    assert_eq!(default.Buy(), "that is what you buy");
}

#[test]
fn known_round_judges_each_side() {
    let game = GuessingGame::with_secret(250);
    assert_eq!(game.check(250), Outcome::Win);
    assert_eq!(game.check(251), Outcome::TooBig);
    assert_eq!(game.check(249), Outcome::TooSmall);
}

#[test]
fn fresh_secret_stays_in_range() {
    let game = GuessingGame::new();
    assert_eq!(game.check(0), Outcome::TooSmall);
    assert_eq!(game.check(501), Outcome::TooBig);
}
