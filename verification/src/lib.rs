mod arith;
mod coins;
mod goods;
mod guess;
mod point;
mod rectangle;
mod screen;
mod strings;
mod user;

pub use arith::add_i8;
pub use arith::add_i32;
pub use arith::add_with_extra;
pub use arith::add_with_extra_spec;
pub use arith::largest;
pub use arith::plus_one;
pub use coins::Coin;
pub use coins::PokerCard;
pub use coins::PokerSuit;
pub use coins::coin_value;
pub use coins::suit_name;
pub use coins::suit_name_spec;
pub use coins::value_in_cents;
pub use goods::CarShop;
pub use goods::CoffeeStore;
pub use goods::DefaultShop;
pub use goods::Goods;
pub use guess::GuessingGame;
pub use guess::Outcome;
pub use guess::SECRET_MAX;
pub use guess::SECRET_MIN;
pub use point::Point;
pub use rectangle::Rectangle;
pub use screen::Button;
pub use screen::Image;
pub use screen::Screen;
pub use screen::Shape;
pub use screen::lemma_rendered_count;
pub use screen::lemma_rendered_empty;
pub use screen::render_spec;
pub use screen::rendered;
pub use strings::calculate_length;
pub use strings::change;
pub use strings::gives_ownership;
pub use strings::greet;
pub use strings::return_multiple_value;
pub use strings::takes_and_gives_back;
pub use user::User;
pub use user::build_user_in_a_dum_way;
pub use user::build_user_like_typescript;
