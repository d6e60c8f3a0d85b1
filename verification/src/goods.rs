use vstd::prelude::*;
use vstd::string::StringExecFns;

verus! {

/// What a shop can do: quote a line for what it sells and a line for what
/// it buys. The wording of each line is the trait's stock text unless an
/// implementor overrides the spec of the line together with the line itself.
pub trait Goods {
    /// The text of this shop's sale line.
    open spec fn sale_spec(&self) -> Seq<char> {
        "this is what you sale"@
    }

    /// The text of this shop's buy line.
    open spec fn buy_spec(&self) -> Seq<char> {
        "that is what you buy"@
    }

    /// The sale line as a freshly built string.
    fn sale(&self) -> (r: String)
        ensures
            r@ == self.sale_spec(),
    ;

    /// The buy line as a freshly built string.
    #[allow(non_snake_case)]
    fn Buy(&self) -> (r: String)
        ensures
            r@ == self.buy_spec(),
    ;
}

/// A coffee shop, selling one kind of coffee under its own name.
pub struct CoffeeStore {
    pub name: String,
    pub coffee_type: String,
}

/// A car dealer, selling one brand of car under its own name.
pub struct CarShop {
    pub name: String,
    pub car_brand: String,
}

/// A shop that keeps the stock wording for both lines.
pub struct DefaultShop {
    pub name: String,
}

impl Goods for CoffeeStore {
    open spec fn sale_spec(&self) -> Seq<char> {
        self.name@ + " has some type of coffee,such as "@ + self.coffee_type@
    }

    fn sale(&self) -> (r: String) {
        let mut r = self.name.clone();
        r.append(" has some type of coffee,such as ");
        r.append(self.coffee_type.as_str());
        r
    }

    fn Buy(&self) -> (r: String) {
        "that is what you buy".to_owned()
    }
}

impl Goods for CarShop {
    open spec fn sale_spec(&self) -> Seq<char> {
        self.name@ + " has some type of car, such as "@ + self.car_brand@
    }

    fn sale(&self) -> (r: String) {
        let mut r = self.name.clone();
        r.append(" has some type of car, such as ");
        r.append(self.car_brand.as_str());
        r
    }

    fn Buy(&self) -> (r: String) {
        "that is what you buy".to_owned()
    }
}

impl Goods for DefaultShop {
    fn sale(&self) -> (r: String) {
        "this is what you sale".to_owned()
    }

    fn Buy(&self) -> (r: String) {
        "that is what you buy".to_owned()
    }
}

} // verus!
