//! Order endpoints: create, list, get by id, replace.

pub mod create;
pub mod get;
pub mod replace;

pub use create::{CreateOrderQuery, OrderClass, OrderType, StopLoss, TakeProfit, TimeInForce};
pub use get::GetOrdersQuery;
pub use replace::ReplaceOrderQuery;

use vstd::prelude::*;

verus! {

/// Which side of the book an order stands on.
#[derive(Debug, Clone, Copy)]
pub enum OrderSide {
    Buy,
    Sell,
}

impl OrderSide {
    /// The lowercase wire name of the side.
    pub open spec fn wire_spec(self) -> Seq<char> {
        match self {
            OrderSide::Buy => "buy"@,
            OrderSide::Sell => "sell"@,
        }
    }

    pub fn as_str(&self) -> (r: &'static str)
        ensures
            r@ == self.wire_spec(),
    {
        match self {
            OrderSide::Buy => "buy",
            OrderSide::Sell => "sell",
        }
    }
}

} // verus!
