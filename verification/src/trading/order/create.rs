//! Creating an order: `POST /v2/orders`.
//!
//! The request body is a JSON object whose members appear in declared
//! field order; unset optional fields are omitted entirely.  Enumerated
//! values are written with their lowercase or abbreviated wire names.

use super::OrderSide;
use crate::json::{
    json_object, json_quote, json_string, opt_json_str, opt_member, push_member,
    push_opt_str_member, push_pair, render_object,
};
use crate::query::bool_rep;
use crate::query::bool_to_str;
use crate::request::{ApiRequest, HttpMethod};
use crate::trading::AccountType;
use vstd::prelude::*;

verus! {

#[derive(Debug, Clone, Copy)]
pub enum OrderType {
    Market,
    Limit,
    Stop,
    StopLimit,
    TrailingStop,
}

impl OrderType {
    /// The lowercase wire name of the order type.
    pub open spec fn wire_spec(self) -> Seq<char> {
        match self {
            OrderType::Market => "market"@,
            OrderType::Limit => "limit"@,
            OrderType::Stop => "stop"@,
            OrderType::StopLimit => "stop_limit"@,
            OrderType::TrailingStop => "trailing_stop"@,
        }
    }

    pub fn as_str(&self) -> (r: &'static str)
        ensures
            r@ == self.wire_spec(),
    {
        match self {
            OrderType::Market => "market",
            OrderType::Limit => "limit",
            OrderType::Stop => "stop",
            OrderType::StopLimit => "stop_limit",
            OrderType::TrailingStop => "trailing_stop",
        }
    }
}

#[derive(Debug, Clone, Copy)]
pub enum TimeInForce {
    Day,
    GoodTilCanceled,
    OpeningOrder,
    ClosingOrder,
    ImmediateOrCancel,
    FillOrKill,
}

impl TimeInForce {
    /// The abbreviated wire name of the policy; several abbreviations
    /// are irregular, so the mapping is explicit.
    pub open spec fn wire_spec(self) -> Seq<char> {
        match self {
            TimeInForce::Day => "day"@,
            TimeInForce::GoodTilCanceled => "gtc"@,
            TimeInForce::OpeningOrder => "opg"@,
            TimeInForce::ClosingOrder => "cls"@,
            TimeInForce::ImmediateOrCancel => "ioc"@,
            TimeInForce::FillOrKill => "fok"@,
        }
    }

    pub fn as_str(&self) -> (r: &'static str)
        ensures
            r@ == self.wire_spec(),
    {
        match self {
            TimeInForce::Day => "day",
            TimeInForce::GoodTilCanceled => "gtc",
            TimeInForce::OpeningOrder => "opg",
            TimeInForce::ClosingOrder => "cls",
            TimeInForce::ImmediateOrCancel => "ioc",
            TimeInForce::FillOrKill => "fok",
        }
    }
}

/// How a primary order relates to conditional child orders.
#[derive(Debug, Clone, Copy)]
pub enum OrderClass {
    Simple,
    Bracket,
    OneCancelsOther,
    OneTriggersOther,
}

impl OrderClass {
    /// The abbreviated wire name of the class; a simple order has none.
    pub open spec fn wire_spec(self) -> Seq<char> {
        match self {
            OrderClass::Simple => ""@,
            OrderClass::Bracket => "bracket"@,
            OrderClass::OneCancelsOther => "oco"@,
            OrderClass::OneTriggersOther => "oto"@,
        }
    }

    pub fn as_str(&self) -> (r: &'static str)
        ensures
            r@ == self.wire_spec(),
    {
        match self {
            OrderClass::Simple => "",
            OrderClass::Bracket => "bracket",
            OrderClass::OneCancelsOther => "oco",
            OrderClass::OneTriggersOther => "oto",
        }
    }
}

/// The take-profit leg of a bracket order.
#[derive(Debug, Clone, Copy)]
pub struct TakeProfit<'a> {
    pub limit_price: &'a str,
}

impl<'a> TakeProfit<'a> {
    pub fn new(limit_price: &'a str) -> (r: Self)
        ensures
            r.limit_price@ == limit_price@,
    {
        Self { limit_price }
    }

    /// The nested JSON object this leg serializes to.
    pub open spec fn body_spec(self) -> Seq<char> {
        json_object(seq![("limit_price"@, json_string(self.limit_price@))])
    }

    #[verifier::rlimit(100)]
    pub fn body(&self) -> (r: String)
        ensures
            r@ == self.body_spec(),
    {
        let mut pairs: Vec<(String, String)> = Vec::new();
        push_pair(&mut pairs, "limit_price", json_quote(self.limit_price));
        let r = render_object(&pairs);
        proof {
            assert(pairs.deep_view() =~= seq![("limit_price"@, json_string(self.limit_price@))]);
        }
        r
    }
}

/// The stop-loss leg of a bracket order.
#[derive(Debug, Clone, Copy)]
pub struct StopLoss<'a> {
    pub stop_price: &'a str,
    pub limit_price: &'a str,
}

impl<'a> StopLoss<'a> {
    pub fn new(stop_price: &'a str, limit_price: &'a str) -> (r: Self)
        ensures
            r.stop_price@ == stop_price@,
            r.limit_price@ == limit_price@,
    {
        Self { stop_price, limit_price }
    }

    /// The nested JSON object this leg serializes to.
    pub open spec fn body_spec(self) -> Seq<char> {
        json_object(
            seq![
                ("stop_price"@, json_string(self.stop_price@)),
                ("limit_price"@, json_string(self.limit_price@)),
            ],
        )
    }

    pub fn body(&self) -> (r: String)
        ensures
            r@ == self.body_spec(),
    {
        let mut pairs: Vec<(String, String)> = Vec::new();
        push_pair(&mut pairs, "stop_price", json_quote(self.stop_price));
        push_pair(&mut pairs, "limit_price", json_quote(self.limit_price));
        let r = render_object(&pairs);
        proof {
            assert(pairs.deep_view() =~= seq![
                ("stop_price"@, json_string(self.stop_price@)),
                ("limit_price"@, json_string(self.limit_price@)),
            ]);
        }
        r
    }
}

/// A fully configured create-order request.
#[derive(Debug, Clone, Copy)]
pub struct CreateOrderQuery<'a> {
    pub symbol: &'a str,
    pub side: OrderSide,
    pub order_type: OrderType,
    pub time_in_force: TimeInForce,
    pub extend_hours: bool,
    pub qty: Option<&'a str>,
    pub notional: Option<&'a str>,
    pub limit_price: Option<&'a str>,
    pub stop_price: Option<&'a str>,
    pub trail_price: Option<&'a str>,
    pub trail_percent: Option<&'a str>,
    pub client_order_id: Option<&'a str>,
    pub order_class: Option<OrderClass>,
    pub take_profit: Option<TakeProfit<'a>>,
    pub stop_loss: Option<StopLoss<'a>>,
}

/// Collects create-order fields; consumed exactly once by `build`.
pub struct CreateOrderQueryBuilder<'a> {
    pub symbol: Option<&'a str>,
    pub side: Option<OrderSide>,
    pub order_type: Option<OrderType>,
    pub time_in_force: TimeInForce,
    pub extend_hours: bool,
    pub qty: Option<&'a str>,
    pub notional: Option<&'a str>,
    pub limit_price: Option<&'a str>,
    pub stop_price: Option<&'a str>,
    pub trail_price: Option<&'a str>,
    pub trail_percent: Option<&'a str>,
    pub client_order_id: Option<&'a str>,
    pub order_class: Option<OrderClass>,
    pub take_profit: Option<TakeProfit<'a>>,
    pub stop_loss: Option<StopLoss<'a>>,
}

impl<'a> CreateOrderQuery<'a> {
    /// A fresh builder: nothing set, a `day` time-in-force and regular
    /// trading hours by default.
    pub fn builder() -> (r: CreateOrderQueryBuilder<'a>)
        ensures
            r == (CreateOrderQueryBuilder::<'a> {
                symbol: None,
                side: None,
                order_type: None,
                time_in_force: TimeInForce::Day,
                extend_hours: false,
                qty: None,
                notional: None,
                limit_price: None,
                stop_price: None,
                trail_price: None,
                trail_percent: None,
                client_order_id: None,
                order_class: None,
                take_profit: None,
                stop_loss: None,
            }),
    {
        CreateOrderQueryBuilder {
            symbol: None,
            side: None,
            order_type: None,
            time_in_force: TimeInForce::Day,
            extend_hours: false,
            qty: None,
            notional: None,
            limit_price: None,
            stop_price: None,
            trail_price: None,
            trail_percent: None,
            client_order_id: None,
            order_class: None,
            take_profit: None,
            stop_loss: None,
        }
    }

    /// The body members, in declared field order; unset optional fields
    /// contribute nothing.
    pub open spec fn body_pairs(self) -> Seq<(Seq<char>, Seq<char>)> {
        seq![
            ("symbol"@, json_string(self.symbol@)),
            ("side"@, json_string(self.side.wire_spec())),
            ("type"@, json_string(self.order_type.wire_spec())),
            ("time_in_force"@, json_string(self.time_in_force.wire_spec())),
            ("extend_hours"@, bool_rep(self.extend_hours)),
        ] + opt_member("qty"@, opt_json_str(self.qty)) + opt_member(
            "notional"@,
            opt_json_str(self.notional),
        ) + opt_member("limit_price"@, opt_json_str(self.limit_price)) + opt_member(
            "stop_price"@,
            opt_json_str(self.stop_price),
        ) + opt_member("trail_price"@, opt_json_str(self.trail_price)) + opt_member(
            "trail_percent"@,
            opt_json_str(self.trail_percent),
        ) + opt_member("client_order_id"@, opt_json_str(self.client_order_id)) + opt_member(
            "order_class"@,
            match self.order_class {
                Some(c) => Some(json_string(c.wire_spec())),
                None => None,
            },
        ) + opt_member(
            "take_profit"@,
            match self.take_profit {
                Some(tp) => Some(tp.body_spec()),
                None => None,
            },
        ) + opt_member(
            "stop_loss"@,
            match self.stop_loss {
                Some(sl) => Some(sl.body_spec()),
                None => None,
            },
        )
    }

    /// The JSON body this order serializes to.
    pub open spec fn body_spec(self) -> Seq<char> {
        json_object(self.body_pairs())
    }

    /// Render the JSON body.
    pub fn body(&self) -> (r: String)
        ensures
            r@ == self.body_spec(),
    {
        let mut pairs: Vec<(String, String)> = Vec::new();
        let mut gp: Ghost<Seq<(Seq<char>, Seq<char>)>> = Ghost(Seq::empty());
        proof {
            assert(pairs.deep_view() =~= gp@);
        }
        gp = push_member(&mut pairs, gp, "symbol", json_quote(self.symbol));
        gp = push_member(&mut pairs, gp, "side", json_quote(self.side.as_str()));
        gp = push_member(&mut pairs, gp, "type", json_quote(self.order_type.as_str()));
        gp = push_member(&mut pairs, gp, "time_in_force", json_quote(self.time_in_force.as_str()));
        gp = push_member(&mut pairs, gp, "extend_hours", String::from_str(bool_to_str(self.extend_hours)));
        let ghost head = seq![
            ("symbol"@, json_string(self.symbol@)),
            ("side"@, json_string(self.side.wire_spec())),
            ("type"@, json_string(self.order_type.wire_spec())),
            ("time_in_force"@, json_string(self.time_in_force.wire_spec())),
            ("extend_hours"@, bool_rep(self.extend_hours)),
        ];
        proof {
            assert(gp@ =~= head);
        }
        gp = push_opt_str_member(&mut pairs, gp, "qty", self.qty);
        gp = push_opt_str_member(&mut pairs, gp, "notional", self.notional);
        gp = push_opt_str_member(&mut pairs, gp, "limit_price", self.limit_price);
        gp = push_opt_str_member(&mut pairs, gp, "stop_price", self.stop_price);
        gp = push_opt_str_member(&mut pairs, gp, "trail_price", self.trail_price);
        gp = push_opt_str_member(&mut pairs, gp, "trail_percent", self.trail_percent);
        gp = push_opt_str_member(&mut pairs, gp, "client_order_id", self.client_order_id);
        let ghost before_class = gp@;
        let ghost with_class = before_class + opt_member(
            "order_class"@,
            match self.order_class {
                Some(c) => Some(json_string(c.wire_spec())),
                None => None,
            },
        );
        if let Some(order_class) = self.order_class {
            gp = push_member(&mut pairs, gp, "order_class", json_quote(order_class.as_str()));
            proof {
                assert(seq![("order_class"@, json_string(order_class.wire_spec()))] =~= opt_member(
                    "order_class"@,
                    Some(json_string(order_class.wire_spec())),
                ));
                assert(gp@ == with_class);
            }
        } else {
            proof {
                assert(with_class =~= before_class);
                assert(gp@ == with_class);
            }
        }
        let ghost before_tp = gp@;
        let ghost with_tp = before_tp + opt_member(
            "take_profit"@,
            match self.take_profit {
                Some(tp) => Some(tp.body_spec()),
                None => None,
            },
        );
        if let Some(take_profit) = &self.take_profit {
            gp = push_member(&mut pairs, gp, "take_profit", take_profit.body());
            proof {
                assert(seq![("take_profit"@, take_profit.body_spec())] =~= opt_member(
                    "take_profit"@,
                    Some(take_profit.body_spec()),
                ));
                assert(gp@ == with_tp);
            }
        } else {
            proof {
                assert(with_tp =~= before_tp);
                assert(gp@ == with_tp);
            }
        }
        let ghost before_sl = gp@;
        let ghost with_sl = before_sl + opt_member(
            "stop_loss"@,
            match self.stop_loss {
                Some(sl) => Some(sl.body_spec()),
                None => None,
            },
        );
        if let Some(stop_loss) = &self.stop_loss {
            gp = push_member(&mut pairs, gp, "stop_loss", stop_loss.body());
            proof {
                assert(seq![("stop_loss"@, stop_loss.body_spec())] =~= opt_member(
                    "stop_loss"@,
                    Some(stop_loss.body_spec()),
                ));
                assert(gp@ == with_sl);
            }
        } else {
            proof {
                assert(with_sl =~= before_sl);
                assert(gp@ == with_sl);
            }
        }
        proof {
            assert(gp@ == self.body_pairs());
        }
        render_object(&pairs)
    }

    /// The fully-formed request: `POST` to the environment's orders URL
    /// with this order's JSON body.
    pub fn into_request(self, account_type: AccountType) -> (r: ApiRequest)
        ensures
            r.method == HttpMethod::Post,
            r.url@ == account_type.orders_url_spec(),
            r.body matches Some(b) && b@ == self.body_spec(),
    {
        let body = self.body();
        ApiRequest {
            method: HttpMethod::Post,
            url: String::from_str(account_type.orders_url()),
            body: Some(body),
        }
    }
}

impl<'a> CreateOrderQueryBuilder<'a> {
    pub fn symbol(self, symbol: &'a str) -> (r: Self)
        ensures
            r == (CreateOrderQueryBuilder { symbol: Some(symbol), ..self }),
    {
        Self { symbol: Some(symbol), ..self }
    }

    pub fn side(self, side: OrderSide) -> (r: Self)
        ensures
            r == (CreateOrderQueryBuilder { side: Some(side), ..self }),
    {
        Self { side: Some(side), ..self }
    }

    pub fn order_type(self, order_type: OrderType) -> (r: Self)
        ensures
            r == (CreateOrderQueryBuilder { order_type: Some(order_type), ..self }),
    {
        Self { order_type: Some(order_type), ..self }
    }

    pub fn time_in_force(self, time_in_force: TimeInForce) -> (r: Self)
        ensures
            r == (CreateOrderQueryBuilder { time_in_force, ..self }),
    {
        Self { time_in_force, ..self }
    }

    pub fn extend_hours(self, extend_hours: bool) -> (r: Self)
        ensures
            r == (CreateOrderQueryBuilder { extend_hours, ..self }),
    {
        Self { extend_hours, ..self }
    }

    pub fn qty(self, qty: &'a str) -> (r: Self)
        ensures
            r == (CreateOrderQueryBuilder { qty: Some(qty), ..self }),
    {
        Self { qty: Some(qty), ..self }
    }

    pub fn notional(self, notional: &'a str) -> (r: Self)
        ensures
            r == (CreateOrderQueryBuilder { notional: Some(notional), ..self }),
    {
        Self { notional: Some(notional), ..self }
    }

    pub fn limit_price(self, limit_price: &'a str) -> (r: Self)
        ensures
            r == (CreateOrderQueryBuilder { limit_price: Some(limit_price), ..self }),
    {
        Self { limit_price: Some(limit_price), ..self }
    }

    pub fn stop_price(self, stop_price: &'a str) -> (r: Self)
        ensures
            r == (CreateOrderQueryBuilder { stop_price: Some(stop_price), ..self }),
    {
        Self { stop_price: Some(stop_price), ..self }
    }

    pub fn trail_price(self, trail_price: &'a str) -> (r: Self)
        ensures
            r == (CreateOrderQueryBuilder { trail_price: Some(trail_price), ..self }),
    {
        Self { trail_price: Some(trail_price), ..self }
    }

    pub fn trail_percent(self, trail_percent: &'a str) -> (r: Self)
        ensures
            r == (CreateOrderQueryBuilder { trail_percent: Some(trail_percent), ..self }),
    {
        Self { trail_percent: Some(trail_percent), ..self }
    }

    pub fn client_order_id(self, client_order_id: &'a str) -> (r: Self)
        ensures
            r == (CreateOrderQueryBuilder { client_order_id: Some(client_order_id), ..self }),
    {
        Self { client_order_id: Some(client_order_id), ..self }
    }

    pub fn order_class(self, order_class: OrderClass) -> (r: Self)
        ensures
            r == (CreateOrderQueryBuilder { order_class: Some(order_class), ..self }),
    {
        Self { order_class: Some(order_class), ..self }
    }

    pub fn take_profit(self, take_profit: TakeProfit<'a>) -> (r: Self)
        ensures
            r == (CreateOrderQueryBuilder { take_profit: Some(take_profit), ..self }),
    {
        Self { take_profit: Some(take_profit), ..self }
    }

    pub fn stop_loss(self, stop_loss: StopLoss<'a>) -> (r: Self)
        ensures
            r == (CreateOrderQueryBuilder { stop_loss: Some(stop_loss), ..self }),
    {
        Self { stop_loss: Some(stop_loss), ..self }
    }

    /// Consume the builder.  The three fields the endpoint cannot do
    /// without must have been set.
    pub fn build(self) -> (r: CreateOrderQuery<'a>)
        requires
            self.symbol is Some,
            self.side is Some,
            self.order_type is Some,
        ensures
            r == (CreateOrderQuery {
                symbol: self.symbol.unwrap(),
                side: self.side.unwrap(),
                order_type: self.order_type.unwrap(),
                time_in_force: self.time_in_force,
                extend_hours: self.extend_hours,
                qty: self.qty,
                notional: self.notional,
                limit_price: self.limit_price,
                stop_price: self.stop_price,
                trail_price: self.trail_price,
                trail_percent: self.trail_percent,
                client_order_id: self.client_order_id,
                order_class: self.order_class,
                take_profit: self.take_profit,
                stop_loss: self.stop_loss,
            }),
    {
        CreateOrderQuery {
            symbol: self.symbol.unwrap(),
            side: self.side.unwrap(),
            order_type: self.order_type.unwrap(),
            time_in_force: self.time_in_force,
            extend_hours: self.extend_hours,
            qty: self.qty,
            notional: self.notional,
            limit_price: self.limit_price,
            stop_price: self.stop_price,
            trail_price: self.trail_price,
            trail_percent: self.trail_percent,
            client_order_id: self.client_order_id,
            order_class: self.order_class,
            take_profit: self.take_profit,
            stop_loss: self.stop_loss,
        }
    }
}

} // verus!
