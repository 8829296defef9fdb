//! Replacing an existing order: `PATCH /v2/orders/{id}`.

use crate::json::{json_object, json_quote, opt_json_str, opt_member, push_pair, render_object};
use crate::request::{ApiRequest, HttpMethod};
use crate::trading::AccountType;
use vstd::prelude::*;

verus! {

/// A fully configured replace-order request.
pub struct ReplaceOrderQuery<'a> {
    pub order_id: &'a str,
    pub qty: Option<&'a str>,
    pub time_in_force: Option<&'a str>,
    pub limit_price: Option<&'a str>,
    pub stop_price: Option<&'a str>,
    pub trail: Option<&'a str>,
    pub client_order_id: Option<&'a str>,
}

/// Collects replace-order fields; consumed exactly once by `build`.
pub struct ReplaceOrderQueryBuilder<'a> {
    pub order_id: Option<&'a str>,
    pub qty: Option<&'a str>,
    pub time_in_force: Option<&'a str>,
    pub limit_price: Option<&'a str>,
    pub stop_price: Option<&'a str>,
    pub trail: Option<&'a str>,
    pub client_order_id: Option<&'a str>,
}

impl<'a> ReplaceOrderQuery<'a> {
    pub fn builder() -> (r: ReplaceOrderQueryBuilder<'a>)
        ensures
            r == (ReplaceOrderQueryBuilder::<'a> {
                order_id: None,
                qty: None,
                time_in_force: None,
                limit_price: None,
                stop_price: None,
                trail: None,
                client_order_id: None,
            }),
    {
        ReplaceOrderQueryBuilder {
            order_id: None,
            qty: None,
            time_in_force: None,
            limit_price: None,
            stop_price: None,
            trail: None,
            client_order_id: None,
        }
    }

    /// The body members, in declared field order; the order id travels
    /// in the URL, never in the body.
    pub open spec fn body_pairs(self) -> Seq<(Seq<char>, Seq<char>)> {
        opt_member("qty"@, opt_json_str(self.qty)) + opt_member(
            "time_in_force"@,
            opt_json_str(self.time_in_force),
        ) + opt_member("limit_price"@, opt_json_str(self.limit_price)) + opt_member(
            "stop_price"@,
            opt_json_str(self.stop_price),
        ) + opt_member("trail"@, opt_json_str(self.trail)) + opt_member(
            "client_order_id"@,
            opt_json_str(self.client_order_id),
        )
    }

    /// The JSON body this replacement serializes to.
    pub open spec fn body_spec(self) -> Seq<char> {
        json_object(self.body_pairs())
    }

    /// Render the JSON body.
    pub fn body(&self) -> (r: String)
        ensures
            r@ == self.body_spec(),
    {
        let mut pairs: Vec<(String, String)> = Vec::new();
        let ghost p1 = opt_member("qty"@, opt_json_str(self.qty));
        if let Some(qty) = self.qty {
            push_pair(&mut pairs, "qty", json_quote(qty));
        }
        proof {
            assert(pairs.deep_view() =~= p1);
        }
        let ghost p2 = p1 + opt_member("time_in_force"@, opt_json_str(self.time_in_force));
        if let Some(time_in_force) = self.time_in_force {
            push_pair(&mut pairs, "time_in_force", json_quote(time_in_force));
        }
        proof {
            assert(pairs.deep_view() =~= p2);
        }
        let ghost p3 = p2 + opt_member("limit_price"@, opt_json_str(self.limit_price));
        if let Some(limit_price) = self.limit_price {
            push_pair(&mut pairs, "limit_price", json_quote(limit_price));
        }
        proof {
            assert(pairs.deep_view() =~= p3);
        }
        let ghost p4 = p3 + opt_member("stop_price"@, opt_json_str(self.stop_price));
        if let Some(stop_price) = self.stop_price {
            push_pair(&mut pairs, "stop_price", json_quote(stop_price));
        }
        proof {
            assert(pairs.deep_view() =~= p4);
        }
        let ghost p5 = p4 + opt_member("trail"@, opt_json_str(self.trail));
        if let Some(trail) = self.trail {
            push_pair(&mut pairs, "trail", json_quote(trail));
        }
        proof {
            assert(pairs.deep_view() =~= p5);
        }
        let ghost p6 = p5 + opt_member("client_order_id"@, opt_json_str(self.client_order_id));
        if let Some(client_order_id) = self.client_order_id {
            push_pair(&mut pairs, "client_order_id", json_quote(client_order_id));
        }
        proof {
            assert(pairs.deep_view() =~= p6);
            assert(p6 =~= self.body_pairs());
        }
        render_object(&pairs)
    }

    /// The fully-formed request: `PATCH {orders_url}/{order_id}` with
    /// this replacement's JSON body.
    pub fn into_request(self, account_type: AccountType) -> (r: ApiRequest)
        ensures
            r.method == HttpMethod::Patch,
            r.url@ == account_type.orders_url_spec() + "/"@ + self.order_id@,
            r.body matches Some(b) && b@ == self.body_spec(),
    {
        let body = self.body();
        let mut url = String::from_str(account_type.orders_url());
        url.append("/");
        url.append(self.order_id);
        ApiRequest { method: HttpMethod::Patch, url, body: Some(body) }
    }
}

impl<'a> ReplaceOrderQueryBuilder<'a> {
    pub fn order_id(self, order_id: &'a str) -> (r: Self)
        ensures
            r == (ReplaceOrderQueryBuilder { order_id: Some(order_id), ..self }),
    {
        Self { order_id: Some(order_id), ..self }
    }

    pub fn qty(self, qty: &'a str) -> (r: Self)
        ensures
            r == (ReplaceOrderQueryBuilder { qty: Some(qty), ..self }),
    {
        Self { qty: Some(qty), ..self }
    }

    pub fn time_in_force(self, time_in_force: &'a str) -> (r: Self)
        ensures
            r == (ReplaceOrderQueryBuilder { time_in_force: Some(time_in_force), ..self }),
    {
        Self { time_in_force: Some(time_in_force), ..self }
    }

    pub fn limit_price(self, limit_price: &'a str) -> (r: Self)
        ensures
            r == (ReplaceOrderQueryBuilder { limit_price: Some(limit_price), ..self }),
    {
        Self { limit_price: Some(limit_price), ..self }
    }

    pub fn stop_price(self, stop_price: &'a str) -> (r: Self)
        ensures
            r == (ReplaceOrderQueryBuilder { stop_price: Some(stop_price), ..self }),
    {
        Self { stop_price: Some(stop_price), ..self }
    }

    pub fn trail(self, trail: &'a str) -> (r: Self)
        ensures
            r == (ReplaceOrderQueryBuilder { trail: Some(trail), ..self }),
    {
        Self { trail: Some(trail), ..self }
    }

    pub fn client_order_id(self, client_order_id: &'a str) -> (r: Self)
        ensures
            r == (ReplaceOrderQueryBuilder { client_order_id: Some(client_order_id), ..self }),
    {
        Self { client_order_id: Some(client_order_id), ..self }
    }

    /// Consume the builder; the order id must have been set.
    pub fn build(self) -> (r: ReplaceOrderQuery<'a>)
        requires
            self.order_id is Some,
        ensures
            r == (ReplaceOrderQuery {
                order_id: self.order_id.unwrap(),
                qty: self.qty,
                time_in_force: self.time_in_force,
                limit_price: self.limit_price,
                stop_price: self.stop_price,
                trail: self.trail,
                client_order_id: self.client_order_id,
            }),
    {
        ReplaceOrderQuery {
            order_id: self.order_id.unwrap(),
            qty: self.qty,
            time_in_force: self.time_in_force,
            limit_price: self.limit_price,
            stop_price: self.stop_price,
            trail: self.trail,
            client_order_id: self.client_order_id,
        }
    }
}

} // verus!
