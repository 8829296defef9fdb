//! Position queries and closes: `GET`/`DELETE /v2/positions`.

use crate::query::{
    begin_query, bool_rep, bool_to_str, full_query, lemma_rendered_params_push, opt_param,
    opt_str_view, push_param, rendered_params,
};
use crate::request::{ApiRequest, HttpMethod};
use crate::trading::AccountType;
use vstd::prelude::*;

verus! {

/// Position endpoints for one environment.
pub struct PositionsQuery<'a> {
    pub url: &'a str,
}

impl<'a> PositionsQuery<'a> {
    pub fn new(account_type: AccountType) -> (r: Self)
        ensures
            r.url@ == account_type.positions_url_spec(),
    {
        Self { url: account_type.positions_url() }
    }

    /// The request listing every open position: `GET` on the base URL.
    pub fn all_open_positions_request(&self) -> (r: ApiRequest)
        ensures
            r.method == HttpMethod::Get,
            r.url@ == self.url@,
            r.body is None,
    {
        ApiRequest {
            method: HttpMethod::Get,
            url: String::from_str(self.url),
            body: None,
        }
    }

    /// The request fetching one position: `GET {url}/{symbol}`.
    pub fn position_by_symbol_request(&self, symbol: &str) -> (r: ApiRequest)
        ensures
            r.method == HttpMethod::Get,
            r.url@ == self.url@ + "/"@ + symbol@,
            r.body is None,
    {
        let mut url = String::from_str(self.url);
        url.append("/");
        url.append(symbol);
        ApiRequest { method: HttpMethod::Get, url, body: None }
    }

    /// The request fetching one position: `GET {url}/{asset id}`.
    pub fn position_by_id_request(&self, id: &str) -> (r: ApiRequest)
        ensures
            r.method == HttpMethod::Get,
            r.url@ == self.url@ + "/"@ + id@,
            r.body is None,
    {
        let mut url = String::from_str(self.url);
        url.append("/");
        url.append(id);
        ApiRequest { method: HttpMethod::Get, url, body: None }
    }

    /// The request closing every position:
    /// `DELETE {url}?cancel_orders=...`.
    pub fn close_all_positions_request(&self, cancel_orders: bool) -> (r: ApiRequest)
        ensures
            r.method == HttpMethod::Delete,
            r.url@ == self.url@ + "?cancel_orders="@ + bool_rep(cancel_orders),
            r.body is None,
    {
        let mut url = String::from_str(self.url);
        url.append("?cancel_orders=");
        url.append(bool_to_str(cancel_orders));
        ApiRequest { method: HttpMethod::Delete, url, body: None }
    }

    /// The parameters of a single-position close.
    pub open spec fn close_params_spec(
        qty: Option<&str>,
        percentage: Option<&str>,
    ) -> Seq<(Seq<char>, Seq<char>)> {
        opt_param("qty"@, opt_str_view(qty)) + opt_param("percentage"@, opt_str_view(percentage))
    }

    /// The request closing one position, in part or in full:
    /// `DELETE {url}/{id or symbol}?&qty=...&percentage=...`, either
    /// amount rendered only when set.
    pub fn close_position_request(
        &self,
        id_or_symbol: &str,
        qty: Option<&str>,
        percentage: Option<&str>,
    ) -> (r: ApiRequest)
        ensures
            r.method == HttpMethod::Delete,
            r.url@ == full_query(
                self.url@ + "/"@ + id_or_symbol@,
                Self::close_params_spec(qty, percentage),
            ),
            r.body is None,
    {
        let mut base = String::from_str(self.url);
        base.append("/");
        base.append(id_or_symbol);
        let ghost base_view = base@;
        let ghost mut params: Seq<(Seq<char>, Seq<char>)> = Seq::empty();
        let mut q = begin_query(base.as_str());
        let ghost g1 = opt_param("qty"@, opt_str_view(qty));
        if let Some(qty_value) = qty {
            push_param(&mut q, "qty", qty_value);
            proof {
                lemma_rendered_params_push(params, ("qty"@, qty_value@));
                params = params.push(("qty"@, qty_value@));
            }
        }
        proof {
            assert(params =~= g1);
            assert(q@ =~= base_view + "?"@ + rendered_params(params));
        }
        let ghost g2 = g1 + opt_param("percentage"@, opt_str_view(percentage));
        if let Some(percentage_value) = percentage {
            push_param(&mut q, "percentage", percentage_value);
            proof {
                lemma_rendered_params_push(params, ("percentage"@, percentage_value@));
                params = params.push(("percentage"@, percentage_value@));
            }
        }
        proof {
            assert(params =~= g2);
            assert(q@ =~= full_query(base_view, Self::close_params_spec(qty, percentage)));
        }
        ApiRequest { method: HttpMethod::Delete, url: q, body: None }
    }
}

/// Whether a close-all response status counts as success: the endpoint
/// accepts 200 and the partial-success status 207, nothing else.
pub fn close_all_success(status: u16) -> (r: bool)
    ensures
        r == (status == 200 || status == 207),
{
    status == 200 || status == 207
}

/// Which side of the book a position stands on.
#[derive(Debug, Clone, Copy)]
pub enum PositionSide {
    Long,
    Short,
}

impl PositionSide {
    /// The lowercase wire name of the side.
    pub open spec fn wire_spec(self) -> Seq<char> {
        match self {
            PositionSide::Long => "long"@,
            PositionSide::Short => "short"@,
        }
    }

    pub fn as_str(&self) -> (r: &'static str)
        ensures
            r@ == self.wire_spec(),
    {
        match self {
            PositionSide::Long => "long",
            PositionSide::Short => "short",
        }
    }
}

} // verus!
