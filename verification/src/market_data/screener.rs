//! Market screener queries: most-active stocks and top movers.

use crate::query::{
    begin_query, full_query, i32_to_string, opt_i32_view, opt_param, opt_str_view, push_param,
    rendered_params, lemma_rendered_params_push,
};
use vstd::prelude::*;

verus! {

/// One row of the most-actives screener.
#[derive(Debug, Clone)]
pub struct ActiveStock {
    pub symbol: String,
    pub volume: u64,
    pub trade_count: u64,
}

/// The most-actives screener response.
#[derive(Debug, Clone)]
pub struct ActiveStocksResponse {
    pub most_actives: Vec<ActiveStock>,
    pub last_updated: String,
}

/// Builder for the most-actives screener query.
pub struct ActiveStocksQuery<'a> {
    pub url: &'a str,
    pub by: Option<&'a str>,
    pub top: Option<i32>,
}

impl<'a> Default for ActiveStocksQuery<'a> {
    fn default() -> (r: Self)
        ensures
            r.url@ == "https://data.alpaca.markets/v1beta1/screener/stocks/most-actives"@,
            r.by is None,
            r.top is None,
    {
        Self {
            url: "https://data.alpaca.markets/v1beta1/screener/stocks/most-actives",
            by: None,
            top: None,
        }
    }
}

impl<'a> ActiveStocksQuery<'a> {
    /// The parameters this query renders, in declared field order.
    pub open spec fn params_spec(self) -> Seq<(Seq<char>, Seq<char>)> {
        opt_param("by"@, opt_str_view(self.by)) + opt_param("top"@, opt_i32_view(self.top))
    }

    pub fn by_metric(self, by: &'a str) -> (r: Self)
        ensures
            r.url@ == self.url@,
            opt_str_view(r.by) == Some(by@),
            r.top == self.top,
    {
        Self { by: Some(by), ..self }
    }

    pub fn top(self, top: i32) -> (r: Self)
        ensures
            r.url@ == self.url@,
            opt_str_view(r.by) == opt_str_view(self.by),
            r.top == Some(top),
    {
        Self { top: Some(top), ..self }
    }

    /// Render the route: the base URL, a bare `?`, then every set
    /// parameter as `&name=value` in declared field order.
    pub fn build(self) -> (r: String)
        ensures
            r@ == full_query(self.url@, self.params_spec()),
    {
        let ghost base = self.url@;
        let ghost mut params: Seq<(Seq<char>, Seq<char>)> = Seq::empty();
        let mut q = begin_query(self.url);
        if let Some(by) = self.by {
            push_param(&mut q, "by", by);
            proof {
                lemma_rendered_params_push(params, ("by"@, by@));
                params = params.push(("by"@, by@));
            }
        }
        proof {
            assert(params =~= opt_param("by"@, opt_str_view(self.by)));
            assert(q@ =~= base + "?"@ + rendered_params(params));
        }
        if let Some(top) = self.top {
            let v = i32_to_string(top);
            push_param(&mut q, "top", v.as_str());
            proof {
                lemma_rendered_params_push(params, ("top"@, v@));
                params = params.push(("top"@, v@));
            }
        }
        proof {
            assert(params =~= self.params_spec());
            assert(q@ =~= full_query(base, self.params_spec()));
        }
        q
    }
}

#[derive(Debug, Clone, Copy)]
pub enum MarketType {
    Stocks,
    Crypto,
}

impl MarketType {
    /// The lowercase wire name of the market type.
    pub open spec fn wire_spec(self) -> Seq<char> {
        match self {
            MarketType::Stocks => "stocks"@,
            MarketType::Crypto => "crypto"@,
        }
    }

    pub fn as_str(&self) -> (r: &'static str)
        ensures
            r@ == self.wire_spec(),
    {
        match self {
            MarketType::Stocks => "stocks",
            MarketType::Crypto => "crypto",
        }
    }
}

/// Builder for the top-movers screener query.
pub struct TopMoversQuery {
    pub url: String,
    pub top: Option<i32>,
}

impl TopMoversQuery {
    /// The parameters this query renders.
    pub open spec fn params_spec(self) -> Seq<(Seq<char>, Seq<char>)> {
        opt_param("top"@, opt_i32_view(self.top))
    }

    pub fn new(market_type: MarketType) -> (r: Self)
        ensures
            r.url@ == "https://data.alpaca.markets/v1beta1/screener/"@ + market_type.wire_spec()
                + "/movers"@,
            r.top is None,
    {
        let mut url = String::from_str("https://data.alpaca.markets/v1beta1/screener/");
        url.append(market_type.as_str());
        url.append("/movers");
        Self { url, top: None }
    }

    pub fn top(self, top: i32) -> (r: Self)
        ensures
            r.url@ == self.url@,
            r.top == Some(top),
    {
        Self { top: Some(top), ..self }
    }

    /// Render the route: the base URL, a bare `?`, then the `top`
    /// parameter if it is set.
    pub fn build(self) -> (r: String)
        ensures
            r@ == full_query(self.url@, self.params_spec()),
    {
        let ghost base = self.url@;
        let ghost mut params: Seq<(Seq<char>, Seq<char>)> = Seq::empty();
        let mut q = begin_query(self.url.as_str());
        if let Some(top) = self.top {
            let v = i32_to_string(top);
            push_param(&mut q, "top", v.as_str());
            proof {
                lemma_rendered_params_push(params, ("top"@, v@));
                params = params.push(("top"@, v@));
            }
        }
        proof {
            assert(params =~= self.params_spec());
            assert(q@ =~= full_query(base, self.params_spec()));
        }
        q
    }
}

/// With no optional parameter set, a most-actives query renders as the
/// base URL followed by a bare `?`.
pub proof fn lemma_active_stocks_bare_query(q: ActiveStocksQuery)
    requires
        q.by is None,
        q.top is None,
    ensures
        full_query(q.url@, q.params_spec()) == q.url@ + "?"@,
{
    assert(q.params_spec() =~= Seq::<(Seq<char>, Seq<char>)>::empty());
    assert(full_query(q.url@, q.params_spec()) =~= q.url@ + "?"@);
}

/// With no optional parameter set, a top-movers query renders as the
/// base URL followed by a bare `?`.
pub proof fn lemma_top_movers_bare_query(q: TopMoversQuery)
    requires
        q.top is None,
    ensures
        full_query(q.url@, q.params_spec()) == q.url@ + "?"@,
{
    assert(q.params_spec() =~= Seq::<(Seq<char>, Seq<char>)>::empty());
    assert(full_query(q.url@, q.params_spec()) =~= q.url@ + "?"@);
}

} // verus!
