//! Portfolio history: `GET /v2/account/portfolio/history`.

use crate::query::{
    begin_query, full_query, lemma_empty_params_concat, lemma_rendered_params_push, opt_list_view,
    opt_param, opt_str_view, param_group, push_opt_list_param, push_opt_str_param, push_param,
    rendered_params,
};
use vstd::seq_lib::lemma_concat_associative;
use crate::request::{ApiRequest, HttpMethod};
use crate::timeframe::TimeFrame;
use crate::trading::AccountType;
use vstd::prelude::*;

verus! {

/// A fully configured portfolio-history request.
pub struct PortfolioHistoryQuery<'a> {
    pub url: &'a str,
    pub period: Option<&'a str>,
    pub timeframe: Option<TimeFrame>,
    pub intraday_reporting: Option<&'a str>,
    pub start: Option<&'a str>,
    pub end: Option<&'a str>,
    pub pnl_reset: Option<&'a str>,
    pub date_end: Option<&'a str>,
    pub extended_hours: Option<&'a str>,
    pub cashflow_types: Option<Vec<&'a str>>,
}

/// The rendered value of an optional time frame parameter.
pub open spec fn opt_timeframe_view(v: Option<TimeFrame>) -> Option<Seq<char>> {
    match v {
        Some(tf) => Some(tf.wire_spec()),
        None => None,
    }
}

/// Append the optional time frame parameter, keeping the rendered query
/// and the parameter list in step.
fn push_opt_timeframe_param(
    q: &mut String,
    base: Ghost<Seq<char>>,
    params: Ghost<Seq<(Seq<char>, Seq<char>)>>,
    value: Option<TimeFrame>,
) -> (r: Ghost<Seq<(Seq<char>, Seq<char>)>>)
    requires
        old(q)@ == base@ + rendered_params(params@),
    ensures
        r@ == params@ + opt_param("timeframe"@, opt_timeframe_view(value)),
        final(q)@ == base@ + rendered_params(r@),
{
    let ghost result = params@ + opt_param("timeframe"@, opt_timeframe_view(value));
    if let Some(tf) = value {
        push_param(q, "timeframe", tf.as_str());
        proof {
            lemma_rendered_params_push(params@, ("timeframe"@, tf.wire_spec()));
            lemma_concat_associative(
                base@,
                rendered_params(params@),
                param_group("timeframe"@, tf.wire_spec()),
            );
            assert(params@.push(("timeframe"@, tf.wire_spec())) =~= result);
        }
    } else {
        proof {
            assert(result =~= params@);
        }
    }
    Ghost(result)
}

impl<'a> PortfolioHistoryQuery<'a> {
    /// A fresh query against the environment's portfolio-history URL,
    /// with no parameter set.
    pub fn new(account_type: AccountType) -> (r: Self)
        ensures
            r.url@ == account_type.portfolio_history_url_spec(),
            r.period is None,
            r.timeframe is None,
            r.intraday_reporting is None,
            r.start is None,
            r.end is None,
            r.pnl_reset is None,
            r.date_end is None,
            r.extended_hours is None,
            r.cashflow_types is None,
    {
        Self {
            url: account_type.portfolio_history_url(),
            period: None,
            timeframe: None,
            intraday_reporting: None,
            start: None,
            end: None,
            pnl_reset: None,
            date_end: None,
            extended_hours: None,
            cashflow_types: None,
        }
    }

    /// The parameters this query renders, in declared field order.
    pub open spec fn params_spec(self) -> Seq<(Seq<char>, Seq<char>)> {
        opt_param("period"@, opt_str_view(self.period)) + opt_param(
            "timeframe"@,
            opt_timeframe_view(self.timeframe),
        ) + opt_param("intraday_reporting"@, opt_str_view(self.intraday_reporting)) + opt_param(
            "start"@,
            opt_str_view(self.start),
        ) + opt_param("end"@, opt_str_view(self.end)) + opt_param(
            "pnl_reset"@,
            opt_str_view(self.pnl_reset),
        ) + opt_param("date_end"@, opt_str_view(self.date_end)) + opt_param(
            "extended_hours"@,
            opt_str_view(self.extended_hours),
        ) + opt_param("cashflow_types"@, opt_list_view(self.cashflow_types))
    }

    /// Render the route: the base URL, a bare `?`, then every set
    /// parameter as `&name=value` in declared field order; the cashflow
    /// type list is joined with commas.
    pub fn build(self) -> (r: String)
        ensures
            r@ == full_query(self.url@, self.params_spec()),
    {
        let ghost base_q = self.url@ + "?"@;
        let mut q = begin_query(self.url);
        let mut params: Ghost<Seq<(Seq<char>, Seq<char>)>> = Ghost(Seq::empty());
        proof {
            assert(q@ == base_q + rendered_params(params@));
        }
        params = push_opt_str_param(&mut q, Ghost(base_q), params, "period", self.period);
        params = push_opt_timeframe_param(&mut q, Ghost(base_q), params, self.timeframe);
        params = push_opt_str_param(&mut q, Ghost(base_q), params, "intraday_reporting", self.intraday_reporting);
        params = push_opt_str_param(&mut q, Ghost(base_q), params, "start", self.start);
        params = push_opt_str_param(&mut q, Ghost(base_q), params, "end", self.end);
        params = push_opt_str_param(&mut q, Ghost(base_q), params, "pnl_reset", self.pnl_reset);
        params = push_opt_str_param(&mut q, Ghost(base_q), params, "date_end", self.date_end);
        params = push_opt_str_param(&mut q, Ghost(base_q), params, "extended_hours", self.extended_hours);
        params = push_opt_list_param(&mut q, Ghost(base_q), params, "cashflow_types", &self.cashflow_types);
        proof {
            lemma_empty_params_concat(opt_param("period"@, opt_str_view(self.period)));
            assert(params@ == self.params_spec());
            assert(q@ == full_query(self.url@, self.params_spec()));
        }
        q
    }

    /// The fully-formed request: `GET` on the rendered route.
    pub fn into_request(self) -> (r: ApiRequest)
        ensures
            r.method == HttpMethod::Get,
            r.url@ == full_query(self.url@, self.params_spec()),
            r.body is None,
    {
        let url = self.build();
        ApiRequest { method: HttpMethod::Get, url, body: None }
    }
}

/// With no optional parameter set, a portfolio-history query renders
/// as the base URL followed by a bare `?`.
pub proof fn lemma_portfolio_history_bare_query(q: PortfolioHistoryQuery)
    requires
        q.period is None,
        q.timeframe is None,
        q.intraday_reporting is None,
        q.start is None,
        q.end is None,
        q.pnl_reset is None,
        q.date_end is None,
        q.extended_hours is None,
        q.cashflow_types is None,
    ensures
        full_query(q.url@, q.params_spec()) == q.url@ + "?"@,
{
    assert(q.params_spec() =~= Seq::<(Seq<char>, Seq<char>)>::empty());
    assert(full_query(q.url@, q.params_spec()) =~= q.url@ + "?"@);
}

} // verus!
