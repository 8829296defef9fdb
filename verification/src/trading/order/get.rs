//! Listing orders and fetching one by id: `GET /v2/orders`.

use crate::query::{
    begin_query, bool_rep, bool_to_str, comma_joined, count_char, full_query,
    lemma_bool_rep_amp_free, lemma_count_char_concat, lemma_count_char_zero,
    lemma_dec_rep_amp_free, lemma_empty_params_concat, lemma_opt_param_amp_count,
    lemma_rendered_params_concat, opt_bool_view, opt_list_view, opt_param, opt_str_view,
    opt_usize_view, push_opt_bool_param, push_opt_list_param, push_opt_str_param,
    push_opt_usize_param, rendered_params,
};
use crate::request::{ApiRequest, HttpMethod};
use crate::trading::AccountType;
use vstd::prelude::*;

verus! {

/// A fully configured list-orders request.
pub struct GetOrdersQuery<'a> {
    pub url: &'a str,
    pub status: Option<&'a str>,
    pub limit: Option<usize>,
    pub after: Option<&'a str>,
    pub until: Option<&'a str>,
    pub direction: Option<&'a str>,
    pub nested: Option<bool>,
    pub symbols: Option<Vec<&'a str>>,
    pub side: Option<&'a str>,
}

/// Collects list-orders fields; consumed exactly once by `build`.
pub struct GetOrdersQueryBuilder<'a> {
    pub url: Option<&'a str>,
    pub status: Option<&'a str>,
    pub limit: Option<usize>,
    pub after: Option<&'a str>,
    pub until: Option<&'a str>,
    pub direction: Option<&'a str>,
    pub nested: Option<bool>,
    pub symbols: Option<Vec<&'a str>>,
    pub side: Option<&'a str>,
}

impl<'a> GetOrdersQuery<'a> {
    pub fn builder() -> (r: GetOrdersQueryBuilder<'a>)
        ensures
            r == (GetOrdersQueryBuilder::<'a> {
                url: None,
                status: None,
                limit: None,
                after: None,
                until: None,
                direction: None,
                nested: None,
                symbols: None,
                side: None,
            }),
    {
        GetOrdersQueryBuilder {
            url: None,
            status: None,
            limit: None,
            after: None,
            until: None,
            direction: None,
            nested: None,
            symbols: None,
            side: None,
        }
    }

    /// The parameters this query renders, in declared field order.
    pub open spec fn params_spec(self) -> Seq<(Seq<char>, Seq<char>)> {
        opt_param("status"@, opt_str_view(self.status)) + opt_param(
            "limit"@,
            opt_usize_view(self.limit),
        ) + opt_param("after"@, opt_str_view(self.after)) + opt_param(
            "until"@,
            opt_str_view(self.until),
        ) + opt_param("direction"@, opt_str_view(self.direction)) + opt_param(
            "nested"@,
            opt_bool_view(self.nested),
        ) + opt_param("symbols"@, opt_list_view(self.symbols)) + opt_param(
            "side"@,
            opt_str_view(self.side),
        )
    }

    /// Render the route: the base URL, a bare `?`, then every set
    /// parameter as `&name=value` in declared field order; the symbol
    /// list is joined with commas.
    pub fn build(self) -> (r: String)
        ensures
            r@ == full_query(self.url@, self.params_spec()),
    {
        let ghost base_q = self.url@ + "?"@;
        let mut q = begin_query(self.url);
        let mut params: Ghost<Seq<(Seq<char>, Seq<char>)>> = Ghost(Seq::empty());
        proof {
            assert(q@ == base_q + rendered_params(params@));
        }
        params = push_opt_str_param(&mut q, Ghost(base_q), params, "status", self.status);
        params = push_opt_usize_param(&mut q, Ghost(base_q), params, "limit", self.limit);
        params = push_opt_str_param(&mut q, Ghost(base_q), params, "after", self.after);
        params = push_opt_str_param(&mut q, Ghost(base_q), params, "until", self.until);
        params = push_opt_str_param(&mut q, Ghost(base_q), params, "direction", self.direction);
        params = push_opt_bool_param(&mut q, Ghost(base_q), params, "nested", self.nested);
        params = push_opt_list_param(&mut q, Ghost(base_q), params, "symbols", &self.symbols);
        params = push_opt_str_param(&mut q, Ghost(base_q), params, "side", self.side);
        proof {
            lemma_empty_params_concat(opt_param("status"@, opt_str_view(self.status)));
            assert(params@ == self.params_spec());
            assert(q@ == full_query(self.url@, self.params_spec()));
        }
        q
    }

    /// The fully-formed list request: `GET` on the rendered route.
    pub fn into_request(self) -> (r: ApiRequest)
        ensures
            r.method == HttpMethod::Get,
            r.url@ == full_query(self.url@, self.params_spec()),
            r.body is None,
    {
        let url = self.build();
        ApiRequest { method: HttpMethod::Get, url, body: None }
    }

    /// The fully-formed get-by-id request: `GET {url}/{id}?&nested=...`.
    pub fn get_by_id_request(self, id: &str, nested: bool) -> (r: ApiRequest)
        ensures
            r.method == HttpMethod::Get,
            r.url@ == self.url@ + "/"@ + id@ + "?&nested="@ + bool_rep(nested),
            r.body is None,
    {
        let mut url = String::from_str(self.url);
        url.append("/");
        url.append(id);
        url.append("?&nested=");
        url.append(bool_to_str(nested));
        ApiRequest { method: HttpMethod::Get, url, body: None }
    }
}

impl<'a> GetOrdersQueryBuilder<'a> {
    /// Select the environment whose orders URL the query targets.
    pub fn url(self, account_type: AccountType) -> (r: Self)
        ensures
            r.url matches Some(u) && u@ == account_type.orders_url_spec(),
            r.status == self.status,
            r.limit == self.limit,
            r.after == self.after,
            r.until == self.until,
            r.direction == self.direction,
            r.nested == self.nested,
            r.symbols == self.symbols,
            r.side == self.side,
    {
        Self { url: Some(account_type.orders_url()), ..self }
    }

    pub fn status(self, status: &'a str) -> (r: Self)
        ensures
            r == (GetOrdersQueryBuilder { status: Some(status), ..self }),
    {
        Self { status: Some(status), ..self }
    }

    pub fn limit(self, limit: usize) -> (r: Self)
        ensures
            r == (GetOrdersQueryBuilder { limit: Some(limit), ..self }),
    {
        Self { limit: Some(limit), ..self }
    }

    pub fn after(self, after: &'a str) -> (r: Self)
        ensures
            r == (GetOrdersQueryBuilder { after: Some(after), ..self }),
    {
        Self { after: Some(after), ..self }
    }

    pub fn until(self, until: &'a str) -> (r: Self)
        ensures
            r == (GetOrdersQueryBuilder { until: Some(until), ..self }),
    {
        Self { until: Some(until), ..self }
    }

    pub fn direction(self, direction: &'a str) -> (r: Self)
        ensures
            r == (GetOrdersQueryBuilder { direction: Some(direction), ..self }),
    {
        Self { direction: Some(direction), ..self }
    }

    pub fn nested(self, nested: bool) -> (r: Self)
        ensures
            r == (GetOrdersQueryBuilder { nested: Some(nested), ..self }),
    {
        Self { nested: Some(nested), ..self }
    }

    pub fn symbols(self, symbols: Vec<&'a str>) -> (r: Self)
        ensures
            r == (GetOrdersQueryBuilder { symbols: Some(symbols), ..self }),
    {
        Self { symbols: Some(symbols), ..self }
    }

    pub fn side(self, side: &'a str) -> (r: Self)
        ensures
            r == (GetOrdersQueryBuilder { side: Some(side), ..self }),
    {
        Self { side: Some(side), ..self }
    }

    /// Consume the builder; the environment must have been selected.
    pub fn build(self) -> (r: GetOrdersQuery<'a>)
        requires
            self.url is Some,
        ensures
            r == (GetOrdersQuery {
                url: self.url.unwrap(),
                status: self.status,
                limit: self.limit,
                after: self.after,
                until: self.until,
                direction: self.direction,
                nested: self.nested,
                symbols: self.symbols,
                side: self.side,
            }),
    {
        GetOrdersQuery {
            url: self.url.unwrap(),
            status: self.status,
            limit: self.limit,
            after: self.after,
            until: self.until,
            direction: self.direction,
            nested: self.nested,
            symbols: self.symbols,
            side: self.side,
        }
    }
}

/// With no optional parameter set, a list-orders query renders as the
/// base URL followed by a bare `?`.
pub proof fn lemma_get_orders_bare_query(q: GetOrdersQuery)
    requires
        q.status is None,
        q.limit is None,
        q.after is None,
        q.until is None,
        q.direction is None,
        q.nested is None,
        q.symbols is None,
        q.side is None,
    ensures
        full_query(q.url@, q.params_spec()) == q.url@ + "?"@,
{
    assert(q.params_spec() =~= Seq::<(Seq<char>, Seq<char>)>::empty());
    assert(full_query(q.url@, q.params_spec()) =~= q.url@ + "?"@);
}

/// With N optional parameters set and no parameter value holding a
/// literal `&` of its own, the rendered parameter string of a
/// list-orders query holds exactly N `&key=value` groups, one per set
/// parameter, in declared field order.
#[verifier::rlimit(100)]
#[verifier::spinoff_prover]
pub proof fn lemma_get_orders_group_count(q: GetOrdersQuery)
    requires
        q.status matches Some(s) ==> count_char(s@, '&') == 0,
        q.after matches Some(s) ==> count_char(s@, '&') == 0,
        q.until matches Some(s) ==> count_char(s@, '&') == 0,
        q.direction matches Some(s) ==> count_char(s@, '&') == 0,
        q.side matches Some(s) ==> count_char(s@, '&') == 0,
        q.symbols matches Some(vs) ==> count_char(comma_joined(vs.deep_view()), '&') == 0,
    ensures
        count_char(rendered_params(q.params_spec()), '&') == q.params_spec().len(),
{
    reveal_strlit("status");
    reveal_strlit("limit");
    reveal_strlit("after");
    reveal_strlit("until");
    reveal_strlit("direction");
    reveal_strlit("nested");
    reveal_strlit("symbols");
    reveal_strlit("side");
    lemma_count_char_zero("status"@, '&');
    lemma_count_char_zero("limit"@, '&');
    lemma_count_char_zero("after"@, '&');
    lemma_count_char_zero("until"@, '&');
    lemma_count_char_zero("direction"@, '&');
    lemma_count_char_zero("nested"@, '&');
    lemma_count_char_zero("symbols"@, '&');
    lemma_count_char_zero("side"@, '&');
    match q.limit {
        Some(n) => lemma_dec_rep_amp_free(n as nat),
        None => (),
    }
    match q.nested {
        Some(b) => lemma_bool_rep_amp_free(b),
        None => (),
    }
    let o1 = opt_param("status"@, opt_str_view(q.status));
    let o2 = opt_param("limit"@, opt_usize_view(q.limit));
    let o3 = opt_param("after"@, opt_str_view(q.after));
    let o4 = opt_param("until"@, opt_str_view(q.until));
    let o5 = opt_param("direction"@, opt_str_view(q.direction));
    let o6 = opt_param("nested"@, opt_bool_view(q.nested));
    let o7 = opt_param("symbols"@, opt_list_view(q.symbols));
    let o8 = opt_param("side"@, opt_str_view(q.side));
    lemma_opt_param_amp_count("status"@, opt_str_view(q.status));
    lemma_opt_param_amp_count("limit"@, opt_usize_view(q.limit));
    lemma_opt_param_amp_count("after"@, opt_str_view(q.after));
    lemma_opt_param_amp_count("until"@, opt_str_view(q.until));
    lemma_opt_param_amp_count("direction"@, opt_str_view(q.direction));
    lemma_opt_param_amp_count("nested"@, opt_bool_view(q.nested));
    lemma_opt_param_amp_count("symbols"@, opt_list_view(q.symbols));
    lemma_opt_param_amp_count("side"@, opt_str_view(q.side));
    lemma_rendered_params_concat(o1, o2);
    lemma_count_char_concat(rendered_params(o1), rendered_params(o2), '&');
    lemma_rendered_params_concat(o1 + o2, o3);
    lemma_count_char_concat(rendered_params(o1 + o2), rendered_params(o3), '&');
    lemma_rendered_params_concat(o1 + o2 + o3, o4);
    lemma_count_char_concat(rendered_params(o1 + o2 + o3), rendered_params(o4), '&');
    lemma_rendered_params_concat(o1 + o2 + o3 + o4, o5);
    lemma_count_char_concat(rendered_params(o1 + o2 + o3 + o4), rendered_params(o5), '&');
    lemma_rendered_params_concat(o1 + o2 + o3 + o4 + o5, o6);
    lemma_count_char_concat(rendered_params(o1 + o2 + o3 + o4 + o5), rendered_params(o6), '&');
    lemma_rendered_params_concat(o1 + o2 + o3 + o4 + o5 + o6, o7);
    lemma_count_char_concat(rendered_params(o1 + o2 + o3 + o4 + o5 + o6), rendered_params(o7), '&');
    lemma_rendered_params_concat(o1 + o2 + o3 + o4 + o5 + o6 + o7, o8);
    lemma_count_char_concat(
        rendered_params(o1 + o2 + o3 + o4 + o5 + o6 + o7),
        rendered_params(o8),
        '&',
    );
}

} // verus!
