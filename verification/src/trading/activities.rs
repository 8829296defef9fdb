//! Account trade activities, fetched through the pagination engine.

use crate::pagination::{
    complete_trace, paginate, valid_fetch_trace, ActivityDispatcher,
};
use crate::query::{
    begin_query, full_query, lemma_empty_params_concat, opt_list_view, opt_param, opt_str_view,
    opt_usize_view, push_opt_list_param, push_opt_str_param, push_opt_usize_param,
    rendered_params,
};
use crate::request::ApiError;
use crate::trading::order::OrderSide;
use crate::trading::AccountType;
use vstd::prelude::*;

verus! {

/// One account activity.  Identity is always present; everything else
/// arrives only when the activity's state supplies it.  Amounts and
/// timestamps are kept in their wire spellings.
#[derive(Debug, Clone)]
pub struct TradeActivity {
    pub activity_type: Option<String>,
    pub id: String,
    pub cum_qty: Option<String>,
    pub leaves_qty: Option<String>,
    pub price: Option<String>,
    pub qty: Option<String>,
    pub side: Option<OrderSide>,
    pub symbol: Option<String>,
    pub transaction_time: Option<String>,
    pub order_id: Option<String>,
    pub kind: Option<String>,
    pub order_status: Option<String>,
    pub date: Option<String>,
    pub net_amount: Option<String>,
    pub per_share_amount: Option<String>,
    pub group_id: Option<String>,
    pub status: Option<String>,
}

/// A fully configured activities query.
pub struct ActivitiesQuery<'a> {
    pub url: &'a str,
    pub activity_types: Option<Vec<&'a str>>,
    pub category: Option<&'a str>,
    pub date: Option<&'a str>,
    pub until: Option<&'a str>,
    pub after: Option<&'a str>,
    pub direction: Option<&'a str>,
    pub page_size: Option<usize>,
    pub limit: Option<usize>,
}

/// Collects activities-query fields; consumed exactly once by `build`.
pub struct ActivitiesQueryBuilder<'a> {
    pub url: Option<&'a str>,
    pub activity_types: Option<Vec<&'a str>>,
    pub category: Option<&'a str>,
    pub date: Option<&'a str>,
    pub until: Option<&'a str>,
    pub after: Option<&'a str>,
    pub direction: Option<&'a str>,
    pub page_size: Option<usize>,
    pub limit: Option<usize>,
}

impl<'a> ActivitiesQuery<'a> {
    pub fn builder() -> (r: ActivitiesQueryBuilder<'a>)
        ensures
            r == (ActivitiesQueryBuilder::<'a> {
                url: None,
                activity_types: None,
                category: None,
                date: None,
                until: None,
                after: None,
                direction: None,
                page_size: None,
                limit: None,
            }),
    {
        ActivitiesQueryBuilder {
            url: None,
            activity_types: None,
            category: None,
            date: None,
            until: None,
            after: None,
            direction: None,
            page_size: None,
            limit: None,
        }
    }

    /// The parameters this query renders, in declared field order.  The
    /// accumulation limit is the engine's to enforce and never reaches
    /// the wire.
    pub open spec fn params_spec(self) -> Seq<(Seq<char>, Seq<char>)> {
        opt_param("activity_types"@, opt_list_view(self.activity_types)) + opt_param(
            "category"@,
            opt_str_view(self.category),
        ) + opt_param("date"@, opt_str_view(self.date)) + opt_param(
            "until"@,
            opt_str_view(self.until),
        ) + opt_param("after"@, opt_str_view(self.after)) + opt_param(
            "direction"@,
            opt_str_view(self.direction),
        ) + opt_param("page_size"@, opt_usize_view(self.page_size))
    }

    /// The accumulation limit: caller-supplied, or 1000.
    pub open spec fn limit_spec(self) -> nat {
        match self.limit {
            Some(l) => l as nat,
            None => 1000,
        }
    }

    /// The expected page size: caller-supplied, or 100.
    pub open spec fn page_size_spec(self) -> nat {
        match self.page_size {
            Some(p) => p as nat,
            None => 100,
        }
    }

    /// Render the route: the base URL, a bare `?`, then every set
    /// parameter as `&name=value` in declared field order; the activity
    /// type list is joined with commas.
    pub fn build(&self) -> (r: String)
        ensures
            r@ == full_query(self.url@, self.params_spec()),
    {
        let ghost base_q = self.url@ + "?"@;
        let mut q = begin_query(self.url);
        let mut params: Ghost<Seq<(Seq<char>, Seq<char>)>> = Ghost(Seq::empty());
        proof {
            assert(q@ == base_q + rendered_params(params@));
        }
        params = push_opt_list_param(&mut q, Ghost(base_q), params, "activity_types", &self.activity_types);
        params = push_opt_str_param(&mut q, Ghost(base_q), params, "category", self.category);
        params = push_opt_str_param(&mut q, Ghost(base_q), params, "date", self.date);
        params = push_opt_str_param(&mut q, Ghost(base_q), params, "until", self.until);
        params = push_opt_str_param(&mut q, Ghost(base_q), params, "after", self.after);
        params = push_opt_str_param(&mut q, Ghost(base_q), params, "direction", self.direction);
        params = push_opt_usize_param(&mut q, Ghost(base_q), params, "page_size", self.page_size);
        proof {
            lemma_empty_params_concat(opt_param("activity_types"@, opt_list_view(self.activity_types)));
            assert(params@ == self.params_spec());
            assert(q@ == full_query(self.url@, self.params_spec()));
        }
        q
    }

    /// Fetch every page through the dispatcher, consuming the query.
    ///
    /// On success the records are exactly the concatenation of a
    /// complete fetch trace under this query's limit and page size; on
    /// failure the dispatcher's error is surfaced and everything
    /// already accumulated is discarded.
    pub fn send_with<D: ActivityDispatcher>(self, dispatcher: &mut D) -> (r: Result<
        Vec<TradeActivity>,
        ApiError,
    >)
        ensures
            match r {
                Ok(records) => exists|pages: Seq<Seq<TradeActivity>>|
                    #[trigger] complete_trace(pages, self.limit_spec(), self.page_size_spec())
                        && records@ == pages.flatten(),
                Err(_) => exists|pages: Seq<Seq<TradeActivity>>|
                    #[trigger] valid_fetch_trace(pages, self.limit_spec(), self.page_size_spec())
                        && pages.flatten().len() < self.limit_spec(),
            },
    {
        let route = self.build();
        let max_total = match self.limit {
            Some(l) => l,
            None => 1000,
        };
        let expected_page_size = match self.page_size {
            Some(p) => p,
            None => 100,
        };
        proof {
            assert(max_total as nat == self.limit_spec());
            assert(expected_page_size as nat == self.page_size_spec());
        }
        paginate(dispatcher, route, max_total, expected_page_size)
    }
}

impl<'a> ActivitiesQueryBuilder<'a> {
    /// Select the environment whose orders URL the query targets.
    pub fn url(self, account_type: AccountType) -> (r: Self)
        ensures
            r.url matches Some(u) && u@ == account_type.orders_url_spec(),
            r.activity_types == self.activity_types,
            r.category == self.category,
            r.date == self.date,
            r.until == self.until,
            r.after == self.after,
            r.direction == self.direction,
            r.page_size == self.page_size,
            r.limit == self.limit,
    {
        Self { url: Some(account_type.orders_url()), ..self }
    }

    pub fn activity_types(self, activity_types: Vec<&'a str>) -> (r: Self)
        ensures
            r == (ActivitiesQueryBuilder { activity_types: Some(activity_types), ..self }),
    {
        Self { activity_types: Some(activity_types), ..self }
    }

    pub fn category(self, category: &'a str) -> (r: Self)
        ensures
            r == (ActivitiesQueryBuilder { category: Some(category), ..self }),
    {
        Self { category: Some(category), ..self }
    }

    pub fn date(self, date: &'a str) -> (r: Self)
        ensures
            r == (ActivitiesQueryBuilder { date: Some(date), ..self }),
    {
        Self { date: Some(date), ..self }
    }

    pub fn until(self, until: &'a str) -> (r: Self)
        ensures
            r == (ActivitiesQueryBuilder { until: Some(until), ..self }),
    {
        Self { until: Some(until), ..self }
    }

    pub fn after(self, after: &'a str) -> (r: Self)
        ensures
            r == (ActivitiesQueryBuilder { after: Some(after), ..self }),
    {
        Self { after: Some(after), ..self }
    }

    pub fn direction(self, direction: &'a str) -> (r: Self)
        ensures
            r == (ActivitiesQueryBuilder { direction: Some(direction), ..self }),
    {
        Self { direction: Some(direction), ..self }
    }

    pub fn page_size(self, page_size: usize) -> (r: Self)
        ensures
            r == (ActivitiesQueryBuilder { page_size: Some(page_size), ..self }),
    {
        Self { page_size: Some(page_size), ..self }
    }

    pub fn limit(self, limit: usize) -> (r: Self)
        ensures
            r == (ActivitiesQueryBuilder { limit: Some(limit), ..self }),
    {
        Self { limit: Some(limit), ..self }
    }

    /// Consume the builder; the environment must have been selected.
    pub fn build(self) -> (r: ActivitiesQuery<'a>)
        requires
            self.url is Some,
        ensures
            r == (ActivitiesQuery {
                url: self.url.unwrap(),
                activity_types: self.activity_types,
                category: self.category,
                date: self.date,
                until: self.until,
                after: self.after,
                direction: self.direction,
                page_size: self.page_size,
                limit: self.limit,
            }),
    {
        ActivitiesQuery {
            url: self.url.unwrap(),
            activity_types: self.activity_types,
            category: self.category,
            date: self.date,
            until: self.until,
            after: self.after,
            direction: self.direction,
            page_size: self.page_size,
            limit: self.limit,
        }
    }
}

/// With no query parameter set, an activities query renders as the
/// base URL followed by a bare `?`; the accumulation limit never
/// reaches the wire.
pub proof fn lemma_activities_bare_query(q: ActivitiesQuery)
    requires
        q.activity_types is None,
        q.category is None,
        q.date is None,
        q.until is None,
        q.after is None,
        q.direction is None,
        q.page_size is None,
    ensures
        full_query(q.url@, q.params_spec()) == q.url@ + "?"@,
{
    assert(q.params_spec() =~= Seq::<(Seq<char>, Seq<char>)>::empty());
    assert(full_query(q.url@, q.params_spec()) =~= q.url@ + "?"@);
}

} // verus!
