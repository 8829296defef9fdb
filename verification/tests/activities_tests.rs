use alpaca_api_client::pagination::{paginate, should_continue, PageState};
use alpaca_api_client::request::ApiError;
use alpaca_api_client::trading::activities::{ActivitiesQuery, TradeActivity};
use alpaca_api_client::trading::AccountType;

fn activity(id: &str) -> TradeActivity {
    TradeActivity {
        activity_type: Some("FILL".to_string()),
        id: id.to_string(),
        cum_qty: None,
        leaves_qty: None,
        price: None,
        qty: None,
        side: None,
        symbol: None,
        transaction_time: None,
        order_id: None,
        kind: None,
        order_status: None,
        date: None,
        net_amount: None,
        per_share_amount: None,
        group_id: None,
        status: None,
    }
}

fn page(prefix: &str, len: usize) -> Vec<TradeActivity> {
    (0..len).map(|i| activity(&format!("{prefix}-{i}"))).collect()
}

/// Hands out a scripted list of pages, recording every URL it was
/// asked for.
struct StubDispatcher {
    calls: Vec<String>,
    pages: Vec<Result<Vec<TradeActivity>, ApiError>>,
}

impl alpaca_api_client::pagination::ActivityDispatcher for StubDispatcher {
    fn fetch(&mut self, url: &str) -> Result<Vec<TradeActivity>, ApiError> {
        self.calls.push(url.to_string());
        self.pages.remove(0)
    }
}

#[test]
fn test_get_activities_query() {
    let mut stub = StubDispatcher {
        calls: Vec::new(),
        pages: vec![Ok(page("a", 3))],
    };
    let query = ActivitiesQuery::builder().url(AccountType::Paper).build();
    let res = query.send_with(&mut stub).unwrap();
    assert!(!res.is_empty());
    assert_eq!(stub.calls, vec!["https://paper-api.alpaca.markets/v2/orders?"]);
}

#[test]
fn engine_fetches_three_pages_and_accumulates_all_records() {
    let mut stub = StubDispatcher {
        calls: Vec::new(),
        pages: vec![Ok(page("a", 100)), Ok(page("b", 100)), Ok(page("c", 37))],
    };
    let res = paginate(&mut stub, "r?".to_string(), 1000, 100).unwrap();
    assert_eq!(res.len(), 237);
    assert_eq!(stub.calls.len(), 3);
    assert_eq!(stub.calls[0], "r?");
    assert_eq!(stub.calls[1], "r?&page_token=a-99");
    assert_eq!(stub.calls[2], "r?&page_token=b-99");
    assert_eq!(res[0].id, "a-0");
    assert_eq!(res[236].id, "c-36");
}

#[test]
fn engine_accumulates_whole_page_past_the_limit_then_stops() {
    let mut stub = StubDispatcher {
        calls: Vec::new(),
        pages: vec![Ok(page("a", 100)), Ok(page("b", 100))],
    };
    let res = paginate(&mut stub, "r?".to_string(), 50, 100).unwrap();
    assert_eq!(res.len(), 100);
    assert_eq!(stub.calls.len(), 1);
}

#[test]
fn engine_discards_accumulation_when_a_fetch_fails() {
    let mut stub = StubDispatcher {
        calls: Vec::new(),
        pages: vec![
            Ok(page("a", 100)),
            Err(ApiError::Transport("connection reset".to_string())),
        ],
    };
    let res = paginate(&mut stub, "r?".to_string(), 1000, 100);
    assert_eq!(stub.calls.len(), 2);
    assert!(matches!(res, Err(ApiError::Transport(m)) if m == "connection reset"));
}

#[test]
fn engine_surfaces_status_and_deserialization_failures_unchanged() {
    let mut stub = StubDispatcher {
        calls: Vec::new(),
        pages: vec![Err(ApiError::HttpStatus(403, "forbidden".to_string()))],
    };
    assert!(matches!(
        paginate(&mut stub, "r?".to_string(), 10, 5),
        Err(ApiError::HttpStatus(403, b)) if b == "forbidden"
    ));
    let mut stub = StubDispatcher {
        calls: Vec::new(),
        pages: vec![Err(ApiError::Deserialization("bad json".to_string()))],
    };
    assert!(matches!(
        paginate(&mut stub, "r?".to_string(), 10, 5),
        Err(ApiError::Deserialization(m)) if m == "bad json"
    ));
}

#[test]
fn engine_stops_on_a_short_page_without_promoting_a_cursor() {
    let mut st = PageState::new("r?".to_string(), 1000, 100);
    assert_eq!(st.next_url().as_deref(), Some("r?"));
    st.accept_page(page("a", 40));
    assert!(st.next_url().is_none());
    assert_eq!(st.into_records().len(), 40);
}

#[test]
fn engine_asks_again_when_a_full_last_page_feigns_more_data() {
    // A final page that happens to be exactly full still triggers one
    // extra fetch; the following empty page ends the run.
    let mut stub = StubDispatcher {
        calls: Vec::new(),
        pages: vec![Ok(page("a", 100)), Ok(Vec::new())],
    };
    let res = paginate(&mut stub, "r?".to_string(), 1000, 100).unwrap();
    assert_eq!(res.len(), 100);
    assert_eq!(stub.calls.len(), 2);
}

#[test]
fn engine_with_zero_limit_fetches_nothing() {
    let mut stub = StubDispatcher { calls: Vec::new(), pages: vec![] };
    let res = paginate(&mut stub, "r?".to_string(), 0, 100).unwrap();
    assert!(res.is_empty());
    assert!(stub.calls.is_empty());
}

#[test]
fn page_is_full_only_at_the_exact_expected_size() {
    assert!(should_continue(100, 100));
    assert!(!should_continue(99, 100));
    assert!(!should_continue(101, 100));
    assert!(!should_continue(0, 0));
}

#[test]
fn activities_query_renders_parameters_in_declared_order() {
    let query = ActivitiesQuery::builder()
        .url(AccountType::Live)
        .activity_types(vec!["FILL", "TRANS"])
        .direction("desc")
        .page_size(50)
        .limit(300)
        .build();
    let route = query.build();
    assert_eq!(
        route,
        "https://api.alpaca.markets/v2/orders?&activity_types=FILL,TRANS&direction=desc&page_size=50"
    );
}

#[test]
fn send_with_uses_the_configured_page_size_and_limit() {
    let mut stub = StubDispatcher {
        calls: Vec::new(),
        pages: vec![Ok(page("a", 2)), Ok(page("b", 1))],
    };
    let query = ActivitiesQuery::builder()
        .url(AccountType::Paper)
        .page_size(2)
        .limit(3)
        .build();
    let res = query.send_with(&mut stub).unwrap();
    assert_eq!(res.len(), 3);
    assert_eq!(stub.calls.len(), 2);
    assert_eq!(
        stub.calls[1],
        "https://paper-api.alpaca.markets/v2/orders?&page_size=2&page_token=a-1"
    );
}
