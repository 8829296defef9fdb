use alpaca_api_client::request::HttpMethod;
use alpaca_api_client::trading::portfolio::PortfolioHistoryQuery;
use alpaca_api_client::trading::AccountType;
use alpaca_api_client::TimeFrame;

#[test]
fn test_get_portfolio_history() {
    let route = PortfolioHistoryQuery::new(AccountType::Paper).build();
    assert!(!route.is_empty());
    assert_eq!(route, "https://paper-api.alpaca.markets/v2/account/portfolio/history?");
}

#[test]
fn portfolio_history_renders_parameters_in_declared_order() {
    let mut query = PortfolioHistoryQuery::new(AccountType::Live);
    query.period = Some("1M");
    query.timeframe = Some(TimeFrame::OneDay);
    query.extended_hours = Some("true");
    query.cashflow_types = Some(vec!["DIV", "INT"]);
    let route = query.build();
    assert_eq!(
        route,
        "https://api.alpaca.markets/v2/account/portfolio/history?&period=1M&timeframe=1D&extended_hours=true&cashflow_types=DIV,INT"
    );
}

#[test]
fn portfolio_history_request_is_a_get_without_body() {
    let req = PortfolioHistoryQuery::new(AccountType::Paper).into_request();
    assert_eq!(req.method, HttpMethod::Get);
    assert!(req.body.is_none());
}
