use alpaca_api_client::market_data::screener::{ActiveStocksQuery, MarketType, TopMoversQuery};

#[test]
fn test_active_stocks_query() {
    let route = ActiveStocksQuery::default().by_metric("volume").top(5).build();
    assert_eq!(
        route,
        "https://data.alpaca.markets/v1beta1/screener/stocks/most-actives?&by=volume&top=5"
    );
}

#[test]
fn test_top_movers_query() {
    let route = TopMoversQuery::new(MarketType::Stocks).top(5).build();
    assert_eq!(route, "https://data.alpaca.markets/v1beta1/screener/stocks/movers?&top=5");
}

#[test]
fn active_stocks_without_parameters_renders_bare_question_mark() {
    let route = ActiveStocksQuery::default().build();
    assert_eq!(route, "https://data.alpaca.markets/v1beta1/screener/stocks/most-actives?");
}

#[test]
fn top_movers_without_parameters_renders_bare_question_mark() {
    let route = TopMoversQuery::new(MarketType::Crypto).build();
    assert_eq!(route, "https://data.alpaca.markets/v1beta1/screener/crypto/movers?");
}

#[test]
fn negative_top_renders_with_sign() {
    let route = ActiveStocksQuery::default().top(-12).build();
    assert_eq!(
        route,
        "https://data.alpaca.markets/v1beta1/screener/stocks/most-actives?&top=-12"
    );
}

#[test]
fn large_top_renders_all_digits() {
    let route = ActiveStocksQuery::default().top(1204567).build();
    assert_eq!(
        route,
        "https://data.alpaca.markets/v1beta1/screener/stocks/most-actives?&top=1204567"
    );
}

#[test]
fn market_type_wire_names() {
    assert_eq!(MarketType::Stocks.as_str(), "stocks");
    assert_eq!(MarketType::Crypto.as_str(), "crypto");
}
