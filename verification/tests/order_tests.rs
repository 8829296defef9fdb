use alpaca_api_client::request::HttpMethod;
use alpaca_api_client::trading::order::{
    CreateOrderQuery, GetOrdersQuery, OrderClass, OrderSide, OrderType, ReplaceOrderQuery,
    StopLoss, TakeProfit, TimeInForce,
};
use alpaca_api_client::trading::AccountType;

#[test]
fn test_create_market_order() {
    let req = CreateOrderQuery::builder()
        .symbol("AAPL")
        .side(OrderSide::Buy)
        .order_type(OrderType::Market)
        .qty("1")
        .build()
        .into_request(AccountType::Paper);
    assert_eq!(req.method, HttpMethod::Post);
    assert_eq!(req.url, "https://paper-api.alpaca.markets/v2/orders");
    assert_eq!(
        req.body.as_deref(),
        Some(
            "{\"symbol\":\"AAPL\",\"side\":\"buy\",\"type\":\"market\",\"time_in_force\":\"day\",\"extend_hours\":false,\"qty\":\"1\"}"
        )
    );
}

#[test]
fn test_create_limit_order() {
    let req = CreateOrderQuery::builder()
        .symbol("AAPL")
        .side(OrderSide::Buy)
        .order_type(OrderType::Limit)
        .time_in_force(TimeInForce::GoodTilCanceled)
        .limit_price("100")
        .qty("1")
        .build()
        .into_request(AccountType::Paper);
    assert_eq!(
        req.body.as_deref(),
        Some(
            "{\"symbol\":\"AAPL\",\"side\":\"buy\",\"type\":\"limit\",\"time_in_force\":\"gtc\",\"extend_hours\":false,\"qty\":\"1\",\"limit_price\":\"100\"}"
        )
    );
}

#[test]
fn test_create_stop_order() {
    let req = CreateOrderQuery::builder()
        .symbol("AAPL")
        .side(OrderSide::Buy)
        .order_type(OrderType::Stop)
        .time_in_force(TimeInForce::GoodTilCanceled)
        .stop_price("100")
        .qty("1")
        .build()
        .into_request(AccountType::Paper);
    assert_eq!(
        req.body.as_deref(),
        Some(
            "{\"symbol\":\"AAPL\",\"side\":\"buy\",\"type\":\"stop\",\"time_in_force\":\"gtc\",\"extend_hours\":false,\"qty\":\"1\",\"stop_price\":\"100\"}"
        )
    );
}

#[test]
fn test_create_stop_limit_order() {
    let req = CreateOrderQuery::builder()
        .symbol("AAPL")
        .side(OrderSide::Buy)
        .order_type(OrderType::StopLimit)
        .time_in_force(TimeInForce::GoodTilCanceled)
        .stop_price("100")
        .limit_price("200")
        .qty("1")
        .build()
        .into_request(AccountType::Paper);
    assert_eq!(
        req.body.as_deref(),
        Some(
            "{\"symbol\":\"AAPL\",\"side\":\"buy\",\"type\":\"stop_limit\",\"time_in_force\":\"gtc\",\"extend_hours\":false,\"qty\":\"1\",\"limit_price\":\"200\",\"stop_price\":\"100\"}"
        )
    );
}

#[test]
fn test_create_trailing_stop_order() {
    let req = CreateOrderQuery::builder()
        .symbol("AAPL")
        .side(OrderSide::Buy)
        .order_type(OrderType::TrailingStop)
        .time_in_force(TimeInForce::GoodTilCanceled)
        .qty("1")
        .trail_percent("10")
        .build()
        .into_request(AccountType::Paper);
    assert_eq!(
        req.body.as_deref(),
        Some(
            "{\"symbol\":\"AAPL\",\"side\":\"buy\",\"type\":\"trailing_stop\",\"time_in_force\":\"gtc\",\"extend_hours\":false,\"qty\":\"1\",\"trail_percent\":\"10\"}"
        )
    );
}

#[test]
fn test_create_bracket_order() {
    let req = CreateOrderQuery::builder()
        .symbol("AAPL")
        .side(OrderSide::Buy)
        .order_type(OrderType::Market)
        .time_in_force(TimeInForce::GoodTilCanceled)
        .qty("1")
        .order_class(OrderClass::Bracket)
        .take_profit(TakeProfit::new("300"))
        .stop_loss(StopLoss::new("200", "199"))
        .build()
        .into_request(AccountType::Paper);
    assert_eq!(
        req.body.as_deref(),
        Some(
            "{\"symbol\":\"AAPL\",\"side\":\"buy\",\"type\":\"market\",\"time_in_force\":\"gtc\",\"extend_hours\":false,\"qty\":\"1\",\"order_class\":\"bracket\",\"take_profit\":{\"limit_price\":\"300\"},\"stop_loss\":{\"stop_price\":\"200\",\"limit_price\":\"199\"}}"
        )
    );
}

#[test]
fn test_create_oco_order() {
    let req = CreateOrderQuery::builder()
        .symbol("AAPL")
        .side(OrderSide::Buy)
        .order_type(OrderType::Limit)
        .time_in_force(TimeInForce::GoodTilCanceled)
        .qty("1")
        .order_class(OrderClass::OneCancelsOther)
        .take_profit(TakeProfit::new("199"))
        .stop_loss(StopLoss::new("200", "201"))
        .build()
        .into_request(AccountType::Paper);
    assert_eq!(
        req.body.as_deref(),
        Some(
            "{\"symbol\":\"AAPL\",\"side\":\"buy\",\"type\":\"limit\",\"time_in_force\":\"gtc\",\"extend_hours\":false,\"qty\":\"1\",\"order_class\":\"oco\",\"take_profit\":{\"limit_price\":\"199\"},\"stop_loss\":{\"stop_price\":\"200\",\"limit_price\":\"201\"}}"
        )
    );
}

#[test]
fn test_create_oto_order() {
    let req = CreateOrderQuery::builder()
        .symbol("AAPL")
        .side(OrderSide::Buy)
        .order_type(OrderType::Market)
        .time_in_force(TimeInForce::GoodTilCanceled)
        .qty("1")
        .order_class(OrderClass::OneTriggersOther)
        .stop_loss(StopLoss::new("200", "189"))
        .build()
        .into_request(AccountType::Paper);
    assert_eq!(
        req.body.as_deref(),
        Some(
            "{\"symbol\":\"AAPL\",\"side\":\"buy\",\"type\":\"market\",\"time_in_force\":\"gtc\",\"extend_hours\":false,\"qty\":\"1\",\"order_class\":\"oto\",\"stop_loss\":{\"stop_price\":\"200\",\"limit_price\":\"189\"}}"
        )
    );
}

#[test]
fn test_get_all_orders_query() {
    let route = GetOrdersQuery::builder()
        .url(AccountType::Paper)
        .status("closed")
        .build()
        .build();
    assert_eq!(route, "https://paper-api.alpaca.markets/v2/orders?&status=closed");
}

#[test]
fn test_replace_order() {
    let req = ReplaceOrderQuery::builder()
        .order_id("615bbc4d-966c-470e-bc37-fd0ae3218927")
        .qty("2")
        .build()
        .into_request(AccountType::Paper);
    assert_eq!(req.method, HttpMethod::Patch);
    assert_eq!(
        req.url,
        "https://paper-api.alpaca.markets/v2/orders/615bbc4d-966c-470e-bc37-fd0ae3218927"
    );
    assert_eq!(req.body.as_deref(), Some("{\"qty\":\"2\"}"));
}

#[test]
fn get_orders_symbols_join_with_commas() {
    let route = GetOrdersQuery::builder()
        .url(AccountType::Live)
        .symbols(vec!["AAPL", "TSLA", "MSFT"])
        .nested(true)
        .build()
        .build();
    assert_eq!(
        route,
        "https://api.alpaca.markets/v2/orders?&nested=true&symbols=AAPL,TSLA,MSFT"
    );
}

#[test]
fn get_orders_without_parameters_renders_bare_question_mark() {
    let route = GetOrdersQuery::builder().url(AccountType::Paper).build().build();
    assert_eq!(route, "https://paper-api.alpaca.markets/v2/orders?");
}

#[test]
fn get_orders_limit_renders_in_decimal() {
    let route = GetOrdersQuery::builder()
        .url(AccountType::Paper)
        .limit(250)
        .build()
        .build();
    assert_eq!(route, "https://paper-api.alpaca.markets/v2/orders?&limit=250");
}

#[test]
fn get_orders_limit_renders_the_largest_value() {
    let route = GetOrdersQuery::builder()
        .url(AccountType::Paper)
        .limit(usize::MAX)
        .build()
        .build();
    assert_eq!(
        route,
        format!("https://paper-api.alpaca.markets/v2/orders?&limit={}", usize::MAX)
    );
}

#[test]
fn get_order_by_id_route_carries_nested_flag() {
    let req = GetOrdersQuery::builder()
        .url(AccountType::Paper)
        .build()
        .get_by_id_request("3c9067a5-6553-40e5-ba56-b4fec94119dd", true);
    assert_eq!(req.method, HttpMethod::Get);
    assert_eq!(
        req.url,
        "https://paper-api.alpaca.markets/v2/orders/3c9067a5-6553-40e5-ba56-b4fec94119dd?&nested=true"
    );
    assert!(req.body.is_none());
}

#[test]
fn body_escapes_quotes_and_control_characters() {
    let req = CreateOrderQuery::builder()
        .symbol("A\"B\\C\nD\u{1}E")
        .side(OrderSide::Sell)
        .order_type(OrderType::Market)
        .build()
        .into_request(AccountType::Paper);
    assert_eq!(
        req.body.as_deref(),
        Some(
            "{\"symbol\":\"A\\\"B\\\\C\\nD\\u0001E\",\"side\":\"sell\",\"type\":\"market\",\"time_in_force\":\"day\",\"extend_hours\":false}"
        )
    );
}

#[test]
fn wire_names_of_enumerations() {
    assert_eq!(OrderSide::Buy.as_str(), "buy");
    assert_eq!(OrderSide::Sell.as_str(), "sell");
    assert_eq!(OrderType::StopLimit.as_str(), "stop_limit");
    assert_eq!(TimeInForce::GoodTilCanceled.as_str(), "gtc");
    assert_eq!(TimeInForce::OpeningOrder.as_str(), "opg");
    assert_eq!(TimeInForce::ClosingOrder.as_str(), "cls");
    assert_eq!(TimeInForce::ImmediateOrCancel.as_str(), "ioc");
    assert_eq!(TimeInForce::FillOrKill.as_str(), "fok");
    assert_eq!(OrderClass::Simple.as_str(), "");
    assert_eq!(OrderClass::OneCancelsOther.as_str(), "oco");
    assert_eq!(OrderClass::OneTriggersOther.as_str(), "oto");
}
