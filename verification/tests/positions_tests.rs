use alpaca_api_client::request::HttpMethod;
use alpaca_api_client::trading::positions::{close_all_success, PositionSide, PositionsQuery};
use alpaca_api_client::trading::AccountType;

#[test]
fn test_get_all_positions_query() {
    let req = PositionsQuery::new(AccountType::Paper).all_open_positions_request();
    assert_eq!(req.method, HttpMethod::Get);
    assert_eq!(req.url, "https://paper-api.alpaca.markets/v2/positions");
    assert!(req.body.is_none());
}

#[test]
fn test_get_position_by_symbol() {
    let req = PositionsQuery::new(AccountType::Paper).position_by_symbol_request("AAPL");
    assert_eq!(req.url, "https://paper-api.alpaca.markets/v2/positions/AAPL");
}

#[test]
fn test_get_position_by_id() {
    let req = PositionsQuery::new(AccountType::Paper)
        .position_by_id_request("b0b6dd9d-8b9b-48a9-ba46-b9d54906e415");
    assert_eq!(
        req.url,
        "https://paper-api.alpaca.markets/v2/positions/b0b6dd9d-8b9b-48a9-ba46-b9d54906e415"
    );
}

#[test]
fn test_close_all_positions() {
    let req = PositionsQuery::new(AccountType::Paper).close_all_positions_request(true);
    assert_eq!(req.method, HttpMethod::Delete);
    assert_eq!(req.url, "https://paper-api.alpaca.markets/v2/positions?cancel_orders=true");
}

#[test]
fn test_close_position_by_id_or_symbol() {
    let req = PositionsQuery::new(AccountType::Paper).close_position_request(
        "b0b6dd9d-8b9b-48a9-ba46-b9d54906e415",
        Some("1"),
        None,
    );
    assert_eq!(req.method, HttpMethod::Delete);
    assert_eq!(
        req.url,
        "https://paper-api.alpaca.markets/v2/positions/b0b6dd9d-8b9b-48a9-ba46-b9d54906e415?&qty=1"
    );
}

#[test]
fn close_position_without_amounts_renders_bare_question_mark() {
    let req = PositionsQuery::new(AccountType::Live).close_position_request("AAPL", None, None);
    assert_eq!(req.url, "https://api.alpaca.markets/v2/positions/AAPL?");
}

#[test]
fn close_all_accepts_exactly_200_and_207() {
    assert!(close_all_success(200));
    assert!(close_all_success(207));
    assert!(!close_all_success(204));
    assert!(!close_all_success(404));
    assert!(!close_all_success(500));
}

#[test]
fn position_side_wire_names() {
    assert_eq!(PositionSide::Long.as_str(), "long");
    assert_eq!(PositionSide::Short.as_str(), "short");
}
