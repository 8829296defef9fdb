use alpaca_api_client::{TimeFrame, Trend};

#[test]
fn timeframe_wire_names_are_exact() {
    assert_eq!(TimeFrame::OneMinute.as_str(), "1Min");
    assert_eq!(TimeFrame::FiveMinutes.as_str(), "5Min");
    assert_eq!(TimeFrame::FifteenMinutes.as_str(), "15Min");
    assert_eq!(TimeFrame::ThirtyMinutes.as_str(), "30Min");
    assert_eq!(TimeFrame::OneHour.as_str(), "1H");
    assert_eq!(TimeFrame::FourHours.as_str(), "4H");
    assert_eq!(TimeFrame::OneDay.as_str(), "1D");
    assert_eq!(TimeFrame::OneWeek.as_str(), "1W");
    assert_eq!(TimeFrame::OneMonth.as_str(), "1M");
}

#[test]
fn timeframe_parses_wire_names_and_aliases() {
    assert_eq!(TimeFrame::parse("1Min"), Some(TimeFrame::OneMinute));
    assert_eq!(TimeFrame::parse("1T"), Some(TimeFrame::OneMinute));
    assert_eq!(TimeFrame::parse("5Min"), Some(TimeFrame::FiveMinutes));
    assert_eq!(TimeFrame::parse("5T"), Some(TimeFrame::FiveMinutes));
    assert_eq!(TimeFrame::parse("15Min"), Some(TimeFrame::FifteenMinutes));
    assert_eq!(TimeFrame::parse("15T"), Some(TimeFrame::FifteenMinutes));
    assert_eq!(TimeFrame::parse("30Min"), Some(TimeFrame::ThirtyMinutes));
    assert_eq!(TimeFrame::parse("30T"), Some(TimeFrame::ThirtyMinutes));
    assert_eq!(TimeFrame::parse("1Hour"), Some(TimeFrame::OneHour));
    assert_eq!(TimeFrame::parse("1H"), Some(TimeFrame::OneHour));
    assert_eq!(TimeFrame::parse("4Hour"), Some(TimeFrame::FourHours));
    assert_eq!(TimeFrame::parse("4H"), Some(TimeFrame::FourHours));
    assert_eq!(TimeFrame::parse("1Day"), Some(TimeFrame::OneDay));
    assert_eq!(TimeFrame::parse("1D"), Some(TimeFrame::OneDay));
    assert_eq!(TimeFrame::parse("1Week"), Some(TimeFrame::OneWeek));
    assert_eq!(TimeFrame::parse("1W"), Some(TimeFrame::OneWeek));
    assert_eq!(TimeFrame::parse("1Month"), Some(TimeFrame::OneMonth));
    assert_eq!(TimeFrame::parse("1M"), Some(TimeFrame::OneMonth));
}

#[test]
fn timeframe_rejects_unknown_spellings() {
    assert_eq!(TimeFrame::parse(""), None);
    assert_eq!(TimeFrame::parse("2Min"), None);
    assert_eq!(TimeFrame::parse("1min"), None);
    assert_eq!(TimeFrame::parse("1Minute"), None);
}

#[test]
fn trend_wire_names() {
    assert_eq!(Trend::Bullish.as_str(), "bullish");
    assert_eq!(Trend::Bearish.as_str(), "bearish");
}
