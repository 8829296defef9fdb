//! Time frames accepted by the remote API.

use vstd::prelude::*;

verus! {

#[derive(Debug, PartialEq, Clone, Copy)]
pub enum TimeFrame {
    OneMinute,
    FiveMinutes,
    FifteenMinutes,
    ThirtyMinutes,
    OneHour,
    FourHours,
    OneDay,
    OneWeek,
    OneMonth,
}

/// Relies on str's `PartialEq`: equal exactly when the character
/// sequences are equal.
#[verifier::external_body]
fn str_eq(a: &str, b: &str) -> (r: bool)
    ensures
        r == (a@ == b@),
{
    a == b
}

impl TimeFrame {
    /// The wire name of the time frame, as the remote API spells it.
    pub open spec fn wire_spec(self) -> Seq<char> {
        match self {
            TimeFrame::OneMinute => "1Min"@,
            TimeFrame::FiveMinutes => "5Min"@,
            TimeFrame::FifteenMinutes => "15Min"@,
            TimeFrame::ThirtyMinutes => "30Min"@,
            TimeFrame::OneHour => "1H"@,
            TimeFrame::FourHours => "4H"@,
            TimeFrame::OneDay => "1D"@,
            TimeFrame::OneWeek => "1W"@,
            TimeFrame::OneMonth => "1M"@,
        }
    }

    pub fn as_str(&self) -> (r: &'static str)
        ensures
            r@ == self.wire_spec(),
    {
        match self {
            TimeFrame::OneMinute => "1Min",
            TimeFrame::FiveMinutes => "5Min",
            TimeFrame::FifteenMinutes => "15Min",
            TimeFrame::ThirtyMinutes => "30Min",
            TimeFrame::OneHour => "1H",
            TimeFrame::FourHours => "4H",
            TimeFrame::OneDay => "1D",
            TimeFrame::OneWeek => "1W",
            TimeFrame::OneMonth => "1M",
        }
    }

    /// Which time frame a given spelling denotes, if any.  Both the wire
    /// spellings and the trading-view style aliases (`1T`, `1Hour`, ...)
    /// are accepted.
    pub open spec fn parse_spec(s: Seq<char>) -> Option<TimeFrame> {
        if s == "1Min"@ || s == "1T"@ {
            Some(TimeFrame::OneMinute)
        } else if s == "5Min"@ || s == "5T"@ {
            Some(TimeFrame::FiveMinutes)
        } else if s == "15Min"@ || s == "15T"@ {
            Some(TimeFrame::FifteenMinutes)
        } else if s == "30Min"@ || s == "30T"@ {
            Some(TimeFrame::ThirtyMinutes)
        } else if s == "1Hour"@ || s == "1H"@ {
            Some(TimeFrame::OneHour)
        } else if s == "4Hour"@ || s == "4H"@ {
            Some(TimeFrame::FourHours)
        } else if s == "1Day"@ || s == "1D"@ {
            Some(TimeFrame::OneDay)
        } else if s == "1Week"@ || s == "1W"@ {
            Some(TimeFrame::OneWeek)
        } else if s == "1Month"@ || s == "1M"@ {
            Some(TimeFrame::OneMonth)
        } else {
            None
        }
    }

    /// Parse a time frame from its spelling; `None` exactly on spellings
    /// that denote no time frame.
    pub fn parse(s: &str) -> (r: Option<TimeFrame>)
        ensures
            r == TimeFrame::parse_spec(s@),
    {
        if str_eq(s, "1Min") || str_eq(s, "1T") {
            Some(TimeFrame::OneMinute)
        } else if str_eq(s, "5Min") || str_eq(s, "5T") {
            Some(TimeFrame::FiveMinutes)
        } else if str_eq(s, "15Min") || str_eq(s, "15T") {
            Some(TimeFrame::FifteenMinutes)
        } else if str_eq(s, "30Min") || str_eq(s, "30T") {
            Some(TimeFrame::ThirtyMinutes)
        } else if str_eq(s, "1Hour") || str_eq(s, "1H") {
            Some(TimeFrame::OneHour)
        } else if str_eq(s, "4Hour") || str_eq(s, "4H") {
            Some(TimeFrame::FourHours)
        } else if str_eq(s, "1Day") || str_eq(s, "1D") {
            Some(TimeFrame::OneDay)
        } else if str_eq(s, "1Week") || str_eq(s, "1W") {
            Some(TimeFrame::OneWeek)
        } else if str_eq(s, "1Month") || str_eq(s, "1M") {
            Some(TimeFrame::OneMonth)
        } else {
            None
        }
    }
}

} // verus!
