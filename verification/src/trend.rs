//! Market trend direction.

use vstd::prelude::*;

verus! {

#[derive(Debug, PartialEq, Clone)]
pub enum Trend {
    Bullish,
    Bearish,
}

impl Trend {
    /// The lowercase wire name of the trend.
    pub open spec fn wire_spec(self) -> Seq<char> {
        match self {
            Trend::Bullish => "bullish"@,
            Trend::Bearish => "bearish"@,
        }
    }

    pub fn as_str(&self) -> (r: &'static str)
        ensures
            r@ == self.wire_spec(),
    {
        match self {
            Trend::Bullish => "bullish",
            Trend::Bearish => "bearish",
        }
    }
}

} // verus!
