//! Trading endpoints: orders, positions, portfolio history, activities.

pub mod activities;
pub mod order;
pub mod portfolio;
pub mod positions;

use vstd::prelude::*;

verus! {

/// Selects between the live and the paper (simulated) trading hosts.
/// Each endpoint family resolves it to its own pair of base URLs.
#[derive(Debug, Clone, Copy)]
pub enum AccountType {
    Live,
    Paper,
}

impl AccountType {
    /// The orders base URL for this environment.
    pub open spec fn orders_url_spec(self) -> Seq<char> {
        match self {
            AccountType::Live => "https://api.alpaca.markets/v2/orders"@,
            AccountType::Paper => "https://paper-api.alpaca.markets/v2/orders"@,
        }
    }

    pub fn orders_url(&self) -> (r: &'static str)
        ensures
            r@ == self.orders_url_spec(),
    {
        match self {
            AccountType::Live => "https://api.alpaca.markets/v2/orders",
            AccountType::Paper => "https://paper-api.alpaca.markets/v2/orders",
        }
    }

    /// The positions base URL for this environment.
    pub open spec fn positions_url_spec(self) -> Seq<char> {
        match self {
            AccountType::Live => "https://api.alpaca.markets/v2/positions"@,
            AccountType::Paper => "https://paper-api.alpaca.markets/v2/positions"@,
        }
    }

    pub fn positions_url(&self) -> (r: &'static str)
        ensures
            r@ == self.positions_url_spec(),
    {
        match self {
            AccountType::Live => "https://api.alpaca.markets/v2/positions",
            AccountType::Paper => "https://paper-api.alpaca.markets/v2/positions",
        }
    }

    /// The portfolio-history base URL for this environment.
    pub open spec fn portfolio_history_url_spec(self) -> Seq<char> {
        match self {
            AccountType::Live => "https://api.alpaca.markets/v2/account/portfolio/history"@,
            AccountType::Paper => (
            "https://paper-api.alpaca.markets/v2/account/portfolio/history"@),
        }
    }

    pub fn portfolio_history_url(&self) -> (r: &'static str)
        ensures
            r@ == self.portfolio_history_url_spec(),
    {
        match self {
            AccountType::Live => "https://api.alpaca.markets/v2/account/portfolio/history",
            AccountType::Paper => "https://paper-api.alpaca.markets/v2/account/portfolio/history",
        }
    }
}

} // verus!
