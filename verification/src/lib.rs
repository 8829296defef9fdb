//! Typed client binding for a brokerage's REST trading API.
//!
//! Every endpoint is assembled by a query builder that renders optional
//! parameters into a canonical query string and produces a request
//! descriptor (method, URL, optional JSON body).  The one genuine
//! algorithm, the cursor-based pagination engine for account activities,
//! is a verified state machine; the HTTP transport itself is an external
//! collaborator supplied by the caller.

pub mod json;
pub mod market_data;
pub mod pagination;
pub mod query;
pub mod request;
pub mod timeframe;
pub mod trading;
pub mod trend;

pub use timeframe::TimeFrame;
pub use trend::Trend;
