//! Market data endpoints.

pub mod screener;
