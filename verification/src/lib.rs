//! Validation and domain-parsing layer for a single stock quote.
//!
//! The crate takes an untrusted JSON document (already decoded into the
//! crate's own [`JsonValue`] model), classifies the HTTP response it came
//! from, extracts and validates the quote metadata, and renders a
//! human-readable localized summary.

pub mod decimal;
pub mod error;
pub mod json;
pub mod parse_resp;
pub mod stock_price;
pub mod time;
pub mod util;
pub mod yahoo_finance_resp;

pub use error::YahooError;
pub use parse_resp::YahooFinanceInfo;
pub use json::JsonNum;
pub use json::JsonValue;
pub use stock_price::StockPrice;
pub use time::CHRONO_TIMESTAMP_MAX;
pub use util::DetailResponseError;
pub use yahoo_finance_resp::YahooFinanceResp;
