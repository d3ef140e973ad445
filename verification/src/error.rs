//! The closed error taxonomy of the fetch-and-parse pipeline.

use vstd::prelude::*;

verus! {

/// Every way the pipeline can fail, each kind carrying a free-text
/// detail string for diagnostics.
#[derive(Debug)]
pub enum YahooError {
    /// 5xx-class (or otherwise unexpected-status) failure from the data
    /// provider.
    ExternalServiceError(String),
    /// Transport-level failure (DNS, connect, timeout).
    NetworkError(String),
    /// Response structurally unacceptable, e.g. the provider's own error
    /// marker is present.
    InvalidResponse(String),
    /// 4xx-class failure: the caller's request was malformed.
    InvalidCall(String),
    /// Required field missing, wrong type, or failed a domain invariant.
    ParseError(String),
    /// Catch-all.
    Unknown(String),
}

/// The rendered message of each error kind.
pub open spec fn spec_error_text(e: YahooError) -> Seq<char> {
    match e {
        YahooError::ExternalServiceError(s) => "Failed to processing with external api; `"@ + s@
            + "`"@,
        YahooError::NetworkError(s) => "Network error occurred; `"@ + s@ + "`"@,
        YahooError::InvalidResponse(s) => "Invalid response; `"@ + s@ + "`"@,
        YahooError::InvalidCall(s) => "Invalid call; `"@ + s@ + "`"@,
        YahooError::ParseError(s) => "Failed to parse response; `"@ + s@ + "`"@,
        YahooError::Unknown(s) => "Unknown error; `"@ + s@ + "`"@,
    }
}

impl YahooError {
    /// Human-readable message for reporting, one fixed prefix per kind
    /// with the detail quoted after it.
    pub fn to_text(&self) -> (r: String)
        ensures
            r@ == spec_error_text(*self),
    {
        let r = match self {
            YahooError::ExternalServiceError(s) => String::from_str(
                "Failed to processing with external api; `",
            ).concat(s.as_str()).concat("`"),
            YahooError::NetworkError(s) => String::from_str("Network error occurred; `").concat(
                s.as_str(),
            ).concat("`"),
            YahooError::InvalidResponse(s) => String::from_str("Invalid response; `").concat(
                s.as_str(),
            ).concat("`"),
            YahooError::InvalidCall(s) => String::from_str("Invalid call; `").concat(
                s.as_str(),
            ).concat("`"),
            YahooError::ParseError(s) => String::from_str("Failed to parse response; `").concat(
                s.as_str(),
            ).concat("`"),
            YahooError::Unknown(s) => String::from_str("Unknown error; `").concat(
                s.as_str(),
            ).concat("`"),
        };
        proof {
            assert(r@ =~= spec_error_text(*self));
        }
        r
    }

    /// The detail string the error carries.
    pub fn detail(&self) -> (r: &String)
        ensures
            r@ == spec_error_detail(*self),
    {
        match self {
            YahooError::ExternalServiceError(s) => s,
            YahooError::NetworkError(s) => s,
            YahooError::InvalidResponse(s) => s,
            YahooError::InvalidCall(s) => s,
            YahooError::ParseError(s) => s,
            YahooError::Unknown(s) => s,
        }
    }
}

/// The detail string carried by each error kind.
pub open spec fn spec_error_detail(e: YahooError) -> Seq<char> {
    match e {
        YahooError::ExternalServiceError(s) => s@,
        YahooError::NetworkError(s) => s@,
        YahooError::InvalidResponse(s) => s@,
        YahooError::InvalidCall(s) => s@,
        YahooError::ParseError(s) => s@,
        YahooError::Unknown(s) => s@,
    }
}

} // verus!
