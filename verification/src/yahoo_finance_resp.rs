//! Classification of the raw HTTP response from the finance endpoint.
//!
//! The actual HTTP call is I/O and lives outside the crate; the caller
//! hands in the status code, the body-read outcome and the decoded JSON
//! document, and everything that decides is verified here.

use vstd::prelude::*;
use crate::error::YahooError;
use crate::json::JsonValue;
use crate::json::spec_get;
use crate::util::DetailResponseError;
use crate::util::spec_detail_resp_err;

verus! {

/// A response that passed classification: well-formed JSON whose
/// provider-side error marker (`chart.error`) is present and null.
#[derive(Debug)]
pub struct YahooFinanceResp {
    doc: JsonValue,
}

/// The provider's embedded error marker exists and is null.
pub open spec fn spec_marker_ok(doc: JsonValue) -> bool {
    match spec_get(doc, "chart"@) {
        Some(chart) => match spec_get(chart, "error"@) {
            Some(e) => e is Null,
            None => false,
        },
        None => false,
    }
}

impl YahooFinanceResp {
    /// The held document.
    pub closed spec fn doc_view(self) -> JsonValue {
        self.doc
    }

    /// Invariant: only documents with a null error marker get wrapped.
    pub open spec fn wf(self) -> bool {
        spec_marker_ok(self.doc_view())
    }

    /// The raw document.
    pub fn inner(&self) -> (r: &JsonValue)
        ensures
            *r == self.doc_view(),
    {
        &self.doc
    }

    /// Classifies a transport-level failure (DNS, connect, timeout):
    /// when no response arrived at all, the exchange is a
    /// `NetworkError` carrying the transport detail.
    pub fn transport_failure(detail: String) -> (e: YahooError)
        ensures
            e matches YahooError::NetworkError(d) && d == detail,
    {
        YahooError::NetworkError(detail)
    }

    /// Classifies one HTTP exchange. `status` is the HTTP status code,
    /// `body` the outcome of reading the response body as text, and
    /// `parsed` the JSON document decoded from that body (`None` when it
    /// was not valid JSON; only consulted on a 2xx status).
    ///
    /// A 2xx response with a decodable body and a null `chart.error`
    /// marker is the only success path. An undecodable body, as well as
    /// a present, non-null (or missing) marker, is an invalid response
    /// regardless of the rest of the document; 4xx means the call was
    /// malformed; any other status is a provider-side failure.
    pub fn from_response(status: u16, body: Result<String, String>, parsed: Option<JsonValue>) -> (r:
        Result<YahooFinanceResp, YahooError>)
        ensures
            r matches Ok(resp) ==> resp.wf() && 200 <= status < 300,
            200 <= status < 300 && parsed is None ==> (r matches Err(e) && (e matches
                YahooError::InvalidResponse(d) && d@ == "Failed to parse to json format"@)),
            200 <= status < 300 ==> (parsed matches Some(doc) ==> (if spec_marker_ok(doc) {
                r matches Ok(resp) && resp.doc_view() == doc
            } else {
                r matches Err(e) && (e matches YahooError::InvalidResponse(d) && d@
                    == "Failed to accessing to parsed data"@)
            })),
            !(200 <= status < 300) && 400 <= status < 500 ==> (r matches Err(e) && (e matches
                YahooError::InvalidCall(d) && d@ == spec_detail_resp_err(body, "Client"@))),
            !(200 <= status < 300) && !(400 <= status < 500) ==> (r matches Err(e) && (e matches
                YahooError::ExternalServiceError(d) && d@ == spec_detail_resp_err(
                body,
                "Server"@,
            ))),
    {
        if 200 <= status && status < 300 {
            match parsed {
                Some(doc) => {
                    let marker_null = match doc.get("chart") {
                        Some(chart) => match chart.get("error") {
                            Some(e) => e.is_null(),
                            None => false,
                        },
                        None => false,
                    };
                    if marker_null {
                        Ok(YahooFinanceResp { doc })
                    } else {
                        Err(YahooError::InvalidResponse(String::from_str(
                            "Failed to accessing to parsed data",
                        )))
                    }
                },
                None => Err(YahooError::InvalidResponse(String::from_str(
                    "Failed to parse to json format",
                ))),
            }
        } else if 400 <= status && status < 500 {
            Err(YahooError::InvalidCall(body.detail_resp_err("Client")))
        } else {
            Err(YahooError::ExternalServiceError(body.detail_resp_err("Server")))
        }
    }
}

} // verus!
