use finance::DetailResponseError;
use finance::YahooError;

#[test]
fn test_error_messages() {
    assert_eq!(
        YahooError::ExternalServiceError("oops".to_string()).to_text(),
        "Failed to processing with external api; `oops`"
    );
    assert_eq!(
        YahooError::NetworkError("connection refused".to_string()).to_text(),
        "Network error occurred; `connection refused`"
    );
    assert_eq!(
        YahooError::InvalidResponse("marker".to_string()).to_text(),
        "Invalid response; `marker`"
    );
    assert_eq!(
        YahooError::InvalidCall("bad request".to_string()).to_text(),
        "Invalid call; `bad request`"
    );
    assert_eq!(
        YahooError::ParseError("missing".to_string()).to_text(),
        "Failed to parse response; `missing`"
    );
    assert_eq!(
        YahooError::Unknown("?".to_string()).to_text(),
        "Unknown error; `?`"
    );
}

#[test]
fn test_error_detail_accessor() {
    assert_eq!(
        YahooError::ParseError("missing".to_string()).detail(),
        "missing"
    );
}

#[test]
fn test_detail_resp_err_with_readable_body() {
    let body: Result<String, String> = Ok("not found".to_string());
    assert_eq!(body.detail_resp_err("Client"), "Error Client: not found");
}

#[test]
fn test_detail_resp_err_with_unreadable_body() {
    let body: Result<String, String> = Err("stream closed".to_string());
    assert_eq!(
        body.detail_resp_err("Server"),
        "Error reading response body: stream closed"
    );
}
