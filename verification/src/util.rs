//! Rendering of an HTTP body-read outcome into an error detail message.

use vstd::prelude::*;

verus! {

/// The message a body-read outcome renders to: the body itself labeled
/// with the error type when it could be read, otherwise the read error.
pub open spec fn spec_detail_resp_err(r: Result<String, String>, err_type: Seq<char>) -> Seq<
    char,
> {
    match r {
        Ok(v) => "Error "@ + err_type + ": "@ + v@,
        Err(e) => "Error reading response body: "@ + e@,
    }
}

/// Values that can render themselves into a response-error detail
/// message, labeled with an error type.
pub trait DetailResponseError: Sized {
    /// The message this value renders to.
    spec fn spec_detail(self, err_type: Seq<char>) -> Seq<char>;

    /// Renders the value into the detail message.
    fn detail_resp_err(self, err_type: &str) -> (r: String)
        ensures
            r@ == self.spec_detail(err_type@),
    ;
}

impl DetailResponseError for Result<String, String> {
    open spec fn spec_detail(self, err_type: Seq<char>) -> Seq<char> {
        spec_detail_resp_err(self, err_type)
    }

    fn detail_resp_err(self, err_type: &str) -> (r: String) {
        match self {
            Ok(v) => {
                let r = String::from_str("Error ").concat(err_type).concat(": ").concat(
                    v.as_str(),
                );
                proof {
                    assert(r@ =~= spec_detail_resp_err(Ok(v), err_type@));
                }
                r
            },
            Err(e) => {
                let r = String::from_str("Error reading response body: ").concat(e.as_str());
                proof {
                    assert(r@ =~= spec_detail_resp_err(Err(e), err_type@));
                }
                r
            },
        }
    }
}

} // verus!
