use vstd::prelude::*;

verus! {

/// HTTP status of a successful request.
pub const STATUS_OK: u16 = 200;

/// HTTP status of every failed request.
pub const STATUS_INTERNAL_SERVER_ERROR: u16 = 500;

/// The text that opens the body of every failure response.
pub const FAILURE_PREFIX: &'static str = "Something went wrong: ";

/// An HTTP response as the handler decides it: a status and a plain-text body.
pub struct HttpResponse {
    pub status: u16,
    pub body: String,
}

/// The single failure of the handler, whatever its origin, with the text of
/// the underlying error.
pub struct AppError {
    pub message: String,
}

/// The body of the response to a failure with the given message.
pub open spec fn failure_body(message: Seq<char>) -> Seq<char> {
    FAILURE_PREFIX@ + message
}

impl From<String> for AppError {
    fn from(message: String) -> (r: AppError) {
        AppError { message }
    }
}

impl vstd::std_specs::convert::FromSpecImpl<String> for AppError {
    open spec fn obeys_from_spec() -> bool {
        true
    }

    open spec fn from_spec(message: String) -> AppError {
        AppError { message }
    }
}

impl AppError {
    /// The response to this failure: status 500 and the message after a fixed prefix.
    pub fn into_response(self) -> (r: HttpResponse)
        ensures
            r.status == STATUS_INTERNAL_SERVER_ERROR,
            r.body@ == failure_body(self.message@),
    {
        let mut body = String::from_str(FAILURE_PREFIX);
        body.append(self.message.as_str());
        HttpResponse { status: STATUS_INTERNAL_SERVER_ERROR, body }
    }
}

} // verus!
