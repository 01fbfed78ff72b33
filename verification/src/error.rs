use vstd::prelude::*;

verus! {

/// The uniform error type of every fallible operation: a short machine
/// code and a human-readable message.
#[derive(Debug, Clone)]
pub struct JsbError {
    /// The code of the error
    pub code: String,
    /// The message of the error
    pub message: String,
}

/// Holds the code and message of `e`, seen as character sequences.
pub open spec fn err_is(e: &JsbError, code: Seq<char>, message: Seq<char>) -> bool {
    e.code@ == code && e.message@ == message
}

/// An error envelope as the server reports it.
#[derive(Debug)]
pub struct ApiErrorResponse {
    /// The JsonBank error
    pub error: JsbError,
}

/// Returns the error reported when supplied content is not valid JSON text.
pub fn err_invalid_json() -> (e: JsbError)
    ensures
        err_is(&e, "invalid_json_content"@, "Content is not a valid JSON string"@),
{
    JsbError {
        code: "invalid_json_content".to_owned(),
        message: "Content is not a valid JSON string".to_owned(),
    }
}

/// Returns a client-side validation error: a missing credential or a
/// missing required input field.
pub fn err_bad_request(message: &str) -> (e: JsbError)
    ensures
        err_is(&e, "bad_request"@, message@),
{
    JsbError { code: "bad_request".to_owned(), message: message.to_owned() }
}

/// Translates a transport-level failure (connection, timeout, framing)
/// into the uniform error type, under the default code.
pub fn transport_error(message: String) -> (e: JsbError)
    ensures
        err_is(&e, "500"@, message@),
{
    JsbError { code: "500".to_owned(), message }
}

} // verus!
