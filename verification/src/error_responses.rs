//! The error answers of the HTTP interface: a status code and a message.

use vstd::prelude::*;

verus! {

/// An error answer: HTTP status code and the message sent as the body.
#[derive(Clone, Debug)]
pub struct ErrorResponse {
    pub message: String,
    pub status_code: u16,
}

/// Bad Request.
pub fn response_400(message: &str) -> (res: ErrorResponse)
    ensures
        res.status_code == 400,
        res.message@ == message@,
{
    ErrorResponse { message: String::from_str(message), status_code: 400 }
}

/// Unauthorized, with a fixed message.
pub fn response_401() -> (res: ErrorResponse)
    ensures
        res.status_code == 401,
        res.message@ == "You are not authorized."@,
{
    ErrorResponse { message: String::from_str("You are not authorized."), status_code: 401 }
}

/// Forbidden.
pub fn response_403(message: &str) -> (res: ErrorResponse)
    ensures
        res.status_code == 403,
        res.message@ == message@,
{
    ErrorResponse { message: String::from_str(message), status_code: 403 }
}

/// Not Found.
pub fn response_404(message: String) -> (res: ErrorResponse)
    ensures
        res.status_code == 404,
        res.message == message,
{
    ErrorResponse { message, status_code: 404 }
}

/// The message of every internal error answer.
pub open spec fn internal_error_message() -> Seq<char> {
    "Some unexpected error happened. Please try again later."@
}

/// Internal Server Error, with a fixed message that reveals nothing of the cause.
pub fn response_500() -> (res: ErrorResponse)
    ensures
        res.status_code == 500,
        res.message@ == internal_error_message(),
{
    ErrorResponse {
        message: String::from_str("Some unexpected error happened. Please try again later."),
        status_code: 500,
    }
}

} // verus!
