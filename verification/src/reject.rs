//! The reply for a request that was refused.

use crate::error::{error_reply, Error};
use crate::model::ErrorMessage;
use vstd::prelude::*;

verus! {

/// The reply for a path that matches no route: 404, "Page not found".
pub fn get_not_found_message() -> (m: ErrorMessage)
    ensures
        m.code == 404,
        m.message@ == "Page not found"@,
{
    ErrorMessage { code: 404, message: "Page not found".to_owned() }
}

/// The reply for a request body that could not be read: 400, "Bad request".
pub fn get_bad_request_message() -> (m: ErrorMessage)
    ensures
        m.code == 400,
        m.message@ == "Bad request"@,
{
    ErrorMessage { code: 400, message: "Bad request".to_owned() }
}

/// The reply for a failure on the service's side: 500, "Internal server error".
pub fn get_internal_error_message() -> (m: ErrorMessage)
    ensures
        m.code == 500,
        m.message@ == "Internal server error"@,
{
    ErrorMessage { code: 500, message: "Internal server error".to_owned() }
}

/// Why a request was refused, in the order in which the causes are tried.
pub enum Rejection<'a> {
    /// No route matched.
    NotFound,
    /// An operation of the service failed.
    Failed(&'a Error),
    /// The request body could not be deserialized.
    BadBody,
    /// Any other cause.
    Unhandled,
}

/// The reply for a refused request, by status code and message.
pub open spec fn rejection_reply(r: Rejection) -> (u16, Seq<char>) {
    match r {
        Rejection::NotFound => (404, "Page not found"@),
        Rejection::Failed(e) => error_reply(*e),
        Rejection::BadBody => (400, "Bad request"@),
        Rejection::Unhandled => (500, "Internal server error"@),
    }
}

/// The reply that the service sends for a refused request.
pub fn rejection_message(rejection: Rejection) -> (m: ErrorMessage)
    ensures
        (m.code, m.message@) == rejection_reply(rejection),
        rejection is NotFound ==> m.code == 404 && m.message@ == "Page not found"@,
        rejection is BadBody ==> m.code == 400 && m.message@ == "Bad request"@,
        rejection is Unhandled ==> m.code == 500 && m.message@ == "Internal server error"@,
        rejection matches Rejection::Failed(e) ==> (*e is EmptyResult ==> m.code == 200
            && m.message@ == "Empty Result"@) && (!(*e is EmptyResult) ==> m.code == 500
            && m.message@ == "Internal server error"@),
{
    match rejection {
        Rejection::NotFound => get_not_found_message(),
        Rejection::Failed(e) => e.to_error_message(),
        Rejection::BadBody => get_bad_request_message(),
        Rejection::Unhandled => get_internal_error_message(),
    }
}

} // verus!
