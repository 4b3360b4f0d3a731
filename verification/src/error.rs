//! The errors that the service's operations fail with, and the reply that
//! each one is answered with.

use crate::model::ErrorMessage;
use crate::reject::get_internal_error_message;
use bson::document::ValueAccessError;
use bson::oid::Error as ObjectIdError;
use mongodb::error::Error as MongoError;
use mongodb::error::ErrorKind as MongoErrorKind;
use vstd::prelude::*;

verus! {

#[verifier::external_type_specification]
#[verifier::external_body]
pub struct ExMongoError(MongoError);

#[verifier::external_type_specification]
#[verifier::external_body]
pub struct ExMongoErrorKind(MongoErrorKind);

#[verifier::external_type_specification]
#[verifier::external_body]
pub struct ExObjectIdError(ObjectIdError);

#[verifier::external_type_specification]
#[verifier::external_body]
pub struct ExValueAccessError(ValueAccessError);

/// Why an operation failed.
#[derive(Debug)]
pub enum Error {
    /// The database driver reported an error.
    MongoDB { source: MongoError },
    /// An object id could not be made.
    Bson { source: ObjectIdError },
    /// A document field could not be read.
    ValueAccess { source: ValueAccessError },
    /// A lookup found nothing.
    EmptyResult,
    /// A record lacked a field that the operation needs: the record's kind,
    /// then the field.
    FieldNotLoaded(&'static str, &'static str),
}

/// The reply for an error: an empty result is answered 200 with
/// "Empty Result", every other error 500 with "Internal server error".
pub open spec fn error_reply(e: Error) -> (u16, Seq<char>) {
    match e {
        Error::EmptyResult => (200, "Empty Result"@),
        _ => (500, "Internal server error"@),
    }
}

impl Error {
    /// The reply that the service sends for this error.
    pub fn to_error_message(&self) -> (m: ErrorMessage)
        ensures
            (m.code, m.message@) == error_reply(*self),
            *self is EmptyResult ==> m.code == 200 && m.message@ == "Empty Result"@,
            !(*self is EmptyResult) ==> m.code == 500 && m.message@ == "Internal server error"@,
    {
        match self {
            Error::EmptyResult => ErrorMessage { code: 200, message: "Empty Result".to_owned() },
            _ => get_internal_error_message(),
        }
    }
}

} // verus!
