//! Service boundary: the error type a transport projects onto its two
//! status classes, and how the handler layer's errors map onto it.
use vstd::prelude::*;
use self::handlers_inner::HandlerError;

pub mod handlers_inner;

verus! {

/// Transport-facing failure: two variants, directly projectable to the two
/// status classes a transport reports.
#[derive(Debug, PartialEq)]
pub enum APIError {
    BadRequest(String),
    InternalError(String),
}

impl From<HandlerError> for APIError {
    fn from(value: HandlerError) -> Self {
        match value {
            HandlerError::BadRequest(s) => Self::BadRequest(s),
            HandlerError::InternalError(s) => Self::InternalError(s),
        }
    }
}

impl vstd::std_specs::convert::FromSpecImpl<HandlerError> for APIError {
    open spec fn obeys_from_spec() -> bool {
        true
    }

    open spec fn from_spec(value: HandlerError) -> Self {
        match value {
            HandlerError::BadRequest(s) => APIError::BadRequest(s),
            HandlerError::InternalError(s) => APIError::InternalError(s),
        }
    }
}

} // verus!
