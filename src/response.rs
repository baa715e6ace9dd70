//! Error codes of the HTTP API.
use vstd::prelude::*;

verus! {

/// The code an API error carries.
#[derive(Clone, Copy, Debug, PartialEq, Eq, Structural)]
pub enum ResponseErrorCode {
    Internal,
}

impl Default for ResponseErrorCode {
    fn default() -> (r: ResponseErrorCode)
        ensures
            r == ResponseErrorCode::Internal,
    {
        ResponseErrorCode::Internal
    }
}

} // verus!
