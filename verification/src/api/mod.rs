//! The API layer: error responses, response envelopes and the decision
//! logic of the command middleware.

pub mod dto;
pub mod error;
pub mod middleware;

use vstd::prelude::*;
use crate::api::error::ApiError;

verus! {

/// Prepares the API layer for use. Nothing can fail here.
pub fn init() -> (r: Result<(), ApiError>)
    ensures
        r is Ok,
{
    Ok(())
}

} // verus!
