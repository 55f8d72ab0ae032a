//! Response envelopes of the API layer.

use vstd::prelude::*;
use crate::api::error::ApiError;

verus! {

/// The envelope of every API response.
#[derive(Debug)]
pub struct ApiResponse<T> {
    /// Whether the call succeeded.
    pub success: bool,
    /// The data, present only on success.
    pub data: Option<T>,
    /// The error, present only on failure.
    pub error: Option<ApiError>,
}

impl<T> ApiResponse<T> {
    /// A successful response carrying `data`.
    pub fn success(data: T) -> (r: Self)
        ensures
            r.success,
            r.data == Some(data),
            r.error is None,
    {
        ApiResponse { success: true, data: Some(data), error: None }
    }

    /// A failed response carrying `error`.
    pub fn error(error: ApiError) -> (r: Self)
        ensures
            !r.success,
            r.data is None,
            r.error == Some(error),
    {
        ApiResponse { success: false, data: None, error: Some(error) }
    }
}

} // verus!
