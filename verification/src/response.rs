//! The uniform success/error envelope consumed by the transport layer. It is
//! an explicitly tagged union: exactly one variant is ever populated, so a
//! client can always tell the two outcomes apart.

use vstd::prelude::*;
use crate::errors::CoreError;

verus! {

/// A two-variant outcome: success carrying an operation-specific payload, or
/// an error carrying a single human-readable message.
pub enum ApiResponse<T> {
    Success { success: bool, data: T },
    Error { success: bool, error: String },
}

impl<T> ApiResponse<T> {
    /// True exactly on the success variant.
    pub open spec fn is_success(&self) -> bool {
        self matches ApiResponse::Success { .. }
    }

    /// Wraps a payload; the flag always reads `true` on this variant.
    pub fn ok(data: T) -> (r: ApiResponse<T>)
        ensures
            r == (ApiResponse::Success { success: true, data }),
    {
        ApiResponse::Success { success: true, data }
    }

    /// Wraps an error message; the flag always reads `false` on this variant.
    pub fn err(error: String) -> (r: ApiResponse<T>)
        ensures
            r == (ApiResponse::Error::<T> { success: false, error }),
    {
        ApiResponse::Error { success: false, error }
    }

    /// Folds a typed operation result into the envelope, rendering a failure
    /// as its human-readable message.
    pub fn from_result(res: Result<T, CoreError>) -> (r: ApiResponse<T>)
        ensures
            match res {
                Ok(data) => r == (ApiResponse::Success { success: true, data }),
                Err(e) => (r matches ApiResponse::Error { success, error }
                    && success == false && error@ == e.message_view()),
            },
    {
        match res {
            Ok(data) => ApiResponse::Success { success: true, data },
            Err(e) => ApiResponse::Error { success: false, error: e.message() },
        }
    }
}

} // verus!
