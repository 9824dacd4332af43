//! Uniform envelope for responses handed back to boundary callers.

use vstd::prelude::*;

verus! {

/// Either a payload (`success`, `data` set) or an error text (`message` set).
pub struct ApiResponse<T> {
    pub success: bool,
    pub data: Option<T>,
    pub message: Option<String>,
}

impl<T> ApiResponse<T> {
    /// A successful response carrying `data` and no message.
    pub fn ok(data: T) -> (r: ApiResponse<T>)
        ensures
            r.success,
            r.data == Some(data),
            r.message is None,
    {
        ApiResponse { success: true, data: Some(data), message: None }
    }

    /// A failed response carrying an error text and no payload.
    pub fn err(msg: String) -> (r: ApiResponse<T>)
        ensures
            !r.success,
            r.data is None,
            r.message == Some(msg),
    {
        ApiResponse { success: false, data: None, message: Some(msg) }
    }
}

} // verus!
