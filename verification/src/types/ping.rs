//! Utility response types.
use vstd::prelude::*;

verus! {

/// The response from `GET /v1/ping-key`.
#[derive(Debug, Clone, PartialEq, Eq)]
pub struct PingKeyResponse {
    /// Always `"ok"` for a valid key.
    pub status: String,
    /// Identifier of the account that owns the key.
    pub user_id: String,
}

} // verus!
