//! What is known of the HTTP exchange that brought a response.

use vstd::prelude::*;

verus! {

/// The HTTP data of a response.
#[derive(Debug, Clone, PartialEq, Eq)]
pub struct HttpData {
    /// The status code.
    pub status_code: u16,
    /// The header fields, names and values, in the order received.
    pub headers: Vec<(String, String)>,
    /// The `Location` of a redirect.
    pub location: Option<String>,
    /// The URL that the response came from.
    pub received_url: Option<String>,
    /// The `Content-Type`.
    pub content_type: Option<String>,
}

} // verus!
