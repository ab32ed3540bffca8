//! The media server's reply to a `ping` request.

use vstd::prelude::*;

verus! {

/// Body of the server's `ping` endpoint: a single free-text field that
/// reads `"pong"` when the server is reachable and healthy.
#[derive(Debug)]
pub struct PingResponse {
    pub response: String,
}

impl PingResponse {
    /// A ping succeeded exactly when the server answered `"pong"`.
    pub fn is_success(&self) -> (r: bool)
        ensures
            r == (self.response@ == "pong"@),
    {
        self.response == "pong".to_owned()
    }
}

} // verus!
