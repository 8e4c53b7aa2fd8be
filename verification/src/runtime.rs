use vstd::prelude::*;

verus! {

/// Drives a service with the requests that come in. The loop over the
/// channels belongs to the caller: each inbound message becomes a request
/// ([`Request::from_message`](crate::message::Request::from_message)), the
/// service's response becomes the reply that answers it
/// ([`reply_message`](crate::message::reply_message)).
pub struct Runtime;

impl Runtime {
    /// A runtime.
    pub fn new() -> (r: Self) {
        Runtime
    }
}

impl Default for Runtime {
    fn default() -> (r: Self) {
        Self::new()
    }
}

} // verus!
