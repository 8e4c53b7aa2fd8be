use vstd::prelude::*;

verus! {

/// A request handler: what the runtime drives with every inbound request.
pub trait Service<Request> {
    type Response;
    type Error;

    /// Process the request and return the response.
    fn call(&mut self, req: Request) -> Result<Self::Response, Self::Error>;
}

} // verus!
