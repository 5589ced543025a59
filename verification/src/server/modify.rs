//! A hook that may change a received request before the service sees it.

use vstd::prelude::*;

verus! {

/// Changes the head of a received request before the service is called.
pub trait Modify {
    /// Change the request in place.
    fn modify(&mut self, request: &mut http::Request<()>);
}

/// The hook that changes nothing.
impl Modify for () {
    fn modify(&mut self, request: &mut http::Request<()>)
        ensures
            *final(request) == *old(request),
    {
    }
}

} // verus!
