//! Requests for operations in progress.

use vstd::prelude::*;

use crate::raw::{AsRaw, RawRequest};

verus! {

/// A request for an immediate operation that is in progress.
#[derive(Debug, PartialEq, Eq, Structural)]
pub struct Request {
    raw: RawRequest,
}

impl Request {
    /// The raw handle, as the contracts see it.
    pub closed spec fn raw_spec(&self) -> RawRequest {
        self.raw
    }

    /// A request from the raw handle that the interface handed out.
    pub fn from_raw(raw: RawRequest) -> (r: Request)
        ensures
            r.raw_spec() == raw,
    {
        Request { raw }
    }
}

impl AsRaw for Request {
    type Raw = RawRequest;

    open spec fn is_raw(&self, raw: RawRequest) -> bool {
        raw == self.raw_spec()
    }

    fn as_raw(&self) -> (r: RawRequest)
        ensures
            r == self.raw_spec(),
    {
        self.raw
    }
}

} // verus!
