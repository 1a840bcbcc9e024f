//! A materialized HTTP response: status code, body, and the body-describing
//! `Content-Length` header, kept consistent with the body by an invariant.

use vstd::prelude::*;

verus! {

/// An HTTP response as the error-fallback layer sees it: the status code, the
/// full body text, and the `Content-Length` header value sent with the body.
pub struct Response {
    pub status: u16,
    pub body: String,
    pub content_length: usize,
}

impl Response {
    /// A response is well formed when its `Content-Length` header equals the
    /// UTF-8 byte length of its body, as `str::len` reports it.
    pub open spec fn wf(self) -> bool {
        self.content_length == vstd::utf8::encode_utf8(self.body@).len() as usize
    }

    /// Builds a response from a status code and a body, deriving the
    /// `Content-Length` header from the body itself.
    pub fn new(status: u16, body: String) -> (r: Response)
        ensures
            r.wf(),
            r.status == status,
            r.body@ == body@,
    {
        let content_length = body.as_str().len();
        Response { status, body, content_length }
    }
}

} // verus!
