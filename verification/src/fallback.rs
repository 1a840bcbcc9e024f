//! The error-fallback layer: a decorator over the handler chain that
//! substitutes a rendered page for the body of an internal-server-error
//! response and passes every other response through untouched.

use vstd::prelude::*;

use crate::page::{contains_seq, lemma_page_contains_message, lemma_page_contains_title};
use crate::page::{render_page, spec_page};
use crate::response::Response;

verus! {

/// The body substituted for an internal-server-error response.
pub open spec fn spec_error_body() -> Seq<char> {
    spec_page("server error"@, Some("try later"@))
}

/// Decides, from the status code alone, whether the error-fallback layer
/// substitutes a body: it does if and only if the status is 500, and the
/// substitute is always the rendered server-error page.
pub fn fallback_body_for(status: u16) -> (r: Option<String>)
    ensures
        r is Some <==> status == 500,
        r matches Some(b) ==> b@ == spec_error_body(),
{
    if status == 500 {
        Some(render_page("server error", Some("try later")))
    } else {
        None
    }
}

/// The error-fallback layer. A response with status 500 keeps its status but
/// has its whole body replaced by the rendered server-error page, with the
/// `Content-Length` header matching the new body; any other response passes
/// through identical, body, headers and status alike.
pub fn apply_error_fallback(resp: Response) -> (r: Response)
    requires
        resp.wf(),
    ensures
        r.wf(),
        r.status == resp.status,
        resp.status == 500 ==> r.body@ == spec_error_body(),
        resp.status != 500 ==> r == resp,
{
    match fallback_body_for(resp.status) {
        Some(body) => Response::new(resp.status, body),
        None => resp,
    }
}

/// The substituted error page names the condition and the advice given to
/// the caller.
pub proof fn lemma_error_body_mentions()
    ensures
        contains_seq(spec_error_body(), "server error"@),
        contains_seq(spec_error_body(), "try later"@),
{
    lemma_page_contains_title("server error"@, Some("try later"@));
    lemma_page_contains_message("server error"@, "try later"@);
}

} // verus!
