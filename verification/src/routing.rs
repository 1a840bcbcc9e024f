//! The request router's decision logic: which handler a path is dispatched
//! to, and the responses the crate itself produces — the greeting for the
//! landing page and the rendered page for an unmatched path.

use vstd::prelude::*;
use vstd::string::*;

use crate::page::{contains_seq, lemma_page_contains_message, lemma_page_contains_title};
use crate::page::{render_page, spec_page};
use crate::response::Response;

verus! {

/// The handler class a request path is dispatched to.
#[derive(PartialEq, Eq, Structural, Clone, Copy, Debug)]
pub enum RouteClass {
    /// `/`: the greeting endpoint.
    Landing,
    /// `/api-docs` and everything below it: the documentation UI and the
    /// generated schema document, served by an external collaborator.
    ApiDocs,
    /// `/static` and everything below it: the static-file service, an
    /// external collaborator.
    StaticAsset,
    /// No registered route matches; the fallback handler answers.
    Unmatched,
}

/// `p` is a prefix of `s`.
pub open spec fn is_prefix_of(p: Seq<char>, s: Seq<char>) -> bool {
    p.len() <= s.len() && s.subrange(0, p.len() as int) == p
}

/// `path` lies at or below the mount point `root`: it equals `root` or
/// continues it with a `/`-separated suffix.
pub open spec fn spec_under(root: Seq<char>, path: Seq<char>) -> bool {
    path == root || is_prefix_of(root + "/"@, path)
}

/// The routing table: `/` is the landing page, the documentation and static
/// mounts delegate, everything else is unmatched.
pub open spec fn spec_classify(path: Seq<char>) -> RouteClass {
    if path == "/"@ {
        RouteClass::Landing
    } else if spec_under("/api-docs"@, path) {
        RouteClass::ApiDocs
    } else if spec_under("/static"@, path) {
        RouteClass::StaticAsset
    } else {
        RouteClass::Unmatched
    }
}

/// Compares two strings character by character.
fn str_eq(a: &str, b: &str) -> (r: bool)
    ensures
        r == (a@ == b@),
{
    let alen = a.unicode_len();
    let blen = b.unicode_len();
    if alen != blen {
        return false;
    }
    let mut i: usize = 0;
    while i < alen
        invariant
            alen == a@.len(),
            blen == b@.len(),
            alen == blen,
            i <= alen,
            forall|j: int| 0 <= j < i ==> a@[j] == b@[j],
        decreases alen - i,
    {
        if a.get_char(i) != b.get_char(i) {
            return false;
        }
        i += 1;
    }
    proof {
        assert(a@ =~= b@);
    }
    true
}

/// Tests whether `p` is a prefix of `s`, character by character.
fn has_prefix(s: &str, p: &str) -> (r: bool)
    ensures
        r == is_prefix_of(p@, s@),
{
    let plen = p.unicode_len();
    let slen = s.unicode_len();
    if plen > slen {
        return false;
    }
    let mut i: usize = 0;
    while i < plen
        invariant
            plen == p@.len(),
            slen == s@.len(),
            plen <= slen,
            i <= plen,
            forall|j: int| 0 <= j < i ==> s@[j] == p@[j],
        decreases plen - i,
    {
        if s.get_char(i) != p.get_char(i) {
            proof {
                assert(s@.subrange(0, p@.len() as int)[i as int] == s@[i as int]);
            }
            return false;
        }
        i += 1;
    }
    proof {
        assert(s@.subrange(0, p@.len() as int) =~= p@);
    }
    true
}

/// Tests whether `path` lies at or below the mount point `root`.
fn is_under(path: &str, root: &str) -> (r: bool)
    ensures
        r == spec_under(root@, path@),
{
    if str_eq(path, root) {
        true
    } else {
        let mut probe = String::from_str(root);
        probe.append("/");
        has_prefix(path, probe.as_str())
    }
}

/// Classifies a request path against the routing table.
pub fn classify_path(path: &str) -> (c: RouteClass)
    ensures
        c == spec_classify(path@),
{
    if str_eq(path, "/") {
        RouteClass::Landing
    } else if is_under(path, "/api-docs") {
        RouteClass::ApiDocs
    } else if is_under(path, "/static") {
        RouteClass::StaticAsset
    } else {
        RouteClass::Unmatched
    }
}

/// The greeting the landing page returns.
pub open spec fn spec_greeting() -> Seq<char> {
    "hello wrold from landing page"@
}

/// The body of the page rendered for an unmatched path.
pub open spec fn spec_not_found_body() -> Seq<char> {
    spec_page("not found"@, Some("unfound url"@))
}

/// The landing-page handler: the fixed greeting, status 200. The request's
/// headers and query parameters play no part.
pub fn landing_response() -> (r: Response)
    ensures
        r.wf(),
        r.status == 200,
        r.body@ == spec_greeting(),
{
    Response::new(200, String::from_str("hello wrold from landing page"))
}

/// The fallback handler for an unmatched path: the rendered not-found page,
/// status 404, whatever the path was.
pub fn not_found_response() -> (r: Response)
    ensures
        r.wf(),
        r.status == 404,
        r.body@ == spec_not_found_body(),
{
    Response::new(404, render_page("not found", Some("unfound url")))
}

/// The not-found page names the condition and the offending kind of URL.
pub proof fn lemma_not_found_body_mentions()
    ensures
        contains_seq(spec_not_found_body(), "not found"@),
        contains_seq(spec_not_found_body(), "unfound url"@),
{
    lemma_page_contains_title("not found"@, Some("unfound url"@));
    lemma_page_contains_message("not found"@, "unfound url"@);
}

/// What the crate itself answers for a path: the greeting for the landing
/// page, the not-found page for an unmatched path, and nothing where an
/// external collaborator (documentation UI, static files) serves the path.
pub open spec fn spec_route_response(path: Seq<char>) -> Option<(u16, Seq<char>)> {
    match spec_classify(path) {
        RouteClass::Landing => Some((200u16, spec_greeting())),
        RouteClass::Unmatched => Some((404u16, spec_not_found_body())),
        _ => None,
    }
}

/// Dispatches a request path: the response the crate itself produces, or
/// `None` where an external collaborator serves the path.
pub fn route_response(path: &str) -> (r: Option<Response>)
    ensures
        r is Some <==> spec_route_response(path@) is Some,
        r matches Some(resp) ==> resp.wf() && Some((resp.status, resp.body@))
            == spec_route_response(path@),
{
    match classify_path(path) {
        RouteClass::Landing => Some(landing_response()),
        RouteClass::Unmatched => Some(not_found_response()),
        RouteClass::ApiDocs => None,
        RouteClass::StaticAsset => None,
    }
}

/// Routing is a pure function of the path: two responses produced for the
/// same path are identical, with no hidden state between requests.
pub proof fn lemma_route_idempotent(
    path: Seq<char>,
    r1: Option<(u16, Seq<char>)>,
    r2: Option<(u16, Seq<char>)>,
)
    requires
        r1 == spec_route_response(path),
        r2 == spec_route_response(path),
    ensures
        r1 == r2,
{
}

} // verus!
