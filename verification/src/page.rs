//! Rendering of the server's HTML pages: a fixed skeleton around a title and
//! an optional message, used for the error responses.

use vstd::prelude::*;
use vstd::string::*;

verus! {

/// The view of an optional message argument.
pub open spec fn msg_view(m: Option<&str>) -> Option<Seq<char>> {
    match m {
        Some(s) => Some(s@),
        None => None,
    }
}

/// The text of the page rendered for a title and an optional message: the
/// title appears both in the head and as a heading, the message as a
/// paragraph.
pub open spec fn spec_page(title: Seq<char>, msg: Option<Seq<char>>) -> Seq<char> {
    "<!DOCTYPE html><html><head><title>"@ + title + "</title></head><body><h1>"@ + title
        + "</h1>"@ + (match msg {
        Some(m) => "<p>"@ + m + "</p>"@,
        None => Seq::<char>::empty(),
    }) + "</body></html>"@
}

/// Renders the page for a title and an optional message.
pub fn render_page(title: &str, msg: Option<&str>) -> (r: String)
    ensures
        r@ == spec_page(title@, msg_view(msg)),
{
    let mut out = String::from_str("<!DOCTYPE html><html><head><title>");
    out.append(title);
    out.append("</title></head><body><h1>");
    out.append(title);
    out.append("</h1>");
    match msg {
        Some(m) => {
            out.append("<p>");
            out.append(m);
            out.append("</p>");
        },
        None => {},
    }
    out.append("</body></html>");
    proof {
        assert(out@ =~= spec_page(title@, msg_view(msg)));
    }
    out
}

/// `needle` occurs contiguously somewhere in `hay`.
pub open spec fn contains_seq(hay: Seq<char>, needle: Seq<char>) -> bool {
    exists|i: int|
        0 <= i && i + needle.len() <= hay.len() && #[trigger] hay.subrange(
            i,
            i + needle.len() as int,
        ) == needle
}

/// The middle section of a concatenation occurs in the whole.
pub proof fn lemma_concat_contains(pre: Seq<char>, mid: Seq<char>, post: Seq<char>)
    ensures
        contains_seq(pre + mid + post, mid),
{
    let hay = pre + mid + post;
    let i = pre.len() as int;
    assert(hay.subrange(i, i + mid.len() as int) =~= mid);
}

/// A rendered page contains its title.
pub proof fn lemma_page_contains_title(title: Seq<char>, msg: Option<Seq<char>>)
    ensures
        contains_seq(spec_page(title, msg), title),
{
    let pre = "<!DOCTYPE html><html><head><title>"@;
    let post = "</title></head><body><h1>"@ + title + "</h1>"@ + (match msg {
        Some(m) => "<p>"@ + m + "</p>"@,
        None => Seq::<char>::empty(),
    }) + "</body></html>"@;
    assert(spec_page(title, msg) =~= pre + title + post);
    lemma_concat_contains(pre, title, post);
}

/// A rendered page contains its message.
pub proof fn lemma_page_contains_message(title: Seq<char>, m: Seq<char>)
    ensures
        contains_seq(spec_page(title, Some(m)), m),
{
    let pre = "<!DOCTYPE html><html><head><title>"@ + title + "</title></head><body><h1>"@
        + title + "</h1>"@ + "<p>"@;
    let post = "</p>"@ + "</body></html>"@;
    assert(spec_page(title, Some(m)) =~= pre + m + post);
    lemma_concat_contains(pre, m, post);
}

} // verus!
