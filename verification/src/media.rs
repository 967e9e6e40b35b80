//! The media locator and resolution selector: candidate media URLs are
//! the `src` attributes of the page's `<source>` elements, in document
//! order (the site publishes highest quality first), keeping only
//! values that parse as URL references; the selector picks the entry
//! at the requested tier's index.

use vstd::prelude::*;
use crate::error::Error;
use crate::resolution::Resolution;

verus! {

/// The HTML parser's input cap, in characters. select copies the page
/// into buffers that hold at most 4 GB and panic above that; a quarter
/// of that many characters stays under the limit even if every
/// character takes four UTF-8 bytes.
pub const HTML_CHAR_LIMIT: usize = 0x4000_0000;

/// The `src` attribute values of the page's `<source>` elements, in
/// document order.
pub uninterp spec fn source_srcs(html: Seq<char>) -> Seq<Seq<char>>;

/// Whether a string parses as a URL reference against the site's base
/// address.
pub uninterp spec fn url_ok(s: Seq<char>) -> bool;

/// The well-formed candidates among a list of extracted `src` values.
pub open spec fn candidates_of(srcs: Seq<Seq<char>>) -> Seq<Seq<char>> {
    srcs.filter(|u: Seq<char>| url_ok(u))
}

/// The candidate media URL list of a page: its `<source>` `src` values
/// that parse as URL references, in document order.
pub open spec fn media_candidates(html: Seq<char>) -> Seq<Seq<char>> {
    candidates_of(source_srcs(html))
}

/// Relies on select's `Document::find` and `Node::attr`: parsing the
/// HTML document and collecting the `src` attribute of each `<source>`
/// element, in document order. Inputs at select's 4 GB buffer limit
/// would panic there, so the bound excludes them.
#[verifier::external_body]
fn extract_source_srcs(html: &str) -> (r: Vec<String>)
    requires
        html@.len() < HTML_CHAR_LIMIT,
    ensures
        r.deep_view() == source_srcs(html@),
{
    select::document::Document::from(html)
        .find(select::predicate::Name("source"))
        .filter_map(|node| node.attr("src").map(String::from))
        .collect()
}

/// Relies on url's `Url::parse` and `Url::join`: whether `s` parses as
/// a URL reference against the site's base address. The result depends
/// on the characters of `s` alone.
#[verifier::external_body]
fn is_media_url(s: &str) -> (r: bool)
    ensures
        r == url_ok(s@),
{
    match url::Url::parse("https://jut.su/") {
        Ok(base) => base.join(s).is_ok(),
        Err(_) => false,
    }
}

/// Filtering keeps an entry exactly when it is a well-formed URL.
proof fn lemma_candidates_push(s: Seq<Seq<char>>, x: Seq<char>)
    ensures
        candidates_of(s.push(x)) == (if url_ok(x) {
            candidates_of(s).push(x)
        } else {
            candidates_of(s)
        }),
{
    reveal(Seq::filter);
    assert(s.push(x).drop_last() =~= s);
    assert(s.push(x).last() == x);
}

/// The ordered candidate media URL list of a fetched episode page. An
/// empty result means the page exists but offers no playable media.
/// The page must fit the HTML parser's buffers.
pub fn locate_media(html: &str) -> (urls: Vec<String>)
    requires
        html@.len() < HTML_CHAR_LIMIT,
    ensures
        urls.deep_view() == media_candidates(html@),
{
    let found = extract_source_srcs(html);
    let n = found.len();
    let mut urls: Vec<String> = Vec::new();
    proof {
        reveal(Seq::filter);
        assert(urls.deep_view() =~= candidates_of(found.deep_view().take(0)));
    }
    let mut i: usize = 0;
    while i < n
        invariant
            n == found@.len(),
            found.deep_view() == source_srcs(html@),
            i <= n,
            urls.deep_view() == candidates_of(found.deep_view().take(i as int)),
        decreases n - i,
    {
        let u = &found[i];
        proof {
            assert(found.deep_view().take(i + 1).drop_last() =~= found.deep_view().take(i as int));
            lemma_candidates_push(found.deep_view().take(i as int), u@);
            assert(found.deep_view().take(i + 1) =~= found.deep_view().take(i as int).push(u@));
        }
        if is_media_url(u.as_str()) {
            urls.push(u.clone());
            proof {
                assert(urls.deep_view() =~= candidates_of(found.deep_view().take(i + 1)));
            }
        } else {
            proof {
                assert(urls.deep_view() =~= candidates_of(found.deep_view().take(i + 1)));
            }
        }
        i = i + 1;
    }
    proof {
        assert(found.deep_view().take(n as int) =~= found.deep_view());
    }
    urls
}

/// Pick the candidate at the tier's index: a missing list is
/// `NoVideoLinksFound`, an index past the end is
/// `ResolutionUnavailable` — never a silent fallback.
pub fn select_media(urls: &Vec<String>, episode: usize, tier: Resolution) -> (r: Result<
    String,
    Error,
>)
    ensures
        urls@.len() == 0 ==> (r matches Err(e) && e == Error::NoVideoLinksFound(episode)),
        urls@.len() > 0 && tier.spec_index() < urls@.len() ==> (r matches Ok(u) && u@
            == urls.deep_view()[tier.spec_index()]),
        urls@.len() > 0 && tier.spec_index() >= urls@.len() ==> (r matches Err(e) && e
            == Error::ResolutionUnavailable(episode, tier)),
{
    if urls.len() == 0 {
        return Err(Error::NoVideoLinksFound(episode));
    }
    let idx = tier.index();
    if idx < urls.len() {
        Ok(urls[idx].clone())
    } else {
        Err(Error::ResolutionUnavailable(episode, tier))
    }
}

} // verus!
