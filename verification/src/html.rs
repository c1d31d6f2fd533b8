//! The boundary to the HTML parsing library: one call that reduces a raw
//! page to the plain per-candidate values the verified cascade works on.

use vstd::prelude::*;

use crate::candidate::Candidate;
use crate::candidate::CandidateView;

verus! {

/// What HTML parsing and selection yield for a page and a selector
/// configuration: `None` when one of the three selector strings is not a
/// valid selector, else the candidate values in document order.  The
/// result depends on the five arguments alone.
pub uninterp spec fn selected_candidates(
    page: Seq<char>,
    anchor_sel: Seq<char>,
    first_sel: Seq<char>,
    second_sel: Seq<char>,
    link_attr: Seq<char>,
) -> Option<Seq<CandidateView>>;

/// Relies on scraper's `Selector::parse`, `Html::parse_document`,
/// `Html::select`, `ElementRef::select`, `ElementRef::text` and
/// `Element::attr`: parses `page` as an HTML document and reads, for each
/// element matched by `anchor_sel` in document order, its `link_attr`
/// attribute, the text content (descendant text nodes, concatenated) of
/// its first descendant matched by `first_sel` and by `second_sel`, and
/// its own inner markup (`ElementRef::inner_html`).  Returns `None`
/// exactly when one of the three selector strings fails to parse; the
/// selector strings of the default configuration (an anchor with the
/// marker class, and the two plain heading type selectors) are valid
/// selectors, so with them the call returns `Some`.
#[verifier::external_body]
pub(crate) fn select_candidates(
    page: &str,
    anchor_sel: &str,
    first_sel: &str,
    second_sel: &str,
    link_attr: &str,
) -> (r: Option<Vec<Candidate>>)
    ensures
        r.deep_view() == selected_candidates(page@, anchor_sel@, first_sel@, second_sel@, link_attr@),
        anchor_sel@ == "a.js-content-viewer"@ && first_sel@ == "h2"@ && second_sel@ == "h3"@
            ==> r is Some,
{
    let anchor = scraper::Selector::parse(anchor_sel).ok()?;
    let first = scraper::Selector::parse(first_sel).ok()?;
    let second = scraper::Selector::parse(second_sel).ok()?;
    let document = scraper::Html::parse_document(page);
    Some(
        document.select(&anchor).map(|element| Candidate {
            href: element.value().attr(link_attr).map(|a| a.to_string()),
            first_heading: element.select(&first).next().map(|h| h.text().collect()),
            second_heading: element.select(&second).next().map(|h| h.text().collect()),
            inner_html: element.inner_html(),
        }).collect(),
    )
}

} // verus!
