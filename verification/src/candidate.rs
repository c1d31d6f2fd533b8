//! A candidate element, reduced to the plain values the title cascade reads.

use vstd::prelude::*;

verus! {

/// Everything the extraction cascade reads of one candidate element, as
/// plain values: the link attribute if present, the text content of the
/// first descendant matched by each of the two heading selectors, and the
/// candidate's own raw inner markup (which only the fallback tier reads).
///
/// In the default configuration the two heading selectors are heading
/// level 2 and heading level 3.
pub struct Candidate {
    pub href: Option<String>,
    pub first_heading: Option<String>,
    pub second_heading: Option<String>,
    pub inner_html: String,
}

/// Mathematical model of a `Candidate`.
#[verifier::ext_equal]
pub ghost struct CandidateView {
    pub href: Option<Seq<char>>,
    pub first_heading: Option<Seq<char>>,
    pub second_heading: Option<Seq<char>>,
    pub inner_html: Seq<char>,
}

impl View for Candidate {
    type V = CandidateView;

    open spec fn view(&self) -> CandidateView {
        CandidateView {
            href: self.href.deep_view(),
            first_heading: self.first_heading.deep_view(),
            second_heading: self.second_heading.deep_view(),
            inner_html: self.inner_html@,
        }
    }
}

impl DeepView for Candidate {
    type V = CandidateView;

    open spec fn deep_view(&self) -> CandidateView {
        self.view()
    }
}

} // verus!
