//! The record produced for each successfully resolved candidate element.

use vstd::prelude::*;

verus! {

/// One extracted article: a resolved title, the anchor's link (or the
/// sentinel when the anchor carried none), and the originating domain.
///
/// Immutable after creation; owned by the output list of one extraction run.
pub struct ArticleData {
    pub article_title: String,
    pub url_link: String,
    pub domain_name: String,
}

/// Mathematical model of an `ArticleData`: its three fields as
/// character sequences.
#[verifier::ext_equal]
pub ghost struct ArticleView {
    pub article_title: Seq<char>,
    pub url_link: Seq<char>,
    pub domain_name: Seq<char>,
}

impl View for ArticleData {
    type V = ArticleView;

    open spec fn view(&self) -> ArticleView {
        ArticleView {
            article_title: self.article_title@,
            url_link: self.url_link@,
            domain_name: self.domain_name@,
        }
    }
}

impl DeepView for ArticleData {
    type V = ArticleView;

    open spec fn deep_view(&self) -> ArticleView {
        self.view()
    }
}

} // verus!
