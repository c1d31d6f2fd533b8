//! One extraction run: the ordered list of article records derived from
//! the candidates of a page.

use vstd::prelude::*;

use crate::article::ArticleData;
use crate::article::ArticleView;
use crate::candidate::Candidate;
use crate::candidate::CandidateView;
use crate::html::select_candidates;
use crate::html::selected_candidates;
use crate::title::fallback_title_of;
use crate::title::resolved_title;

verus! {

/// The link of a candidate's record: its link attribute, or the sentinel
/// when the attribute is absent.  A missing link is never a failure.
pub open spec fn link_of(c: CandidateView) -> Seq<char> {
    match c.href {
        Some(h) => h,
        None => "no url found"@,
    }
}

/// The record one candidate contributes: its resolved title with its link
/// and the originating domain, or `None` when no cascade tier produced a
/// title, or when the title a tier produced is empty.  Either way the
/// candidate is skipped, never failed: a record's title is never empty.
pub open spec fn candidate_record(c: CandidateView, domain: Seq<char>) -> Option<ArticleView> {
    match resolved_title(c) {
        Some(t) => if t.len() > 0 {
            Some(ArticleView { article_title: t, url_link: link_of(c), domain_name: domain })
        } else {
            None
        },
        None => None,
    }
}

/// The records of a whole run: each candidate's record in candidate
/// order, candidates without a resolved title contributing nothing.
pub open spec fn extracted_records(cs: Seq<CandidateView>, domain: Seq<char>) -> Seq<ArticleView>
    decreases cs.len(),
{
    if cs.len() == 0 {
        Seq::empty()
    } else {
        extracted_records(cs.drop_last(), domain) + match candidate_record(cs.last(), domain) {
            Some(r) => seq![r],
            None => Seq::empty(),
        }
    }
}

/// Result order equals candidate (document) order: the records of two
/// candidate lists run back to back are the records of the first list
/// followed by the records of the second, with no reordering and no
/// deduplication.
pub proof fn lemma_extraction_preserves_order(
    cs1: Seq<CandidateView>,
    cs2: Seq<CandidateView>,
    domain: Seq<char>,
)
    ensures
        extracted_records(cs1 + cs2, domain) == extracted_records(cs1, domain)
            + extracted_records(cs2, domain),
    decreases cs2.len(),
{
    if cs2.len() == 0 {
        assert(cs1 + cs2 =~= cs1);
        assert(extracted_records(cs1, domain) + extracted_records(cs2, domain)
            =~= extracted_records(cs1, domain));
    } else {
        lemma_extraction_preserves_order(cs1, cs2.drop_last(), domain);
        assert((cs1 + cs2).drop_last() =~= cs1 + cs2.drop_last());
        assert((cs1 + cs2).last() == cs2.last());
        assert(extracted_records(cs1 + cs2, domain) =~= extracted_records(cs1, domain)
            + extracted_records(cs2, domain));
    }
}

/// A candidate without a link attribute gets the sentinel link, and still
/// contributes a record exactly when a non-empty title was resolved: a
/// missing link never turns a candidate into a failure.
pub proof fn lemma_missing_link_sentinel(c: CandidateView, domain: Seq<char>)
    requires
        c.href is None,
    ensures
        link_of(c) == "no url found"@,
        candidate_record(c, domain) is Some <==> (resolved_title(c) matches Some(t) && t.len()
            > 0),
{
}

/// No record carries an empty title: every title in a run's output is
/// non-empty.
pub proof fn lemma_titles_nonempty(cs: Seq<CandidateView>, domain: Seq<char>)
    ensures
        forall|k: int|
            0 <= k < extracted_records(cs, domain).len() ==> (#[trigger] extracted_records(
                cs,
                domain,
            )[k]).article_title.len() > 0,
    decreases cs.len(),
{
    if cs.len() > 0 {
        lemma_titles_nonempty(cs.drop_last(), domain);
        let rec = extracted_records(cs, domain);
        let pre = extracted_records(cs.drop_last(), domain);
        match candidate_record(cs.last(), domain) {
            Some(r) => {
                assert(r.article_title.len() > 0);
                assert forall|k: int| 0 <= k < rec.len() implies (#[trigger] rec[k]).article_title.len()
                    > 0 by {
                    if k < pre.len() {
                        assert(rec[k] == pre[k]);
                    } else {
                        assert(rec[k] == r);
                    }
                }
            },
            None => {
                assert(rec =~= pre);
            },
        }
    }
}

/// The verified extraction pass: applies the title cascade to each
/// candidate in order and collects the records of the candidates whose
/// title resolved non-empty.
pub fn extract_articles(candidates: &Vec<Candidate>, domain: &str) -> (r: Vec<ArticleData>)
    ensures
        r.deep_view() == extracted_records(candidates.deep_view(), domain@),
{
    let ghost all = candidates.deep_view();
    let mut out: Vec<ArticleData> = Vec::new();
    let n = candidates.len();
    assert(all.take(0) =~= Seq::<CandidateView>::empty());
    let mut idx: usize = 0;
    while idx < n
        invariant
            0 <= idx <= n,
            n == candidates.len(),
            all == candidates.deep_view(),
            out.deep_view() == extracted_records(all.take(idx as int), domain@),
        decreases n - idx,
    {
        let c = &candidates[idx];
        let ghost cv = all[idx as int];
        let link: String = match &c.href {
            Some(h) => h.clone(),
            None => String::from_str("no url found"),
        };
        assert(link@ == link_of(cv));
        let title_opt: Option<String> = match &c.first_heading {
            Some(t) => Some(t.clone()),
            None => match &c.second_heading {
                Some(t) => Some(t.clone()),
                None => fallback_title_of(c.inner_html.as_str()),
            },
        };
        proof {
            assert(all.take(idx as int + 1).drop_last() =~= all.take(idx as int));
            assert(all.take(idx as int + 1).last() == cv);
        }
        match title_opt {
            Some(title) => {
                assert(resolved_title(cv) == Some(title@));
                if !title.as_str().is_empty() {
                    let record = ArticleData {
                        article_title: title,
                        url_link: link,
                        domain_name: String::from_str(domain),
                    };
                    assert(record@ == candidate_record(cv, domain@)->Some_0);
                    out.push(record);
                    assert(out.deep_view() =~= extracted_records(
                        all.take(idx as int + 1),
                        domain@,
                    ));
                } else {
                    assert(candidate_record(cv, domain@) is None);
                    assert(out.deep_view() =~= extracted_records(
                        all.take(idx as int + 1),
                        domain@,
                    ));
                }
            },
            None => {
                assert(resolved_title(cv) is None);
                assert(out.deep_view() =~= extracted_records(all.take(idx as int + 1), domain@));
            },
        }
        idx = idx + 1;
    }
    assert(all.take(n as int) =~= all);
    out
}

/// One full extraction run over a fetched page: the page is parsed, the
/// candidates are selected with the fixed article-anchor convention
/// (anchor elements carrying the marker class, headings of level 2 and 3,
/// the `href` attribute), and the cascade is applied to each.  The fixed
/// selector strings are valid, so the run always yields its record list.
pub fn extract(page: &str, domain: &str) -> (r: Vec<ArticleData>)
    ensures
        ({
            &&& selected_candidates(page@, "a.js-content-viewer"@, "h2"@, "h3"@, "href"@)
                matches Some(cs)
            &&& r.deep_view() == extracted_records(cs, domain@)
        }),
{
    match select_candidates(page, "a.js-content-viewer", "h2", "h3", "href") {
        Some(candidates) => extract_articles(&candidates, domain),
        None => vstd::pervasive::unreached(),
    }
}

} // verus!

