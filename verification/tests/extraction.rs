use newscrape::candidate::Candidate;
use newscrape::records::extract_articles;
use newscrape::title::fallback_title_of;

fn cand(href: Option<&str>, first: Option<&str>, second: Option<&str>, inner: &str) -> Candidate {
    Candidate {
        href: href.map(|s| s.to_string()),
        first_heading: first.map(|s| s.to_string()),
        second_heading: second.map(|s| s.to_string()),
        inner_html: inner.to_string(),
    }
}

#[test]
fn first_heading_dominates() {
    let c = cand(Some("/a"), Some("First"), Some("Second"), "x ->Fallback< y");
    let out = extract_articles(&vec![c], "site.com");
    assert_eq!(out.len(), 1);
    assert_eq!(out[0].article_title, "First");
    assert_eq!(out[0].url_link, "/a");
    assert_eq!(out[0].domain_name, "site.com");
}

#[test]
fn second_heading_when_no_first() {
    let c = cand(Some("/b"), None, Some("Second"), "x ->Fallback< y");
    let out = extract_articles(&vec![c], "site.com");
    assert_eq!(out.len(), 1);
    assert_eq!(out[0].article_title, "Second");
}

#[test]
fn fallback_when_no_headings() {
    let c = cand(Some("/c"), None, None, "junk ->Top Story<div attr");
    let out = extract_articles(&vec![c], "site.com");
    assert_eq!(out.len(), 1);
    assert_eq!(out[0].article_title, "Top Story");
}

#[test]
fn fallback_strips_all_marker_characters() {
    let c = cand(None, None, None, "x->a-b>c<z");
    let out = extract_articles(&vec![c], "d");
    assert_eq!(out.len(), 1);
    assert_eq!(out[0].article_title, "abc");
}

#[test]
fn fallback_stops_at_next_close() {
    assert_eq!(fallback_title_of("->a<b<"), Some("a".to_string()));
}

#[test]
fn fallback_takes_leftmost_match() {
    assert_eq!(fallback_title_of("->first< then ->second<"), Some("first".to_string()));
}

#[test]
fn fallback_arrow_without_close_yields_nothing() {
    assert_eq!(fallback_title_of("a -> b with no close"), None);
    assert_eq!(fallback_title_of("plain text"), None);
    assert_eq!(fallback_title_of(""), None);
}

#[test]
fn empty_titles_contribute_no_record() {
    // an empty fallback region and an empty first heading each resolve to
    // an empty title, and an empty title never becomes a record; the
    // cascade still short-circuits on the first heading, so the second
    // heading of the middle candidate is not consulted
    let a = cand(Some("/1"), None, None, "-><");
    let b = cand(Some("/2"), Some(""), Some("Second"), "");
    let c = cand(Some("/3"), Some("Kept"), None, "");
    let out = extract_articles(&vec![a, b, c], "site.com");
    assert_eq!(out.len(), 1);
    assert_eq!(out[0].article_title, "Kept");
    assert_eq!(out[0].url_link, "/3");
}

#[test]
fn unresolved_candidate_is_skipped_not_fatal() {
    let a = cand(Some("/1"), Some("One"), None, "");
    let b = cand(Some("/2"), None, None, "nothing to match");
    let c = cand(Some("/3"), None, Some("Three"), "");
    let out = extract_articles(&vec![a, b, c], "site.com");
    assert_eq!(out.len(), 2);
    assert_eq!(out[0].article_title, "One");
    assert_eq!(out[1].article_title, "Three");
}

#[test]
fn missing_href_gets_sentinel_link() {
    let c = cand(None, Some("Titled"), None, "");
    let out = extract_articles(&vec![c], "site.com");
    assert_eq!(out.len(), 1);
    assert_eq!(out[0].article_title, "Titled");
    assert_eq!(out[0].url_link, "no url found");
}

#[test]
fn order_preserved_no_dedup() {
    let a = cand(Some("/1"), Some("Same"), None, "");
    let b = cand(Some("/1"), Some("Same"), None, "");
    let c = cand(Some("/2"), Some("Other"), None, "");
    let out = extract_articles(&vec![a, b, c], "site.com");
    assert_eq!(out.len(), 3);
    assert_eq!(out[0].article_title, "Same");
    assert_eq!(out[1].article_title, "Same");
    assert_eq!(out[2].article_title, "Other");
    assert_eq!(out[0].url_link, "/1");
    assert_eq!(out[2].url_link, "/2");
}

#[test]
fn no_candidates_no_records() {
    let out = extract_articles(&vec![], "site.com");
    assert!(out.is_empty());
}
