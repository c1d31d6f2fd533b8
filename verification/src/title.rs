//! The title-resolution cascade: an ordered, short-circuiting sequence of
//! heuristics that derives a display title for one candidate element.
//!
//! Tier 1 takes the text content of the first descendant matched by the
//! first heading selector; tier 2, only when tier 1 found nothing, that of
//! the second heading selector; tier 3, only when neither heading matched,
//! scans the candidate's raw inner markup for the first arrow-delimited
//! region (from a `->` marker up to the next `<`) and strips the delimiter
//! characters `-`, `>`, `<` from it.  A candidate for which no tier yields
//! a title is skipped; that is a normal outcome, not an error.

use vstd::prelude::*;

use crate::candidate::CandidateView;

verus! {

/// The delimiter characters of the fallback pattern, removed from a raw
/// fallback match to yield the title text.
pub open spec fn is_marker(c: char) -> bool {
    c == '-' || c == '>' || c == '<'
}

/// An arrow marker `->` begins at position `i` of `s`.
pub open spec fn arrow_at(s: Seq<char>, i: int) -> bool {
    &&& 0 <= i
    &&& i + 2 <= s.len()
    &&& s[i] == '-'
    &&& s[i + 1] == '>'
}

/// A full arrow-delimited match begins at position `i` of `s`: an arrow
/// marker followed, possibly after other characters, by a closing `<`.
pub open spec fn match_at(s: Seq<char>, i: int) -> bool {
    arrow_at(s, i) && exists|j: int| i + 2 <= j < s.len() && s[j] == '<'
}

/// Position of the first `<` at or after `from`, if any.
pub open spec fn first_close(s: Seq<char>, from: int) -> Option<int>
    decreases s.len() - from,
{
    if from >= s.len() {
        None
    } else if s[from] == '<' {
        Some(from)
    } else {
        first_close(s, from + 1)
    }
}

/// Start position of the leftmost arrow-delimited match at or after
/// `from`, if any.
pub open spec fn first_match_start(s: Seq<char>, from: int) -> Option<int>
    decreases s.len() - from,
{
    if from + 2 > s.len() {
        None
    } else if arrow_at(s, from) && first_close(s, from + 2) is Some {
        Some(from)
    } else {
        first_match_start(s, from + 1)
    }
}

/// All delimiter characters removed.
pub open spec fn strip_markers(s: Seq<char>) -> Seq<char> {
    s.filter(|c: char| !is_marker(c))
}

/// The tier-3 fallback title of raw inner markup `s`: the leftmost
/// arrow-delimited match with the delimiter characters stripped, or `None`
/// when no match exists.
pub open spec fn fallback_title(s: Seq<char>) -> Option<Seq<char>> {
    match first_match_start(s, 0) {
        Some(i) => match first_close(s, i + 2) {
            Some(j) => Some(strip_markers(s.subrange(i, j + 1))),
            None => None,
        },
        None => None,
    }
}

/// The whole cascade: the first heading's text if one matched, else the
/// second heading's, else the fallback title of the candidate's raw inner
/// markup.
pub open spec fn resolved_title(c: CandidateView) -> Option<Seq<char>> {
    if c.first_heading is Some {
        c.first_heading
    } else if c.second_heading is Some {
        c.second_heading
    } else {
        fallback_title(c.inner_html)
    }
}

fn find_close(s: &str, from: usize) -> (r: Option<usize>)
    requires
        from <= s@.len(),
    ensures
        match r {
            Some(j) => first_close(s@, from as int) == Some(j as int) && from <= j < s@.len(),
            None => first_close(s@, from as int) is None,
        },
{
    let n = s.unicode_len();
    let mut i = from;
    while i < n
        invariant
            from <= i <= n,
            n == s@.len(),
            first_close(s@, from as int) == first_close(s@, i as int),
        decreases n - i,
    {
        if s.get_char(i) == '<' {
            return Some(i);
        }
        assert(first_close(s@, i as int) == first_close(s@, i as int + 1));
        i = i + 1;
    }
    None
}

fn strip_markers_range(s: &str, from: usize, to: usize) -> (r: String)
    requires
        from <= to <= s@.len(),
    ensures
        r@ == strip_markers(s@.subrange(from as int, to as int)),
{
    let mut out = String::new();
    let mut k = from;
    while k < to
        invariant
            from <= k <= to <= s@.len(),
            out@ == strip_markers(s@.subrange(from as int, k as int)),
        decreases to - k,
    {
        let c = s.get_char(k);
        proof {
            reveal_with_fuel(Seq::<char>::filter, 2);
            let pre = s@.subrange(from as int, k as int);
            let ext = s@.subrange(from as int, k as int + 1);
            assert(ext.drop_last() =~= pre);
            assert(ext.last() == s@[k as int]);
            if !is_marker(s@[k as int]) {
                assert(strip_markers(ext) =~= strip_markers(pre).push(s@[k as int]));
            } else {
                assert(strip_markers(ext) =~= strip_markers(pre));
            }
        }
        if !(c == '-' || c == '>' || c == '<') {
            let piece = s.substring_char(k, k + 1);
            out.append(piece);
            assert(piece@ =~= seq![s@[k as int]]);
            assert(out@ =~= strip_markers(s@.subrange(from as int, k as int)).push(s@[k as int]));
        }
        k = k + 1;
    }
    out
}

/// The executable tier-3 fallback: the leftmost arrow-delimited match of
/// `s` with the delimiter characters stripped, or `None` when no match
/// exists.
pub fn fallback_title_of(s: &str) -> (r: Option<String>)
    ensures
        match r {
            Some(t) => fallback_title(s@) == Some(t@),
            None => fallback_title(s@) is None,
        },
{
    let n = s.unicode_len();
    let mut i: usize = 0;
    while i < n && n - i >= 2
        invariant
            0 <= i <= n,
            n == s@.len(),
            first_match_start(s@, 0) == first_match_start(s@, i as int),
        decreases n - i,
    {
        if s.get_char(i) == '-' && s.get_char(i + 1) == '>' {
            match find_close(s, i + 2) {
                Some(j) => {
                    assert(arrow_at(s@, i as int));
                    assert(first_match_start(s@, i as int) == Some(i as int));
                    let title = strip_markers_range(s, i, j + 1);
                    return Some(title);
                },
                None => {
                    assert(first_match_start(s@, i as int) == first_match_start(
                        s@,
                        i as int + 1,
                    ));
                },
            }
        } else {
            assert(!arrow_at(s@, i as int));
            assert(first_match_start(s@, i as int) == first_match_start(s@, i as int + 1));
        }
        i = i + 1;
    }
    assert(first_match_start(s@, i as int) is None);
    None
}

/// Tier 1 strictly dominates: whenever the first heading selector matched,
/// its text is the resolved title, whatever the second heading or the
/// fallback pattern would have yielded.
pub proof fn lemma_first_heading_dominates(c: CandidateView)
    requires
        c.first_heading is Some,
    ensures
        resolved_title(c) == c.first_heading,
{
}

/// Tier 2: with no first-heading match but a second-heading match, the
/// resolved title is the second heading's text.
pub proof fn lemma_second_heading_next(c: CandidateView)
    requires
        c.first_heading is None,
        c.second_heading is Some,
    ensures
        resolved_title(c) == c.second_heading,
{
}

proof fn lemma_first_close_characterizes(s: Seq<char>, from: int)
    requires
        0 <= from,
    ensures
        first_close(s, from) is Some <==> exists|j: int| from <= j < s.len() && s[j] == '<',
        first_close(s, from) matches Some(j) ==> from <= j < s.len() && s[j] == '<',
    decreases s.len() - from,
{
    if from >= s.len() {
    } else if s[from] == '<' {
        assert(from <= from < s.len() && s[from] == '<');
    } else {
        lemma_first_close_characterizes(s, from + 1);
        if exists|j: int| from <= j < s.len() && s[j] == '<' {
            let j = choose|j: int| from <= j < s.len() && s[j] == '<';
            assert(from + 1 <= j < s.len() && s[j] == '<');
        }
    }
}

proof fn lemma_first_match_start_characterizes(s: Seq<char>, from: int)
    requires
        0 <= from,
    ensures
        first_match_start(s, from) is Some <==> exists|i: int| from <= i && match_at(s, i),
        first_match_start(s, from) matches Some(i) ==> from <= i && match_at(s, i),
    decreases s.len() - from,
{
    if from + 2 > s.len() {
        assert(forall|i: int| from <= i ==> !match_at(s, i));
    } else {
        lemma_first_close_characterizes(s, from + 2);
        if arrow_at(s, from) && first_close(s, from + 2) is Some {
            assert(match_at(s, from));
        } else {
            lemma_first_match_start_characterizes(s, from + 1);
            assert(!match_at(s, from));
            if exists|i: int| from <= i && match_at(s, i) {
                let i = choose|i: int| from <= i && match_at(s, i);
                assert(from + 1 <= i && match_at(s, i));
            }
        }
    }
}

/// Tier 3: with neither heading matched, a title is produced iff the
/// candidate's inner markup contains an arrow-delimited match; the
/// produced title is the leftmost raw match with the delimiter characters
/// stripped, and so carries no `-`, `>` or `<` itself.
pub proof fn lemma_fallback_tier(c: CandidateView)
    requires
        c.first_heading is None,
        c.second_heading is None,
    ensures
        resolved_title(c) is Some <==> exists|i: int| match_at(c.inner_html, i),
        resolved_title(c) matches Some(t) ==> {
            let i = first_match_start(c.inner_html, 0)->Some_0;
            let j = first_close(c.inner_html, i + 2)->Some_0;
            &&& first_match_start(c.inner_html, 0) is Some
            &&& first_close(c.inner_html, i + 2) is Some
            &&& t == strip_markers(c.inner_html.subrange(i, j + 1))
        },
        resolved_title(c) matches Some(t) ==> forall|k: int|
            0 <= k < t.len() ==> !is_marker(#[trigger] t[k]),
{
    broadcast use vstd::seq_lib::group_filter_ensures;

    let s = c.inner_html;
    lemma_first_match_start_characterizes(s, 0);
    match first_match_start(s, 0) {
        Some(i) => lemma_first_close_characterizes(s, i + 2),
        None => (),
    }
}

} // verus!
