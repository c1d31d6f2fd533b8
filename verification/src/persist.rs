//! Naming of the files one run persists.  The writes themselves are I/O
//! and live outside the library; these functions fix the names under
//! which the raw page and the record list are saved.

use vstd::prelude::*;

verus! {

/// The name of a persisted artifact: domain, an underscore, a timestamp,
/// a dot and the extension.
pub open spec fn artifact_name(domain: Seq<char>, stamp: Seq<char>, ext: Seq<char>) -> Seq<char> {
    domain + "_"@ + stamp + "."@ + ext
}

/// A decimal digit.
pub open spec fn is_digit(c: char) -> bool {
    '0' <= c <= '9'
}

/// The shape of a second-granularity stamp: a year of at least four
/// characters, then month, day, hour, minute and second as two digits
/// each, with their five separators at fixed offsets from the end.
pub open spec fn stamp_shaped(s: Seq<char>) -> bool {
    let n = s.len() as int;
    &&& n >= 19
    &&& s[n - 15] == '-' && s[n - 12] == '-' && s[n - 9] == '_'
    &&& s[n - 6] == '.' && s[n - 3] == '.'
    &&& is_digit(s[n - 14]) && is_digit(s[n - 13])
    &&& is_digit(s[n - 11]) && is_digit(s[n - 10])
    &&& is_digit(s[n - 8]) && is_digit(s[n - 7])
    &&& is_digit(s[n - 5]) && is_digit(s[n - 4])
    &&& is_digit(s[n - 2]) && is_digit(s[n - 1])
}

/// Relies on chrono's `Local::now` and `DateTime::format` with a fixed
/// year-month-day_hour.minute.second pattern: the current local time at
/// second granularity.  The formatter zero-pads the year to at least four
/// characters and the other five fields to two digits each, with the five
/// separators between them, so every return is `stamp_shaped`.  The value
/// depends on the clock and the machine's time zone, so nothing more is
/// promised.  `Local::now` itself panics when the system clock stands
/// before the epoch; with any later clock the call returns normally.
/// Two saves within one second get equal stamps; the later one
/// overwrites, a documented limitation.
#[verifier::external_body]
fn local_second_stamp() -> (r: String)
    ensures
        r@.len() >= 19,
        stamp_shaped(r@),
{
    chrono::Local::now().format("%Y-%m-%d_%H.%M.%S").to_string()
}

/// Builds the artifact name for given parts.
pub fn artifact_filename(domain: &str, stamp: &str, ext: &str) -> (r: String)
    ensures
        r@ == artifact_name(domain@, stamp@, ext@),
{
    let mut out = String::from_str(domain);
    out.append("_");
    out.append(stamp);
    out.append(".");
    out.append(ext);
    out
}

/// The file name under which a run's raw page is saved: the domain and
/// the current local second, with the markup extension.
pub fn raw_html_filename(domain: &str) -> (r: String)
    ensures
        exists|stamp: Seq<char>|
            stamp_shaped(stamp) && r@ == #[trigger] artifact_name(domain@, stamp, "html"@),
{
    let stamp = local_second_stamp();
    let name = artifact_filename(domain, stamp.as_str(), "html");
    assert(name@ == artifact_name(domain@, stamp@, "html"@));
    name
}

/// The file name under which a run's extracted record list is saved: the
/// domain and the current local second, with the structured-data
/// extension.
pub fn article_list_filename(domain: &str) -> (r: String)
    ensures
        exists|stamp: Seq<char>|
            stamp_shaped(stamp) && r@ == #[trigger] artifact_name(domain@, stamp, "json"@),
{
    let stamp = local_second_stamp();
    let name = artifact_filename(domain, stamp.as_str(), "json");
    assert(name@ == artifact_name(domain@, stamp@, "json"@));
    name
}

} // verus!
