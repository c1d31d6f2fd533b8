use newscrape::fetch::check_status;
use newscrape::fetch::fetch_url;
use newscrape::fetch::FetchError;
use newscrape::greet::welcome_message;
use newscrape::persist::artifact_filename;
use newscrape::persist::article_list_filename;
use newscrape::persist::raw_html_filename;

#[test]
fn url_is_built_from_bare_domain() {
    assert_eq!(fetch_url("example.com"), "https://example.com");
}

#[test]
fn only_status_200_is_accepted() {
    assert!(check_status(200).is_ok());
    assert_eq!(check_status(500), Err(FetchError::BadStatus(500)));
    assert_eq!(check_status(301), Err(FetchError::BadStatus(301)));
    assert_eq!(check_status(404), Err(FetchError::BadStatus(404)));
}

#[test]
fn artifact_name_has_all_parts() {
    assert_eq!(
        artifact_filename("site.com", "2020-01-02_03.04.05", "html"),
        "site.com_2020-01-02_03.04.05.html"
    );
    assert_eq!(artifact_filename("d", "s", "json"), "d_s.json");
}

#[test]
fn timestamped_names_carry_domain_and_extension() {
    let raw = raw_html_filename("site.com");
    assert!(raw.starts_with("site.com_"));
    assert!(raw.ends_with(".html"));
    assert!(raw.len() >= "site.com_".len() + 19 + ".html".len());
    let list = article_list_filename("site.com");
    assert!(list.starts_with("site.com_"));
    assert!(list.ends_with(".json"));
}

#[test]
fn stamp_has_second_granularity_shape() {
    let raw = raw_html_filename("site.com");
    let stamp: Vec<char> = raw["site.com_".len()..raw.len() - ".html".len()].chars().collect();
    let n = stamp.len();
    assert!(n >= 19);
    assert_eq!(stamp[n - 15], '-');
    assert_eq!(stamp[n - 12], '-');
    assert_eq!(stamp[n - 9], '_');
    assert_eq!(stamp[n - 6], '.');
    assert_eq!(stamp[n - 3], '.');
    for k in [14, 13, 11, 10, 8, 7, 5, 4, 2, 1] {
        assert!(stamp[n - k].is_ascii_digit());
    }
}

#[test]
fn welcome_names_the_user() {
    assert_eq!(welcome_message("Ada"), "Welcome, Ada!");
    assert_eq!(welcome_message(""), "Welcome, !");
}
