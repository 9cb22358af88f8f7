use delta_sharing::with_pagination;
use delta_sharing::Pagination;

#[test]
fn from_start() {
    let pagination = Pagination::from_start(Some(100));

    assert_eq!(pagination.is_start(), true);
    assert_eq!(pagination.max_results(), Some(100));
    assert_eq!(pagination.page_token(), None);
    assert!(pagination.has_next_page());
}

#[test]
fn from_token() {
    let pagination = Pagination::from_token(Some(100), String::from("foo"));

    assert_eq!(pagination.is_start(), false);
    assert_eq!(pagination.max_results(), Some(100));
    assert_eq!(pagination.page_token(), Some("foo"));
    assert!(pagination.has_next_page());
}

#[test]
fn advance_pagination_from_start() {
    let mut p = Pagination::from_start(None);
    assert!(p.has_next_page());

    p.set_page_token(Some("foo".to_owned()));
    assert!(p.has_next_page());

    p.set_page_token(None);
    assert!(!p.has_next_page());
}

#[test]
fn advance_pagination_from_token() {
    let mut p = Pagination::from_token(None, String::from("foo"));
    assert!(p.has_next_page());

    p.set_page_token(Some("bar".to_owned()));
    assert!(p.has_next_page());

    p.set_page_token(None);
    assert!(!p.has_next_page());
}

#[test]
fn add_pagination_to_url() {
    let pagination = Pagination::from_token(Some(7), "foo".to_owned());

    let basic_url = with_pagination("http://delta.io/", &pagination);
    assert_eq!(basic_url.as_str(), "http://delta.io/?maxResults=7&pageToken=foo");
}

#[test]
fn empty_token_means_finished() {
    let mut p = Pagination::from_start(None);
    p.set_page_token(Some(String::new()));
    assert!(!p.has_next_page());
    assert!(p.is_finished());
}
