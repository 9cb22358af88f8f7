use delta_sharing::Aggregator;
use delta_sharing::ErrorKind;
use delta_sharing::JsonPayload;
use delta_sharing::ListResponse;
use delta_sharing::Share;

fn share(name: &str) -> Share {
    Share::new(name.to_owned(), None)
}

fn names(items: Vec<Share>) -> Vec<String> {
    items.iter().map(|s| s.name().to_owned()).collect()
}

#[test]
fn two_pages_aggregate_in_order() {
    let mut agg: Aggregator<Share> = Aggregator::new(None, 1000);
    assert!(agg.has_next_page());

    let page1 = ListResponse::new(vec![share("a"), share("b")], Some("next".to_owned()));
    agg.accept_page(page1).unwrap();
    assert!(agg.has_next_page());
    assert_eq!(agg.cursor().page_token(), Some("next"));

    let page2 = ListResponse::new(vec![share("c")], Some(String::new()));
    agg.accept_page(page2).unwrap();
    assert!(!agg.has_next_page());

    assert_eq!(names(agg.into_items()), vec!["a", "b", "c"]);
}

#[test]
fn single_page_equals_one_iteration() {
    let mut agg: Aggregator<Share> = Aggregator::new(None, 1000);
    let page = ListResponse::new(vec![share("c")], Some(String::new()));
    agg.accept_page(page).unwrap();
    assert!(!agg.has_next_page());
    assert_eq!(names(agg.into_items()), vec!["c"]);
}

#[test]
fn empty_page_without_token_finishes_empty() {
    let body = r#"{"items": []}"#;
    let page = <ListResponse<Share> as JsonPayload>::parse_body(body).unwrap();
    assert_eq!(page.items().len(), 0);
    assert_eq!(page.next_page_token(), None);

    let mut agg: Aggregator<Share> = Aggregator::new(None, 1000);
    assert!(agg.has_next_page());
    agg.accept_page(page).unwrap();
    assert!(!agg.has_next_page());
    assert_eq!(agg.into_items().len(), 0);
}

#[test]
fn page_cap_raises_internal_error() {
    let mut agg: Aggregator<Share> = Aggregator::new(None, 2);
    agg.accept_page(ListResponse::new(vec![share("a")], Some("t1".to_owned()))).unwrap();
    agg.accept_page(ListResponse::new(vec![share("b")], Some("t2".to_owned()))).unwrap();
    assert!(agg.has_next_page());

    let err = agg
        .accept_page(ListResponse::new(vec![share("c")], Some("t3".to_owned())))
        .unwrap_err();
    assert!(matches!(err.kind(), ErrorKind::Internal));
    assert_eq!(err.message(), "pagination exceeded the page cap");

    let kept = agg.into_items();
    assert_eq!(names(kept), vec!["a", "b"]);
}

#[test]
fn max_results_travels_with_the_cursor() {
    let agg: Aggregator<Share> = Aggregator::new(Some(25), 1000);
    assert_eq!(agg.cursor().max_results(), Some(25));
    assert_eq!(agg.cursor().page_token(), None);
}
