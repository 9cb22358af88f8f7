use delta_sharing::classify;
use delta_sharing::resolve_share_lookup;
use delta_sharing::table_version_from_response;
use delta_sharing::ErrorKind;
use delta_sharing::GetShareResponse;
use delta_sharing::ListResponse;
use delta_sharing::Share;

#[test]
fn classify_success_payload() {
    let body = r#"{"items": [{"name": "sales", "id": "abc"}, {"name": "hr"}], "nextPageToken": "tok"}"#;
    let page: ListResponse<Share> = classify::<ListResponse<Share>>(200, body).unwrap();
    assert_eq!(page.items().len(), 2);
    assert_eq!(page.items()[0].name(), "sales");
    assert_eq!(page.items()[0].id(), Some("abc"));
    assert_eq!(page.items()[1].name(), "hr");
    assert_eq!(page.items()[1].id(), None);
    assert_eq!(page.next_page_token(), Some("tok"));
}

#[test]
fn classify_malformed_success_body() {
    let body = r#"{"items": "not a list"}"#;
    let err = classify::<ListResponse<Share>>(200, body).unwrap_err();
    assert!(matches!(err.kind(), ErrorKind::ParseResponse));
    assert_eq!(err.message(), "failed to parse server response");

    let err = classify::<ListResponse<Share>>(200, "not json at all").unwrap_err();
    assert!(matches!(err.kind(), ErrorKind::ParseResponse));
}

#[test]
fn classify_not_found_error() {
    let body = r#"{"errorCode": "SHARE_NOT_FOUND", "message": "m"}"#;
    let err = classify::<GetShareResponse>(404, body).unwrap_err();
    match err.kind() {
        ErrorKind::ClientError { status, code } => {
            assert_eq!(*status, 404);
            assert_eq!(code.as_str(), "SHARE_NOT_FOUND");
        }
        _ => panic!("expected a client error"),
    }
    assert_eq!(err.message(), "m");
    assert_eq!(err.display_string(), "Client error: 404 - SHARE_NOT_FOUND - m");
    assert!(err.is_not_found());

    let resolved = resolve_share_lookup(Err(err));
    assert_eq!(resolved.unwrap().map(|s| s.name().to_owned()), None);
}

#[test]
fn classify_client_and_server_errors() {
    let body = r#"{"errorCode": "BAD", "message": "nope"}"#;
    for status in [400u16, 401, 403] {
        let err = classify::<GetShareResponse>(status, body).unwrap_err();
        match err.kind() {
            ErrorKind::ClientError { status: s, code } => {
                assert_eq!(*s, status);
                assert_eq!(code.as_str(), "BAD");
            }
            _ => panic!("expected a client error"),
        }
        assert!(!err.is_not_found());
    }
    let err = classify::<GetShareResponse>(500, body).unwrap_err();
    match err.kind() {
        ErrorKind::ServerError { status, code } => {
            assert_eq!(*status, 500);
            assert_eq!(code.as_str(), "BAD");
        }
        _ => panic!("expected a server error"),
    }
    assert_eq!(err.display_string(), "Server error: 500 - BAD - nope");

    let err = classify::<GetShareResponse>(404, "garbage").unwrap_err();
    assert!(matches!(err.kind(), ErrorKind::ParseResponse));
}

#[test]
fn classify_unknown_status_skips_body() {
    let err = classify::<GetShareResponse>(418, "{malformed").unwrap_err();
    assert!(matches!(err.kind(), ErrorKind::Internal));
    assert_eq!(err.message(), "unknown server response");

    let err = classify::<GetShareResponse>(302, "").unwrap_err();
    assert!(matches!(err.kind(), ErrorKind::Internal));
}

#[test]
fn classify_get_share_success() {
    let body = r#"{"share": {"name": "sales"}}"#;
    let response = classify::<GetShareResponse>(200, body).unwrap();
    assert_eq!(response.share().name(), "sales");

    let resolved = resolve_share_lookup(Ok(response)).unwrap();
    assert_eq!(resolved.map(|s| s.name().to_owned()), Some("sales".to_owned()));
}

#[test]
fn table_version_from_header() {
    let v = table_version_from_response(200, Some("42"), "").unwrap();
    assert_eq!(v.version(), 42);

    let err = table_version_from_response(200, None, "").unwrap_err();
    assert!(matches!(err.kind(), ErrorKind::ParseResponse));
    assert_eq!(err.message(), "parsing delta-table-version header failed");

    let err = table_version_from_response(200, Some("not a number"), "").unwrap_err();
    assert!(matches!(err.kind(), ErrorKind::ParseResponse));

    let err = table_version_from_response(200, Some(""), "").unwrap_err();
    assert!(matches!(err.kind(), ErrorKind::ParseResponse));
}

#[test]
fn table_version_routes_errors_through_classifier() {
    let body = r#"{"errorCode": "TABLE_NOT_FOUND", "message": "gone"}"#;
    let err = table_version_from_response(404, Some("42"), body).unwrap_err();
    match err.kind() {
        ErrorKind::ClientError { status, code } => {
            assert_eq!(*status, 404);
            assert_eq!(code.as_str(), "TABLE_NOT_FOUND");
        }
        _ => panic!("expected a client error"),
    }

    let err = table_version_from_response(418, None, "anything").unwrap_err();
    assert!(matches!(err.kind(), ErrorKind::Internal));
    assert_eq!(err.message(), "unknown server response");
}
