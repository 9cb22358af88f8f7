use delta_sharing::BearerToken;
use delta_sharing::Profile;
use delta_sharing::ProfileType;
use delta_sharing::TokenProvider;

#[test]
fn profile_from_json_v1_bearer_token() {
    let text = r#"{
        "shareCredentialsVersion": 1,
        "endpoint": "https://sharing.delta.io/delta-sharing/",
        "bearerToken": "foo-token",
        "expirationTime": "2021-11-14T00:12:29.0Z"
    }"#;
    let profile = match Profile::try_from_json(text) {
        Ok(p) => p,
        Err(e) => panic!("{}", e.message()),
    };
    assert_eq!(profile.share_credentials_version(), 1);
    assert_eq!(profile.endpoint(), "https://sharing.delta.io/delta-sharing/");
    assert!(profile.is_bearer_token());

    let expired = profile.provide_token().unwrap_err();
    assert_eq!(expired.message(), "Bearer token in profile has expired");

    let fresh = match Profile::try_new_bearer_token(
        1,
        "https://sharing.delta.io/delta-sharing/",
        "foo-token",
        None,
    ) {
        Ok(p) => p,
        Err(e) => panic!("{}", e.message()),
    };
    assert_eq!(fresh.provide_token().unwrap(), "foo-token");
}

#[test]
fn profile_from_json_malformed_file() {
    let profile = Profile::try_from_json(r#"{"malformed": "true"}"#);
    match profile {
        Err(e) => {
            assert_eq!(e.message(), "Failed to parse profile file");
            assert!(e.display_string().starts_with("[PROFILE_ERROR] Failed to parse profile file"));
        }
        Ok(_) => panic!("expected an error"),
    }
}

#[test]
fn profile_from_json_malformed_endpoint() {
    let text = r#"{
        "shareCredentialsVersion": 1,
        "endpoint": "malformed-url",
        "bearerToken": "t"
    }"#;
    let profile = Profile::try_from_json(text);
    match profile {
        Err(e) => {
            assert_eq!(e.message(), "Failed to parse endpoint URL in profile");
            assert!(e
                .display_string()
                .starts_with("[PROFILE_ERROR] Failed to parse endpoint URL in profile"));
        }
        Ok(_) => panic!("expected an error"),
    }
}

#[test]
fn fail_without_bearer_token() {
    let text = r#"{
        "shareCredentialsVersion": 1,
        "endpoint": "https://sharing.delta.io/delta-sharing/",
        "expirationTime": "2021-11-14T00:12:29.0Z"
    }"#;
    let profile = Profile::try_from_json(text);
    match profile {
        Err(e) => {
            assert_eq!(e.message(), "Bearer token is missing in profile file");
            assert_eq!(
                e.display_string(),
                "[PROFILE_ERROR] Bearer token is missing in profile file"
            );
        }
        Ok(_) => panic!("expected an error"),
    }
}

#[test]
fn fail_with_unsupported_version() {
    let text = r#"{
        "shareCredentialsVersion": 2,
        "endpoint": "https://sharing.delta.io/delta-sharing/",
        "bearerToken": "t"
    }"#;
    let profile = Profile::try_from_json(text);
    match profile {
        Err(e) => assert_eq!(e.message(), "Unsupported share credentials version: 2"),
        Ok(_) => panic!("expected an error"),
    }
}

#[test]
fn bearer_token_expiry() {
    let token = BearerToken::new("token".to_owned(), None);
    assert!(!token.has_expired());
    assert_eq!(token.expiration_time(), None);

    let expiry: i64 = 1636848749;
    let token = BearerToken::new("token".to_owned(), Some(expiry));
    assert_eq!(token.expiration_time(), Some(expiry));
    assert!(!token.has_expired_at(expiry - 1));
    assert!(!token.has_expired_at(expiry));
    assert!(token.has_expired_at(expiry + 1));
}

#[test]
fn expired_token_is_refused() {
    let token = BearerToken::new("token".to_owned(), Some(0));
    let err = token.provide_token_at(10).unwrap_err();
    assert_eq!(err.message(), "Bearer token in profile has expired");

    let token = BearerToken::new("token".to_owned(), Some(0));
    assert_eq!(token.provide_token_at(0).unwrap(), "token");
}

#[test]
fn profile_expiration_is_read_from_the_file() {
    let text = r#"{
        "shareCredentialsVersion": 1,
        "endpoint": "https://sharing.delta.io/delta-sharing/",
        "bearerToken": "foo-token",
        "expirationTime": "2021-11-14T00:12:29.0Z"
    }"#;
    let profile = match Profile::try_from_json(text) {
        Ok(p) => p,
        Err(e) => panic!("{}", e.message()),
    };
    match profile.profile_type() {
        ProfileType::BearerToken(b) => {
            assert_eq!(b.token(), "foo-token");
            assert_eq!(b.expiration_time(), Some(1636848749));
        }
    }
}

#[test]
fn debug_bearer_token_profile_type() {
    let profile = ProfileType::new_bearer_token("token".to_owned(), None);

    assert_eq!(
        profile.debug_string(),
        r#"BearerToken(BearerTokenFile { token: "********", expiration_time: None })"#
    );
    let profile = ProfileType::new_bearer_token("hush".to_owned(), Some(-3));
    assert_eq!(
        profile.debug_string(),
        r#"BearerToken(BearerTokenFile { token: "********", expiration_time: Some(-3) })"#
    );
    assert!(!profile.debug_string().contains("hush"));
}

#[test]
fn try_new_bearer_token_checks_the_endpoint() {
    let p = match Profile::try_new_bearer_token(1, "https://sharing.delta.io/", "t", None) {
        Ok(p) => p,
        Err(e) => panic!("{}", e.message()),
    };
    assert_eq!(p.endpoint(), "https://sharing.delta.io/");
    assert!(p.is_bearer_token());

    assert!(Profile::try_new_bearer_token(1, "not a url", "t", None).is_err());
    assert!(Profile::try_new_bearer_token(2, "https://sharing.delta.io/", "t", None).is_err());
}
