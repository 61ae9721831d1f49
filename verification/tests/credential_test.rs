use selector4nix::credential::{
    is_prefix_match, AppCredential, AppCredentialEntry, AppRawCredential, AppRawCredentialEntry,
};
use selector4nix::url::{TryNewUrlError, Url};

fn make_entry(url: &str) -> AppCredentialEntry {
    AppCredentialEntry {
        url: Url::new(url).unwrap(),
        login: "test".to_string(),
        secret: None,
    }
}

fn raw_entry(url: &str, login: &str, secret: Option<&str>) -> AppRawCredentialEntry {
    AppRawCredentialEntry {
        url: url.to_string(),
        login: login.to_string(),
        secret: secret.map(|s| s.to_string()),
    }
}

#[test]
fn lookup_selects_longest_matching_prefix() {
    let cred = AppCredential::empty()
        .with(make_entry("https://example.org/nix/"))
        .with(make_entry("https://example.org/nix/private/"));
    let url = Url::new("https://example.org/nix/private/foo.narinfo").unwrap();
    assert_eq!(
        cred.lookup(&url).unwrap().url.value(),
        "https://example.org/nix/private/"
    );
}

#[test]
fn lookup_rejects_partial_segment_match() {
    let cred = AppCredential::empty().with(make_entry("https://example.org/nix/cache1"));
    let url = Url::new("https://example.org/nix/cache10/foo.narinfo").unwrap();
    assert!(cred.lookup(&url).is_none());
}

#[test]
fn lookup_returns_none_given_no_match() {
    let cred = AppCredential::empty();
    let url = Url::new("https://cache.nixos.org/foo").unwrap();
    assert!(cred.lookup(&url).is_none());
}

#[test]
fn lookup_prefers_last_of_equal_length() {
    let mut first = make_entry("https://example.org/a/");
    first.login = "first".to_string();
    let mut second = make_entry("https://example.org/a/");
    second.login = "second".to_string();
    let cred = AppCredential::empty().with(first).with(second);
    let url = Url::new("https://example.org/a/b").unwrap();
    assert_eq!(cred.lookup(&url).unwrap().login, "second");
}

#[test]
fn prefix_match_needs_segment_boundary() {
    assert!(is_prefix_match("https://a/b/c", "https://a/b"));
    assert!(is_prefix_match("https://a/b", "https://a/b"));
    assert!(is_prefix_match("https://a/bc", "https://a/"));
    assert!(!is_prefix_match("https://a/bc", "https://a/b"));
    assert!(!is_prefix_match("https://a", "https://a/b"));
    assert!(is_prefix_match("/x", ""));
    assert!(!is_prefix_match("x", ""));
}

#[test]
fn credential_with_all_fields() {
    let cred = AppCredential::try_from_raw(AppRawCredential {
        credentials: vec![raw_entry("https://cache.example.org/", "user", Some("pass"))],
    })
    .unwrap();

    assert_eq!(cred.credentials.len(), 1);
    assert_eq!(
        cred.credentials[0].url.value(),
        "https://cache.example.org/"
    );
    assert_eq!(cred.credentials[0].login, "user");
    assert_eq!(cred.credentials[0].secret.as_deref(), Some("pass"));
}

#[test]
fn credential_without_secret() {
    let cred = AppCredential::try_from_raw(AppRawCredential {
        credentials: vec![raw_entry("https://cache.example.org/", "user", None)],
    })
    .unwrap();

    assert_eq!(cred.credentials[0].secret, None);
}

#[test]
fn empty_credentials_file() {
    let cred = AppCredential::empty();
    assert!(cred.credentials.is_empty());
}

#[test]
fn invalid_url_is_rejected() {
    let result = AppCredential::try_from_raw(AppRawCredential {
        credentials: vec![raw_entry("not-a-url", "user", None)],
    });

    assert!(result.is_err());
}

#[test]
fn unsupported_scheme_is_rejected() {
    let result = AppCredential::try_from_raw(AppRawCredential {
        credentials: vec![raw_entry("ftp://cache.example.org/", "user", None)],
    });

    assert!(result.is_err());
}

#[test]
fn first_refused_entry_is_reported() {
    let err = AppCredential::try_from_raw(AppRawCredential {
        credentials: vec![
            raw_entry("https://ok.example.org/", "a", None),
            raw_entry("gopher://x/", "b", None),
            raw_entry("nope", "c", None),
        ],
    })
    .err()
    .unwrap();
    assert_eq!(err.url, "gopher://x/");
    assert_eq!(err.reason, TryNewUrlError::UnsupportedScheme);
}
