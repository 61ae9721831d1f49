use selector4nix::substituter::SubstituterMeta;
use selector4nix::url::{TryNewUrlError, Url};

fn make_meta(url: &str) -> SubstituterMeta {
    SubstituterMeta::new(Url::new(url).unwrap(), 40)
}

#[test]
fn default_storage_url_is_not_custom() {
    let meta = make_meta("https://cache.nixos.org");
    assert!(!meta.has_custom_storage_url());
}

#[test]
fn storage_url_equal_to_default_is_not_custom() {
    let meta = make_meta("https://example.com");
    let default_storage = meta.url().as_dir().join("nar").unwrap();
    let meta = meta.with_storage_url(default_storage);
    assert!(!meta.has_custom_storage_url());
}

#[test]
fn storage_url_differing_from_default_is_custom() {
    let meta = make_meta("https://example.com");
    let meta = meta.with_storage_url(Url::new("https://cdn.example.com/nar").unwrap());
    assert!(meta.has_custom_storage_url());
}

#[test]
fn default_storage_url_is_under_url() {
    let meta = make_meta("https://cache.nixos.org");
    assert_eq!(meta.url().value(), "https://cache.nixos.org/");
    assert_eq!(meta.storage_url().value(), "https://cache.nixos.org/nar");
    let meta = make_meta("https://example.com/cache");
    assert_eq!(meta.storage_url().value(), "https://example.com/cache/nar");
    assert_eq!(meta.priority(), 40);
    assert_eq!(meta.nar_timeout(), None);
}

#[test]
fn try_new_builds_the_same_meta() {
    let meta = SubstituterMeta::try_new(Url::new("http://example.org/x/").unwrap(), 7).unwrap();
    assert_eq!(meta.storage_url().value(), "http://example.org/x/nar");
    assert_eq!(meta.priority(), 7);
}

#[test]
fn timeouts_are_replaced() {
    let meta = make_meta("https://example.com");
    let t = std::time::Duration::from_secs(3);
    let meta = meta.with_nar_timeout(Some(t)).with_nar_info_timeout(None);
    assert_eq!(meta.nar_timeout(), Some(t));
    assert_eq!(meta.nar_info_timeout(), None);
    assert_eq!(meta.storage_url().value(), "https://example.com/nar");
}

#[test]
fn url_rejects_non_http() {
    assert_eq!(Url::new("not-a-url").unwrap_err(), TryNewUrlError::Malformed);
    assert_eq!(
        Url::new("ftp://cache.example.org/").unwrap_err(),
        TryNewUrlError::UnsupportedScheme
    );
    assert_eq!(Url::new("HTTPS://Example.COM").unwrap().value(), "https://example.com/");
}

#[test]
fn as_dir_appends_slash_once() {
    let u = Url::new("https://example.com/a/b").unwrap();
    assert_eq!(u.as_dir().value(), "https://example.com/a/b/");
    assert_eq!(u.as_dir().as_dir().value(), "https://example.com/a/b/");
}

#[test]
fn custom_flag_follows_the_storage_url() {
    let meta = make_meta("https://example.com/cache");
    assert!(!meta.has_custom_storage_url());
    let custom = meta.with_storage_url(Url::new("https://cdn.example.com/nar").unwrap());
    assert!(custom.has_custom_storage_url());
    let back = custom
        .with_nar_timeout(Some(std::time::Duration::from_secs(3)))
        .with_storage_url(Url::new("https://example.com/cache/nar").unwrap());
    assert!(!back.has_custom_storage_url());
    assert!(back.clone().with_nar_info_timeout(None).storage_url().value() == "https://example.com/cache/nar");
}
