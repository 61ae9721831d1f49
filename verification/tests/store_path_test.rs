use selector4nix::store_path::store_path_name;

#[test]
fn store_path_name_extracts_package_name() {
    assert_eq!(
        store_path_name("/nix/store/zj64jfhbxbync50az13gxr6k7bnqhcb3-codex-0.144.5"),
        Some("codex-0.144.5")
    );
}

#[test]
fn store_path_name_returns_none_without_name() {
    assert_eq!(
        store_path_name("/nix/store/zj64jfhbxbync50az13gxr6k7bnqhcb3"),
        None
    );
    assert_eq!(store_path_name(""), None);
}

#[test]
fn store_path_name_of_bare_segment() {
    assert_eq!(store_path_name("abc-hello"), Some("hello"));
    assert_eq!(store_path_name("abc-"), None);
    assert_eq!(store_path_name("/nix/store/a-b/c-d-e"), Some("d-e"));
}
