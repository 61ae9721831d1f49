use selector4nix::downloads::ActiveDownloadRegistry;
use selector4nix::metric::{NarTransferAttrs, NarTransferMetric};
use selector4nix::url::Url;

#[test]
fn track_labels_counts_bytes_and_clears_on_remove() {
    let mut registry = ActiveDownloadRegistry::new();
    let meta_url = Url::new("https://cache.nixos.org/").unwrap();
    let source = Url::new(
        "https://cache.nixos.org/nar/1w1fff338fvdw53sqgamddn1b2xgds473pv6y13gizdbqjv4i5p3.nar.xz",
    )
    .unwrap();
    let id = registry.track(
        "1w1fff338fvdw53sqgamddn1b2xgds473pv6y13gizdbqjv4i5p3.nar.xz",
        &meta_url,
        &source,
        Some(5),
        Some("/nix/store/zj64jfhbxbync50az13gxr6k7bnqhcb3-codex-0.144.5"),
        100,
    );
    assert_eq!(registry.len(), 1);
    assert_eq!(registry.list()[0].name, "codex-0.144.5");
    assert_eq!(
        registry.list()[0].file,
        "1w1fff338fvdw53sqgamddn1b2xgds473pv6y13gizdbqjv4i5p3.nar.xz"
    );
    registry.record_bytes(id, 2);
    assert_eq!(registry.list()[0].bytes_transferred, 2);
    registry.record_bytes(id, 3);
    assert_eq!(registry.list()[0].bytes_transferred, 5);
    registry.remove(id);
    assert!(registry.is_empty());
}

#[test]
fn name_falls_back_to_file_and_list_is_by_start() {
    let mut registry = ActiveDownloadRegistry::new();
    let u = Url::new("https://a.example.com/").unwrap();
    let a = registry.track("a.nar", &u, &u, None, None, 30);
    let b = registry.track("b.nar", &u, &u, None, Some("/nix/store/nohash"), 10);
    let c = registry.track("c.nar", &u, &u, None, None, 40);
    let list = registry.list();
    let files: Vec<&str> = list.iter().map(|d| d.file.as_str()).collect();
    assert_eq!(files, vec!["b.nar", "a.nar", "c.nar"]);
    assert_eq!(list[0].name, "b.nar");
    assert_ne!(a, b);
    assert_ne!(b, c);
    registry.remove(b);
    registry.remove(b);
    assert_eq!(registry.len(), 2);
}

#[test]
fn begin_records_active_sample_and_drop_clears() {
    let mut metric = NarTransferMetric::new();
    let store_path = "/nix/store/zj64jfhbxbync50az13gxr6k7bnqhcb3-codex-0.144.5".to_string();
    let id = metric.begin(
        NarTransferAttrs {
            nar_file: "abc.nar.xz".into(),
            store_path: Some(store_path.clone()),
            substituter_url: Url::new("https://cache.nixos.org/").unwrap(),
            source_url: Url::new("https://cache.nixos.org/nar/abc.nar.xz").unwrap(),
            content_length: Some(10),
        },
        1,
    );

    assert_eq!(metric.active_count(), 1);
    assert_eq!(
        metric.active()[0].store_path.as_deref(),
        Some(store_path.as_str())
    );
    metric.record_bytes(id, 4);
    assert_eq!(metric.active()[0].bytes_transferred, 4);

    metric.remove(id);
    assert!(metric.is_empty());
}

#[test]
fn bytes_counter_wraps_like_an_atomic() {
    let mut metric = NarTransferMetric::new();
    let u = Url::new("https://a.example.com/").unwrap();
    let id = metric.begin(
        NarTransferAttrs { nar_file: "f".into(), store_path: None, substituter_url: u.duplicate(), source_url: u, content_length: None },
        0,
    );
    metric.record_bytes(id, u64::MAX);
    metric.record_bytes(id, 2);
    assert_eq!(metric.active()[0].bytes_transferred, 1);
    metric.record_bytes(id + 1, 7);
    assert_eq!(metric.active()[0].bytes_transferred, 1);
}

#[test]
fn removing_the_latest_download_restores_the_list() {
    let mut registry = ActiveDownloadRegistry::new();
    let u = Url::new("https://a.example.com/").unwrap();
    registry.track("a.nar", &u, &u, Some(1), None, 5);
    registry.track("b.nar", &u, &u, None, None, 6);
    let before = registry.list();
    let id = registry.track("c.nar", &u, &u, None, None, 1);
    assert_eq!(registry.len(), 3);
    registry.remove(id);
    assert_eq!(registry.list(), before);

    let mut metric = NarTransferMetric::new();
    let attrs = |f: &str| NarTransferAttrs {
        nar_file: f.into(),
        store_path: None,
        substituter_url: u.duplicate(),
        source_url: u.duplicate(),
        content_length: None,
    };
    metric.begin(attrs("a.nar"), 3);
    let before = metric.active();
    let id = metric.begin(attrs("b.nar"), 4);
    metric.remove(id);
    assert_eq!(metric.active(), before);
}

#[test]
fn downloads_started_together_are_all_listed() {
    let mut registry = ActiveDownloadRegistry::new();
    let u = Url::new("https://a.example.com/").unwrap();
    for (file, at) in [("a.nar", 20), ("b.nar", 10), ("c.nar", 20), ("d.nar", 10)] {
        registry.track(file, &u, &u, None, None, at);
    }
    let list = registry.list();
    assert_eq!(list.len(), 4);
    assert!(list.windows(2).all(|w| w[0].started_at_unix_ms <= w[1].started_at_unix_ms));
    let mut files: Vec<&str> = list.iter().map(|d| d.file.as_str()).collect();
    files.sort();
    assert_eq!(files, vec!["a.nar", "b.nar", "c.nar", "d.nar"]);
    let mut ids: Vec<u64> = list.iter().map(|d| d.id).collect();
    ids.sort();
    assert_eq!(ids, vec![0, 1, 2, 3]);
}

#[test]
fn each_track_adds_one_download() {
    let mut registry = ActiveDownloadRegistry::new();
    let u = Url::new("https://a.example.com/").unwrap();
    for n in 0..5 {
        assert_eq!(registry.len(), n);
        registry.track("f.nar", &u, &u, None, None, 1);
    }
    assert_eq!(registry.len(), 5);
}
